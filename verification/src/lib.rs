//! Generation engine of a scaffolding tool for small server-side web projects.
//!
//! A handful of discrete choices is turned into a configuration; from the
//! configuration follow the dependency lists, the manifest, the entry-point
//! source and the optional static page, laid out as an ordered list of
//! filesystem steps. A second, independent pipeline composes one route-handler
//! file for an entity. Nothing here touches the terminal, the filesystem or a
//! child process: a session hands out one action at a time and is told what
//! came of it.

pub mod config;
pub mod packages;
pub mod sequences;
pub mod manifest;
pub mod entry;
pub mod controller;
pub mod template;
pub mod tree;
pub mod outcome;
pub mod cli;
pub mod session;
