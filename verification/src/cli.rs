//! The command surface: what the tool can be asked to do.

use vstd::prelude::*;

verus! {

/// A parsed command line.
#[derive(Clone, Debug, PartialEq, Eq)]
pub struct Cli {
    pub command: Commands,
}

/// The top-level commands.
#[derive(Clone, Debug, PartialEq, Eq)]
pub enum Commands {
    /// Create a new project in a directory of the given name.
    New { name: String },
    /// Generate a part of an existing project.
    Generate { command: GenerateCommands },
}

/// What can be generated into an existing project.
#[derive(Clone, Debug, PartialEq, Eq)]
pub enum GenerateCommands {
    /// The route-handler file of the entity of the given name.
    Controller { name: String },
}

impl Cli {
    /// Whether the command creates a new project.
    pub open spec fn creates_project(&self) -> bool {
        self.command is New
    }

    /// The name that the command carries: of the project, or of the entity.
    pub open spec fn subject(&self) -> Seq<char> {
        match self.command {
            Commands::New { name } => name@,
            Commands::Generate { command: GenerateCommands::Controller { name } } => name@,
        }
    }
}

} // verus!
