//! The static page of the templated variant.

use vstd::prelude::*;
use crate::config::{Configuration, ProjectVariant};

verus! {

pub const INDEX_HTML: &'static str =
    "\n<!DOCTYPE html>\n<html lang=\"en\">\n<head>\n    <meta charset=\"UTF-8\">\n    <meta name=\"viewport\" content=\"width=device-width, initial-scale=1.0\">\n    <title>Mon API</title>\n    <style>\n        body { font-family: sans-serif; display: flex; justify-content: center; align-items: center; height: 100vh; margin: 0; background-color: #f0f0f0; }\n        h1 { color: #333; }\n        p { color: #666; }\n    </style>\n</head>\n<body>\n    <div>\n        <h1>Bienvenue sur mon API !</h1>\n        <p>Le serveur fonctionne. 😊</p>\n    </div>\n</body>\n</html>\n";

/// The page that `config` asks for: the fixed document under the templated
/// variant, none otherwise.
pub open spec fn template_text(config: Configuration) -> Option<Seq<char>> {
    if config.project_variant == ProjectVariant::ApiWithTemplate {
        Some(INDEX_HTML@)
    } else {
        None
    }
}

/// Emits the static page if the variant has one. Nothing in the page depends
/// on the configuration.
pub fn static_template(config: &Configuration) -> (page: Option<&'static str>)
    ensures
        page is Some <==> config.project_variant == ProjectVariant::ApiWithTemplate,
        match page {
            Some(text) => template_text(*config) == Some(text@),
            None => template_text(*config) is None,
        },
{
    match config.project_variant {
        ProjectVariant::ApiWithTemplate => Some(INDEX_HTML),
        ProjectVariant::ApiOnly => None,
    }
}

} // verus!
