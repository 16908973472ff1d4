//! The entry-point source of the generated project, put together from a
//! fixed table of fragments.

use vstd::prelude::*;
use vstd::string::*;
use crate::config::{Configuration, Cors, Database, ProjectVariant, MONGODB_LABEL, POSTGRESQL_LABEL};
use crate::packages::{driver_of, lemma_runtime_plan_contents, runtime_plan, Package};
use crate::sequences::{
    lemma_filter_keeps_ranking,
    lemma_occurrence_starts,
    lemma_occurs_in_flatten,
    lemma_occurs_in_one_of,
    lemma_ranked_is_distinct,
    occurs_at,
    ends_a_line,
    occurs_in,
    strictly_ranked,
};

verus! {

/// A block of the entry-point source. The variants are listed in the order
/// in which their text appears.
#[derive(Clone, Copy, Debug, PartialEq, Eq, Structural)]
pub enum Fragment {
    /// Loads the environment file.
    EnvironmentInit,
    /// Imports the framework.
    FrameworkImport,
    /// Imports the cross-origin middleware.
    CorsImport,
    /// Creates the application and reads the port.
    Bootstrap,
    /// Registers body parsing.
    BodyParsing,
    /// Registers the cross-origin middleware.
    CorsRegistration,
    /// Registers the serving of static assets.
    StaticAssets,
    /// Answers the root route with a fixed greeting.
    RootRoute,
    /// Marks where the connection to the chosen engine goes.
    DatabasePlaceholder,
    /// Starts listening on the port.
    Listener,
}

pub const ENVIRONMENT_INIT_TEXT: &'static str = "require('dotenv').config();\n";

pub const FRAMEWORK_IMPORT_TEXT: &'static str = "const express = require('express');\n";

pub const CORS_IMPORT_TEXT: &'static str = "const cors = require('cors');\n";

pub const BOOTSTRAP_TEXT: &'static str =
    "const app = express();\nconst port = process.env.PORT || 3000;\n\n";

pub const BODY_PARSING_TEXT: &'static str = "app.use(express.json());\n";

pub const CORS_REGISTRATION_TEXT: &'static str = "app.use(cors());\n";

pub const STATIC_ASSETS_TEXT: &'static str = "app.use(express.static('public'));\n";

pub const ROOT_ROUTE_TEXT: &'static str =
    "\napp.get('/', (req, res) => {\n  res.send('Hello World!');\n});\n\n";

pub const POSTGRESQL_PLACEHOLDER_TEXT: &'static str = "// Logique de connexion à PostgreSQL...\n";

pub const MONGODB_PLACEHOLDER_TEXT: &'static str = "// Logique de connexion à MongoDB...\n";

pub const NO_PLACEHOLDER_TEXT: &'static str = "";

pub const LISTENER_TEXT: &'static str =
    "app.listen(port, () => {\n  console.log(`Serveur démarré sur http://localhost:${port}`);\n});\n";

/// The table of fragments in canonical order. Later fragments use what
/// earlier ones declare, so this order is part of what the source means.
pub open spec fn canonical_order() -> Seq<Fragment> {
    seq![
        Fragment::EnvironmentInit,
        Fragment::FrameworkImport,
        Fragment::CorsImport,
        Fragment::Bootstrap,
        Fragment::BodyParsing,
        Fragment::CorsRegistration,
        Fragment::StaticAssets,
        Fragment::RootRoute,
        Fragment::DatabasePlaceholder,
        Fragment::Listener,
    ]
}

impl Fragment {
    /// The fragment's place in the canonical order, counted from zero.
    pub open spec fn rank(self) -> int {
        match self {
            Fragment::EnvironmentInit => 0,
            Fragment::FrameworkImport => 1,
            Fragment::CorsImport => 2,
            Fragment::Bootstrap => 3,
            Fragment::BodyParsing => 4,
            Fragment::CorsRegistration => 5,
            Fragment::StaticAssets => 6,
            Fragment::RootRoute => 7,
            Fragment::DatabasePlaceholder => 8,
            Fragment::Listener => 9,
        }
    }

    /// The one predicate that gates the fragment.
    pub open spec fn is_present(self, config: Configuration) -> bool {
        match self {
            Fragment::CorsImport | Fragment::CorsRegistration => config.cors == Cors::Enabled,
            Fragment::StaticAssets => config.project_variant == ProjectVariant::ApiWithTemplate,
            Fragment::DatabasePlaceholder => config.database != Database::NoDatabase,
            _ => true,
        }
    }

    /// The fragment's text. Only the placeholder depends on the
    /// configuration: it names the chosen engine.
    pub open spec fn text(self, config: Configuration) -> Seq<char> {
        match self {
            Fragment::EnvironmentInit => ENVIRONMENT_INIT_TEXT@,
            Fragment::FrameworkImport => FRAMEWORK_IMPORT_TEXT@,
            Fragment::CorsImport => CORS_IMPORT_TEXT@,
            Fragment::Bootstrap => BOOTSTRAP_TEXT@,
            Fragment::BodyParsing => BODY_PARSING_TEXT@,
            Fragment::CorsRegistration => CORS_REGISTRATION_TEXT@,
            Fragment::StaticAssets => STATIC_ASSETS_TEXT@,
            Fragment::RootRoute => ROOT_ROUTE_TEXT@,
            Fragment::DatabasePlaceholder => match config.database {
                Database::PostgreSql => POSTGRESQL_PLACEHOLDER_TEXT@,
                Database::MongoDb => MONGODB_PLACEHOLDER_TEXT@,
                Database::NoDatabase => NO_PLACEHOLDER_TEXT@,
            },
            Fragment::Listener => LISTENER_TEXT@,
        }
    }

    /// The package that the fragment's text relies on, if it relies on one.
    /// The placeholder stands for the driver of the chosen engine.
    pub open spec fn referenced_package(self, config: Configuration) -> Option<Package> {
        match self {
            Fragment::EnvironmentInit => Some(Package::Dotenv),
            Fragment::FrameworkImport | Fragment::Bootstrap | Fragment::BodyParsing
            | Fragment::StaticAssets => Some(Package::Express),
            Fragment::CorsImport | Fragment::CorsRegistration => Some(Package::Cors),
            Fragment::DatabasePlaceholder => driver_of(config.database),
            Fragment::RootRoute | Fragment::Listener => None,
        }
    }

    /// Whether `config` calls for the fragment.
    pub fn included(self, config: &Configuration) -> (present: bool)
        ensures
            present == self.is_present(*config),
    {
        match self {
            Fragment::CorsImport | Fragment::CorsRegistration => match config.cors {
                Cors::Enabled => true,
                Cors::Disabled => false,
            },
            Fragment::StaticAssets => match config.project_variant {
                ProjectVariant::ApiWithTemplate => true,
                ProjectVariant::ApiOnly => false,
            },
            Fragment::DatabasePlaceholder => match config.database {
                Database::NoDatabase => false,
                _ => true,
            },
            _ => true,
        }
    }

    /// The fragment's text under `config`.
    pub fn render(self, config: &Configuration) -> (block: &'static str)
        ensures
            block@ == self.text(*config),
    {
        match self {
            Fragment::EnvironmentInit => ENVIRONMENT_INIT_TEXT,
            Fragment::FrameworkImport => FRAMEWORK_IMPORT_TEXT,
            Fragment::CorsImport => CORS_IMPORT_TEXT,
            Fragment::Bootstrap => BOOTSTRAP_TEXT,
            Fragment::BodyParsing => BODY_PARSING_TEXT,
            Fragment::CorsRegistration => CORS_REGISTRATION_TEXT,
            Fragment::StaticAssets => STATIC_ASSETS_TEXT,
            Fragment::RootRoute => ROOT_ROUTE_TEXT,
            Fragment::DatabasePlaceholder => match config.database {
                Database::PostgreSql => POSTGRESQL_PLACEHOLDER_TEXT,
                Database::MongoDb => MONGODB_PLACEHOLDER_TEXT,
                Database::NoDatabase => NO_PLACEHOLDER_TEXT,
            },
            Fragment::Listener => LISTENER_TEXT,
        }
    }
}

/// The fragments that `config` calls for: the canonical table with the
/// absent fragments struck out.
pub open spec fn present_fragments(config: Configuration) -> Seq<Fragment> {
    canonical_order().filter(|f: Fragment| f.is_present(config))
}

/// The texts of `fragments`, one after the other with nothing in between.
pub open spec fn fragments_text(fragments: Seq<Fragment>, config: Configuration) -> Seq<char> {
    fragments.map_values(|f: Fragment| f.text(config)).flatten()
}

/// The entry-point source under `config`.
pub open spec fn entry_point_text(config: Configuration) -> Seq<char> {
    fragments_text(present_fragments(config), config)
}

/// The canonical table as a value.
pub fn canonical_table() -> (table: Vec<Fragment>)
    ensures
        table@ == canonical_order(),
{
    let mut table: Vec<Fragment> = Vec::new();
    table.push(Fragment::EnvironmentInit);
    table.push(Fragment::FrameworkImport);
    table.push(Fragment::CorsImport);
    table.push(Fragment::Bootstrap);
    table.push(Fragment::BodyParsing);
    table.push(Fragment::CorsRegistration);
    table.push(Fragment::StaticAssets);
    table.push(Fragment::RootRoute);
    table.push(Fragment::DatabasePlaceholder);
    table.push(Fragment::Listener);
    table
}

/// Walks the canonical table once and keeps the fragments that `config`
/// calls for.
pub fn select_fragments(config: &Configuration) -> (fragments: Vec<Fragment>)
    ensures
        fragments@ == present_fragments(*config),
        strictly_ranked(fragments@, |f: Fragment| f.rank()),
        forall|f: Fragment| #[trigger] fragments@.contains(f) <==> f.is_present(*config),
{
    proof {
        lemma_fragments_follow_canonical_order(*config);
    }
    let table = canonical_table();
    let ghost keep = |f: Fragment| f.is_present(*config);
    let mut fragments: Vec<Fragment> = Vec::new();
    let mut i: usize = 0;
    proof {
        reveal(Seq::filter);
    }
    while i < table.len()
        invariant
            i <= table.len(),
            table@ == canonical_order(),
            keep == (|f: Fragment| f.is_present(*config)),
            fragments@ == table@.take(i as int).filter(keep),
        decreases table.len() - i,
    {
        let fragment = table[i];
        proof {
            assert(table@.take(i + 1) =~= table@.take(i as int).push(fragment));
            table@.take(i as int).lemma_filter_push(fragment, keep);
        }
        if fragment.included(config) {
            fragments.push(fragment);
        }
        i += 1;
    }
    assert(table@.take(table.len() as int) =~= table@);
    fragments
}

/// Composes the entry-point source: the text of each fragment that `config`
/// calls for, in canonical order.
pub fn compose_entry_point(config: &Configuration) -> (source: String)
    ensures
        source@ == entry_point_text(*config),
{
    let fragments = select_fragments(config);
    let ghost text_of = |f: Fragment| f.text(*config);
    let mut source = String::new();
    let mut i: usize = 0;
    while i < fragments.len()
        invariant
            i <= fragments.len(),
            text_of == (|f: Fragment| f.text(*config)),
            source@ == fragments@.take(i as int).map_values(text_of).flatten(),
        decreases fragments.len() - i,
    {
        let fragment = fragments[i];
        source.append(fragment.render(config));
        proof {
            let earlier = fragments@.take(i as int).map_values(text_of);
            assert(fragments@.take(i + 1).map_values(text_of) =~= earlier.push(
                fragment.text(*config),
            ));
            earlier.lemma_flatten_push(fragment.text(*config));
        }
        i += 1;
    }
    assert(fragments@.take(fragments.len() as int) =~= fragments@);
    source
}

/// Whether some fragment of the entry point under `config` relies on
/// `package`.
pub open spec fn is_referenced(package: Package, config: Configuration) -> bool {
    exists|f: Fragment| #[trigger]
        present_fragments(config).contains(f) && f.referenced_package(config) == Some(package)
}

/// The fragments of an entry point stand in canonical order, whatever the
/// configuration and however it was arrived at: their ranks grow strictly.
/// A fragment stands among them exactly when its predicate holds, and then
/// once. The first is always the environment loader's, the last always the
/// listener.
pub proof fn lemma_fragments_follow_canonical_order(config: Configuration)
    ensures
        strictly_ranked(present_fragments(config), |f: Fragment| f.rank()),
        present_fragments(config).no_duplicates(),
        forall|f: Fragment| #[trigger] present_fragments(config).contains(f) <==> f.is_present(config),
        present_fragments(config).first() == Fragment::EnvironmentInit,
        present_fragments(config).last() == Fragment::Listener,
{
    let table = canonical_order();
    let rank = |f: Fragment| f.rank();
    let keep = |f: Fragment| f.is_present(config);
    let present = present_fragments(config);
    lemma_filter_keeps_ranking(table, keep, rank);
    lemma_ranked_is_distinct(present, rank);
    assert(present.contains(Fragment::EnvironmentInit));
    assert(present.contains(Fragment::Listener));
}

/// The two places where the cross-origin middleware enters the source are
/// present together or absent together.
pub proof fn lemma_cors_fragments_go_together(config: Configuration)
    ensures
        present_fragments(config).contains(Fragment::CorsImport) <==> present_fragments(
            config,
        ).contains(Fragment::CorsRegistration),
{
    lemma_fragments_follow_canonical_order(config);
}

/// The runtime dependencies and the entry point agree: a package is declared
/// exactly when some fragment of the source relies on it.
pub proof fn lemma_dependencies_match_references(config: Configuration)
    ensures
        forall|p: Package| #[trigger] runtime_plan(config).contains(p) <==> is_referenced(p, config),
{
    lemma_fragments_follow_canonical_order(config);
    lemma_runtime_plan_contents(config);
    let plan = runtime_plan(config);
    let present = present_fragments(config);
    assert forall|p: Package| #[trigger] plan.contains(p) <==> is_referenced(p, config) by {
        if plan.contains(p) {
            let witness = match p {
                Package::Express => Fragment::FrameworkImport,
                Package::Cors => Fragment::CorsImport,
                Package::Dotenv => Fragment::EnvironmentInit,
                _ => Fragment::DatabasePlaceholder,
            };
            assert(present.contains(witness) && witness.referenced_package(config) == Some(p));
        }
    }
}

/// The word by which the source names a package: its own name, or for a
/// driver the label of its engine.
pub open spec fn mention_of(package: Package) -> Seq<char> {
    match package {
        Package::Pg => POSTGRESQL_LABEL@,
        Package::Mongoose => MONGODB_LABEL@,
        _ => package.name_text(),
    }
}

/// A fragment that relies on a package names it in its text.
pub proof fn lemma_references_are_written_out(fragment: Fragment, config: Configuration)
    ensures
        fragment.referenced_package(config) matches Some(package) ==> occurs_in(
            mention_of(package),
            fragment.text(config),
        ),
{
    reveal_strlit("express");
    reveal_strlit("cors");
    reveal_strlit("dotenv");
    reveal_strlit("PostgreSQL");
    reveal_strlit("MongoDB");
    reveal_strlit("require('dotenv').config();\n");
    reveal_strlit("const express = require('express');\n");
    reveal_strlit("const cors = require('cors');\n");
    reveal_strlit("const app = express();\nconst port = process.env.PORT || 3000;\n\n");
    reveal_strlit("app.use(express.json());\n");
    reveal_strlit("app.use(cors());\n");
    reveal_strlit("app.use(express.static('public'));\n");
    reveal_strlit("// Logique de connexion à PostgreSQL...\n");
    reveal_strlit("// Logique de connexion à MongoDB...\n");
    let text = fragment.text(config);
    match fragment.referenced_package(config) {
        Some(package) => {
            let token = mention_of(package);
            let at: int = match fragment {
                Fragment::EnvironmentInit => 9,
                Fragment::FrameworkImport | Fragment::CorsImport => 6,
                Fragment::Bootstrap => 12,
                Fragment::DatabasePlaceholder => 26,
                _ => 8,
            };
            assert(text.subrange(at, at + token.len()) =~= token);
            assert(occurs_at(token, text, at));
        },
        None => {},
    }
}

/// Nothing is declared that the source does not name: the text of the entry
/// point names every package of the runtime dependencies.
pub proof fn lemma_dependencies_are_written_out(config: Configuration)
    ensures
        forall|p: Package| #[trigger]
            runtime_plan(config).contains(p) ==> occurs_in(mention_of(p), entry_point_text(config)),
{
    lemma_dependencies_match_references(config);
    let present = present_fragments(config);
    let texts = present.map_values(|f: Fragment| f.text(config));
    assert forall|p: Package| #[trigger] runtime_plan(config).contains(p) implies occurs_in(
        mention_of(p),
        entry_point_text(config),
    ) by {
        assert(is_referenced(p, config));
        let f = choose|f: Fragment| #[trigger]
            present.contains(f) && f.referenced_package(config) == Some(p);
        let which = choose|i: int| 0 <= i < present.len() && present[i] == f;
        lemma_references_are_written_out(f, config);
        assert(texts[which] == f.text(config));
        lemma_occurs_in_flatten(mention_of(p), texts, which);
    }
}

/// A fragment names no package but the one it relies on.
pub proof fn lemma_nothing_else_is_written_out(
    fragment: Fragment,
    config: Configuration,
    package: Package,
)
    ensures
        occurs_in(mention_of(package), fragment.text(config)) ==> fragment.referenced_package(
            config,
        ) == Some(package),
        mention_of(package).len() >= 4,
        forall|k: int| 0 <= k < mention_of(package).len() ==> mention_of(package)[k] != '\n',
        fragment.is_present(config) ==> ends_a_line(fragment.text(config)),
{
    reveal_strlit("express");
    reveal_strlit("cors");
    reveal_strlit("dotenv");
    reveal_strlit("nodemon");
    reveal_strlit("PostgreSQL");
    reveal_strlit("MongoDB");
    reveal_strlit("require('dotenv').config();\n");
    reveal_strlit("const express = require('express');\n");
    reveal_strlit("const cors = require('cors');\n");
    reveal_strlit("const app = express();\nconst port = process.env.PORT || 3000;\n\n");
    reveal_strlit("app.use(express.json());\n");
    reveal_strlit("app.use(cors());\n");
    reveal_strlit("app.use(express.static('public'));\n");
    reveal_strlit("\napp.get('/', (req, res) => {\n  res.send('Hello World!');\n});\n\n");
    reveal_strlit("// Logique de connexion à PostgreSQL...\n");
    reveal_strlit("// Logique de connexion à MongoDB...\n");
    reveal_strlit("");
    reveal_strlit(
        "app.listen(port, () => {\n  console.log(`Serveur démarré sur http://localhost:${port}`);\n});\n",
    );
    let token = mention_of(package);
    let text = fragment.text(config);
    if fragment.referenced_package(config) != Some(package) {
        assert forall|at: int| !occurs_at(token, text, at) by {
            if occurs_at(token, text, at) {
                lemma_occurrence_starts(token, text, at);
            }
        }
    }
}

/// The source and the runtime dependencies agree to the letter: the text of
/// the entry point names a package exactly when the package is declared.
/// Nothing declared goes unnamed, and nothing is named that is not declared.
pub proof fn lemma_source_names_what_is_declared(config: Configuration)
    ensures
        forall|p: Package| #[trigger]
            runtime_plan(config).contains(p) <==> occurs_in(mention_of(p), entry_point_text(config)),
{
    lemma_dependencies_are_written_out(config);
    lemma_dependencies_match_references(config);
    let present = present_fragments(config);
    let texts = present.map_values(|f: Fragment| f.text(config));
    assert forall|p: Package|
        occurs_in(mention_of(p), entry_point_text(config)) implies #[trigger] runtime_plan(
        config,
    ).contains(p) by {
        assert forall|i: int| 0 <= i < texts.len() implies ends_a_line(#[trigger] texts[i]) by {
            assert(present.contains(present[i]));
            lemma_fragments_follow_canonical_order(config);
            lemma_nothing_else_is_written_out(present[i], config, p);
        }
        lemma_nothing_else_is_written_out(Fragment::Listener, config, p);
        let which = lemma_occurs_in_one_of(mention_of(p), texts);
        let f = present[which];
        lemma_nothing_else_is_written_out(f, config, p);
        assert(present.contains(f) && f.referenced_package(config) == Some(p));
        assert(is_referenced(p, config));
    }
}

/// Composing is repeatable: the source depends on the configuration and on
/// nothing else, so that a second call under the same configuration returns
/// the same text, byte for byte.
pub proof fn lemma_entry_point_is_repeatable(first: Configuration, second: Configuration)
    requires
        first == second,
    ensures
        present_fragments(first) == present_fragments(second),
        entry_point_text(first) == entry_point_text(second),
{
}

} // verus!
