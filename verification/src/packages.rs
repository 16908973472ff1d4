//! The packages a generated project can depend on, and which of them a
//! configuration calls for.

use vstd::prelude::*;
use crate::config::{Configuration, Cors, Database};

verus! {

/// A package of the generated project's ecosystem.
#[derive(Clone, Copy, Debug, PartialEq, Eq, Structural)]
pub enum Package {
    /// The web framework.
    Express,
    /// The PostgreSQL driver.
    Pg,
    /// The document-database driver.
    Mongoose,
    /// The cross-origin middleware.
    Cors,
    /// The environment-variable loader.
    Dotenv,
    /// The auto-reload runner.
    Nodemon,
}

pub const EXPRESS_NAME: &'static str = "express";

pub const EXPRESS_CONSTRAINT: &'static str = "^4.17.1";

pub const PG_NAME: &'static str = "pg";

pub const PG_CONSTRAINT: &'static str = "^8.0.0";

pub const MONGOOSE_NAME: &'static str = "mongoose";

pub const MONGOOSE_CONSTRAINT: &'static str = "^6.0.0";

pub const CORS_NAME: &'static str = "cors";

pub const CORS_CONSTRAINT: &'static str = "^2.8.5";

pub const DOTENV_NAME: &'static str = "dotenv";

pub const DOTENV_CONSTRAINT: &'static str = "^16.0.0";

pub const NODEMON_NAME: &'static str = "nodemon";

pub const NODEMON_CONSTRAINT: &'static str = "^2.0.0";

impl Package {
    /// The name under which the package is declared.
    pub open spec fn name_text(self) -> Seq<char> {
        match self {
            Package::Express => EXPRESS_NAME@,
            Package::Pg => PG_NAME@,
            Package::Mongoose => MONGOOSE_NAME@,
            Package::Cors => CORS_NAME@,
            Package::Dotenv => DOTENV_NAME@,
            Package::Nodemon => NODEMON_NAME@,
        }
    }

    /// The version constraint with which the package is declared.
    pub open spec fn constraint_text(self) -> Seq<char> {
        match self {
            Package::Express => EXPRESS_CONSTRAINT@,
            Package::Pg => PG_CONSTRAINT@,
            Package::Mongoose => MONGOOSE_CONSTRAINT@,
            Package::Cors => CORS_CONSTRAINT@,
            Package::Dotenv => DOTENV_CONSTRAINT@,
            Package::Nodemon => NODEMON_CONSTRAINT@,
        }
    }

    /// Whether the package is a database driver.
    pub open spec fn is_driver(self) -> bool {
        self == Package::Pg || self == Package::Mongoose
    }

    pub fn name(self) -> (text: &'static str)
        ensures
            text@ == self.name_text(),
    {
        match self {
            Package::Express => EXPRESS_NAME,
            Package::Pg => PG_NAME,
            Package::Mongoose => MONGOOSE_NAME,
            Package::Cors => CORS_NAME,
            Package::Dotenv => DOTENV_NAME,
            Package::Nodemon => NODEMON_NAME,
        }
    }

    pub fn version_constraint(self) -> (text: &'static str)
        ensures
            text@ == self.constraint_text(),
    {
        match self {
            Package::Express => EXPRESS_CONSTRAINT,
            Package::Pg => PG_CONSTRAINT,
            Package::Mongoose => MONGOOSE_CONSTRAINT,
            Package::Cors => CORS_CONSTRAINT,
            Package::Dotenv => DOTENV_CONSTRAINT,
            Package::Nodemon => NODEMON_CONSTRAINT,
        }
    }
}

/// The driver that goes with an engine, if the engine needs one.
pub open spec fn driver_of(database: Database) -> Option<Package> {
    match database {
        Database::NoDatabase => None,
        Database::PostgreSql => Some(Package::Pg),
        Database::MongoDb => Some(Package::Mongoose),
    }
}

/// The runtime dependencies in declaration order: the framework, then the
/// driver of the chosen engine, then the cross-origin middleware if enabled,
/// and the environment loader last.
pub open spec fn runtime_plan(config: Configuration) -> Seq<Package> {
    let drivers = match driver_of(config.database) {
        Some(driver) => seq![driver],
        None => Seq::<Package>::empty(),
    };
    let middlewares = if config.cors == Cors::Enabled {
        seq![Package::Cors]
    } else {
        Seq::<Package>::empty()
    };
    seq![Package::Express] + drivers + middlewares + seq![Package::Dotenv]
}

/// The development dependencies: the auto-reload runner and nothing else.
pub open spec fn development_plan() -> Seq<Package> {
    seq![Package::Nodemon]
}

/// Plans the runtime dependencies of a configuration: the cross-origin
/// middleware exactly when it is enabled, one driver exactly when an engine
/// is chosen, and then that engine's, and nothing twice.
pub fn runtime_dependencies(config: &Configuration) -> (deps: Vec<Package>)
    ensures
        deps@ == runtime_plan(*config),
        deps@.contains(Package::Cors) <==> config.cors == Cors::Enabled,
        deps@.contains(Package::Pg) <==> config.database == Database::PostgreSql,
        deps@.contains(Package::Mongoose) <==> config.database == Database::MongoDb,
        driver_count(deps@) == if config.database != Database::NoDatabase {
            1nat
        } else {
            0nat
        },
        deps@.no_duplicates(),
{
    proof {
        lemma_runtime_plan_contents(*config);
    }
    let mut deps: Vec<Package> = Vec::new();
    deps.push(Package::Express);
    match config.database {
        Database::NoDatabase => {},
        Database::PostgreSql => {
            deps.push(Package::Pg);
        },
        Database::MongoDb => {
            deps.push(Package::Mongoose);
        },
    }
    match config.cors {
        Cors::Enabled => {
            deps.push(Package::Cors);
        },
        Cors::Disabled => {},
    }
    deps.push(Package::Dotenv);
    assert(deps@ =~= runtime_plan(*config));
    deps
}

/// Plans the development dependencies, which no choice affects.
pub fn development_dependencies() -> (deps: Vec<Package>)
    ensures
        deps@ == development_plan(),
{
    let mut deps: Vec<Package> = Vec::new();
    deps.push(Package::Nodemon);
    deps
}

/// How often `package` occurs in `deps`.
pub open spec fn occurrences(deps: Seq<Package>, package: Package) -> nat
    decreases deps.len(),
{
    if deps.len() == 0 {
        0
    } else {
        let rest = occurrences(deps.drop_last(), package);
        if deps.last() == package {
            rest + 1
        } else {
            rest
        }
    }
}

/// How many database drivers `deps` holds, each counted as often as it
/// occurs.
pub open spec fn driver_count(deps: Seq<Package>) -> nat {
    occurrences(deps, Package::Pg) + occurrences(deps, Package::Mongoose)
}

/// What a configuration puts into the runtime dependencies: the framework
/// first and the environment loader last, always; the cross-origin middleware
/// exactly when it is enabled; a driver exactly when an engine is chosen, and
/// then the driver of that engine and no other; the auto-reload runner never;
/// and nothing twice.
pub proof fn lemma_runtime_plan_contents(config: Configuration)
    ensures
        runtime_plan(config).first() == Package::Express,
        runtime_plan(config).last() == Package::Dotenv,
        runtime_plan(config).contains(Package::Cors) <==> config.cors == Cors::Enabled,
        forall|p: Package|
            p.is_driver() ==> (#[trigger] runtime_plan(config).contains(p) <==> driver_of(
                config.database,
            ) == Some(p)),
        driver_count(runtime_plan(config)) == if config.database != Database::NoDatabase {
            1nat
        } else {
            0nat
        },
        !runtime_plan(config).contains(Package::Nodemon),
        runtime_plan(config).no_duplicates(),
        forall|p: Package| #[trigger] occurrences(runtime_plan(config), p) <= 1,
        forall|p: Package|
            #[trigger] occurrences(runtime_plan(config), p) == 1 <==> runtime_plan(
                config,
            ).contains(p),
{
    let plan = runtime_plan(config);
    assert forall|p: Package| #[trigger] occurrences(plan, p) == (if plan.contains(p) {
        1nat
    } else {
        0nat
    }) by {
        lemma_occurrences_of_distinct(plan, p);
    }
    if config.database != Database::NoDatabase {
        assert(plan[1] == driver_of(config.database)->0);
    }
    if config.cors == Cors::Enabled {
        assert(plan[plan.len() - 2] == Package::Cors);
    }
}

/// In a sequence without repetition a package occurs once if it occurs at
/// all.
pub proof fn lemma_occurrences_of_distinct(deps: Seq<Package>, package: Package)
    requires
        deps.no_duplicates(),
    ensures
        occurrences(deps, package) == (if deps.contains(package) {
            1nat
        } else {
            0nat
        }),
    decreases deps.len(),
{
    if deps.len() > 0 {
        let front = deps.drop_last();
        lemma_occurrences_of_distinct(front, package);
        if deps.last() != package && deps.contains(package) {
            let i = choose|i: int| 0 <= i < deps.len() && deps[i] == package;
            assert(front[i] == package);
        }
    }
}

/// Two packages declared under the same name are the same package.
pub proof fn lemma_names_identify(p: Package, q: Package)
    requires
        p.name_text() == q.name_text(),
    ensures
        p == q,
{
    reveal_strlit("express");
    reveal_strlit("pg");
    reveal_strlit("mongoose");
    reveal_strlit("cors");
    reveal_strlit("dotenv");
    reveal_strlit("nodemon");
    assert(PG_NAME@.len() == 2);
    assert(MONGOOSE_NAME@.len() == 8);
    assert(CORS_NAME@.len() == 4);
    assert(DOTENV_NAME@.len() == 6);
    assert(NODEMON_NAME@.len() == 7 && NODEMON_NAME@[0] == 'n');
}

} // verus!
