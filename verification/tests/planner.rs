use rest_scaffold::config::{Configuration, Cors, Database, ProjectVariant};
use rest_scaffold::packages::{development_dependencies, runtime_dependencies, Package};

fn every_configuration() -> Vec<Configuration> {
    let mut all = Vec::new();
    for database in [Database::NoDatabase, Database::PostgreSql, Database::MongoDb] {
        for cors in [Cors::Enabled, Cors::Disabled] {
            for project_variant in [ProjectVariant::ApiOnly, ProjectVariant::ApiWithTemplate] {
                all.push(Configuration { database, cors, project_variant });
            }
        }
    }
    all
}

#[test]
fn bare_configuration_depends_on_framework_and_loader() {
    let config = Configuration {
        database: Database::NoDatabase,
        cors: Cors::Disabled,
        project_variant: ProjectVariant::ApiOnly,
    };
    assert_eq!(runtime_dependencies(&config), vec![Package::Express, Package::Dotenv]);
    assert_eq!(development_dependencies(), vec![Package::Nodemon]);
}

#[test]
fn full_configuration_depends_on_all_four() {
    let config = Configuration {
        database: Database::PostgreSql,
        cors: Cors::Enabled,
        project_variant: ProjectVariant::ApiWithTemplate,
    };
    assert_eq!(
        runtime_dependencies(&config),
        vec![Package::Express, Package::Pg, Package::Cors, Package::Dotenv]
    );
}

#[test]
fn document_database_brings_its_own_driver() {
    let config = Configuration {
        database: Database::MongoDb,
        cors: Cors::Disabled,
        project_variant: ProjectVariant::ApiOnly,
    };
    assert_eq!(
        runtime_dependencies(&config),
        vec![Package::Express, Package::Mongoose, Package::Dotenv]
    );
}

#[test]
fn middleware_and_driver_follow_the_choices() {
    let all = every_configuration();
    assert_eq!(all.len(), 12);
    for config in all {
        let deps = runtime_dependencies(&config);
        assert_eq!(deps.contains(&Package::Cors), config.cors == Cors::Enabled);
        assert_eq!(deps.contains(&Package::Pg), config.database == Database::PostgreSql);
        assert_eq!(deps.contains(&Package::Mongoose), config.database == Database::MongoDb);
        let drivers = deps.iter().filter(|p| **p == Package::Pg || **p == Package::Mongoose).count();
        assert_eq!(drivers == 1, config.database != Database::NoDatabase);
        assert!(drivers <= 1);
        assert_eq!(deps.first(), Some(&Package::Express));
        assert_eq!(deps.last(), Some(&Package::Dotenv));
        assert!(!deps.contains(&Package::Nodemon));
        for (i, p) in deps.iter().enumerate() {
            assert!(!deps[..i].contains(p));
        }
    }
}

#[test]
fn packages_carry_their_names_and_constraints() {
    let declared: Vec<(&str, &str)> = [
        Package::Express,
        Package::Pg,
        Package::Mongoose,
        Package::Cors,
        Package::Dotenv,
        Package::Nodemon,
    ]
    .iter()
    .map(|p| (p.name(), p.version_constraint()))
    .collect();
    assert_eq!(
        declared,
        vec![
            ("express", "^4.17.1"),
            ("pg", "^8.0.0"),
            ("mongoose", "^6.0.0"),
            ("cors", "^2.8.5"),
            ("dotenv", "^16.0.0"),
            ("nodemon", "^2.0.0"),
        ]
    );
}
