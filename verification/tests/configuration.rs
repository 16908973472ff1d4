use rest_scaffold::config::{
    Configuration, Cors, Database, ProjectChoices, ProjectVariant, Question,
};

fn answers(db: &str, cors: &str, project_type: &str) -> ProjectChoices {
    ProjectChoices {
        db_choice: db.to_string(),
        cors_choice: cors.to_string(),
        project_type: project_type.to_string(),
    }
}

#[test]
fn questions_offer_their_labels_in_order() {
    assert_eq!(Question::Database.prompt(), "Quelle base de données voulez-vous utiliser ?");
    assert_eq!(Question::Database.options(), vec!["PostgreSQL", "MongoDB", "Aucune"]);
    assert_eq!(Question::Cors.prompt(), "Voulez-vous installer CORS ?");
    assert_eq!(Question::Cors.options(), vec!["Oui", "Non"]);
    assert_eq!(Question::ProjectType.prompt(), "Quel type de projet voulez-vous créer ?");
    assert_eq!(
        Question::ProjectType.options(),
        vec!["API (sans template HTML)", "API avec template"]
    );
}

#[test]
fn negative_labels_resolve_to_the_plain_configuration() {
    let config = answers("Aucune", "Non", "API (sans template HTML)").resolve();
    assert_eq!(
        config,
        Configuration {
            database: Database::NoDatabase,
            cors: Cors::Disabled,
            project_variant: ProjectVariant::ApiOnly,
        }
    );
}

#[test]
fn positive_labels_resolve_to_the_full_configuration() {
    let config = answers("PostgreSQL", "Oui", "API avec template").resolve();
    assert_eq!(
        config,
        Configuration {
            database: Database::PostgreSql,
            cors: Cors::Enabled,
            project_variant: ProjectVariant::ApiWithTemplate,
        }
    );
    assert_eq!(answers("MongoDB", "Oui", "API avec template").resolve().database, Database::MongoDb);
}

#[test]
fn every_offered_label_resolves_and_each_field_stands_alone() {
    for db in Question::Database.options() {
        for cors in Question::Cors.options() {
            for project_type in Question::ProjectType.options() {
                let config = answers(db, cors, project_type).resolve();
                assert_eq!(config.database == Database::PostgreSql, db == "PostgreSQL");
                assert_eq!(config.database == Database::MongoDb, db == "MongoDB");
                assert_eq!(config.database == Database::NoDatabase, db == "Aucune");
                assert_eq!(config.cors == Cors::Enabled, cors == "Oui");
                assert_eq!(
                    config.project_variant == ProjectVariant::ApiWithTemplate,
                    project_type == "API avec template"
                );
            }
        }
    }
}

#[test]
fn texts_that_are_no_label_select_nothing() {
    let config = answers("postgresql", "oui", "API").resolve();
    assert_eq!(config.database, Database::NoDatabase);
    assert_eq!(config.cors, Cors::Disabled);
    assert_eq!(config.project_variant, ProjectVariant::ApiOnly);
    let empty = answers("", "", "").resolve();
    assert_eq!(empty, config);
}
