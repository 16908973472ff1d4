use rest_scaffold::config::{Configuration, Cors, Database, ProjectChoices, ProjectVariant};
use rest_scaffold::entry::compose_entry_point;
use rest_scaffold::manifest::emit_manifest;
use rest_scaffold::packages::{development_dependencies, runtime_dependencies};
use rest_scaffold::tree::{generate_new_project, locate, plan_project, Step};

fn directory(path: &str) -> Step {
    Step::CreateDirectory { path: path.to_string() }
}

fn file(path: &str, content: &str) -> Step {
    Step::WriteFile { path: path.to_string(), content: content.to_string() }
}

fn target(step: &Step) -> &str {
    match step {
        Step::CreateDirectory { path } => path,
        Step::WriteFile { path, .. } => path,
    }
}

#[test]
fn plain_project_has_six_steps() {
    let config = Configuration {
        database: Database::NoDatabase,
        cors: Cors::Disabled,
        project_variant: ProjectVariant::ApiOnly,
    };
    let steps = plan_project("demo", &config);
    let manifest = emit_manifest("demo", &runtime_dependencies(&config), &development_dependencies());
    assert_eq!(
        steps,
        vec![
            directory("src/routes"),
            directory("src/controllers"),
            directory("src/models"),
            file("package.json", &manifest),
            file("src/index.js", &compose_entry_point(&config)),
            file(".env", "PORT=3000\n"),
        ]
    );
    assert!(manifest.contains("\"name\": \"demo\""));
}

#[test]
fn templated_project_has_eight_steps() {
    let config = Configuration {
        database: Database::PostgreSql,
        cors: Cors::Enabled,
        project_variant: ProjectVariant::ApiWithTemplate,
    };
    let steps = plan_project("shop", &config);
    let targets: Vec<&str> = steps.iter().map(target).collect();
    assert_eq!(
        targets,
        vec![
            "src/routes",
            "src/controllers",
            "src/models",
            "public",
            "package.json",
            "src/index.js",
            ".env",
            "public/index.html",
        ]
    );
    assert_eq!(steps[3], directory("public"));
    match &steps[7] {
        Step::WriteFile { path, content } => {
            assert_eq!(path, "public/index.html");
            assert!(content.starts_with("\n<!DOCTYPE html>\n"));
            assert!(content.ends_with("</html>\n"));
        }
        other => panic!("{:?}", other),
    }
    match &steps[4] {
        Step::WriteFile { content, .. } => {
            assert!(content.contains("    \"pg\": \"^8.0.0\",\n    \"cors\": \"^2.8.5\",\n"));
        }
        other => panic!("{:?}", other),
    }
}

#[test]
fn static_assets_follow_the_variant() {
    for database in [Database::NoDatabase, Database::PostgreSql, Database::MongoDb] {
        for cors in [Cors::Enabled, Cors::Disabled] {
            for project_variant in [ProjectVariant::ApiOnly, ProjectVariant::ApiWithTemplate] {
                let config = Configuration { database, cors, project_variant };
                let steps = plan_project("p", &config);
                let templated = project_variant == ProjectVariant::ApiWithTemplate;
                assert_eq!(steps.contains(&directory("public")), templated);
                assert_eq!(
                    steps.iter().any(|s| matches!(s, Step::WriteFile { path, .. } if path == "public/index.html")),
                    templated
                );
                assert_eq!(steps.iter().any(|s| target(s).starts_with("public")), templated);
                assert_eq!(steps.len(), if templated { 8 } else { 6 });
                for (i, step) in steps.iter().enumerate() {
                    assert!(steps[..i].iter().all(|earlier| target(earlier) != target(step)));
                    if matches!(step, Step::CreateDirectory { .. }) {
                        assert!(steps[..i].iter().all(|s| matches!(s, Step::CreateDirectory { .. })));
                    }
                }
            }
        }
    }
}

#[test]
fn project_is_generated_from_the_answers() {
    let choices = ProjectChoices {
        db_choice: "MongoDB".to_string(),
        cors_choice: "Non".to_string(),
        project_type: "API avec template".to_string(),
    };
    let config = Configuration {
        database: Database::MongoDb,
        cors: Cors::Disabled,
        project_variant: ProjectVariant::ApiWithTemplate,
    };
    assert_eq!(generate_new_project("blog", &choices), plan_project("blog", &config));
    assert_eq!(generate_new_project("blog", &choices).len(), 8);
}

#[test]
fn steps_are_placed_under_a_root() {
    assert_eq!(locate("demo", "src/routes"), "demo/src/routes");
    assert_eq!(locate("", "src/routes"), "src/routes");
    assert_eq!(locate("a/b", ".env"), "a/b/.env");
    assert_eq!(directory("public").placed_under("demo"), directory("demo/public"));
    assert_eq!(file(".env", "PORT=3000\n").placed_under("demo"), file("demo/.env", "PORT=3000\n"));
}
