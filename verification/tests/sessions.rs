use rest_scaffold::cli::{Cli, Commands, GenerateCommands};
use rest_scaffold::config::{ProjectChoices, Question};
use rest_scaffold::controller::{generate_controller, Operation};
use rest_scaffold::outcome::Outcome;
use rest_scaffold::session::{Action, Event, Session};
use rest_scaffold::tree::{generate_new_project, Step};

fn new_project(name: &str) -> Session {
    Session::start(Cli { command: Commands::New { name: name.to_string() } })
}

fn new_controller(name: &str) -> Session {
    Session::start(Cli {
        command: Commands::Generate {
            command: GenerateCommands::Controller { name: name.to_string() },
        },
    })
}

fn answered(label: &str) -> Event {
    Event::Answered { answer: Some(label.to_string()) }
}

fn done() -> Event {
    Event::StepCompleted { failure: None }
}

fn failed(cause: &str) -> Event {
    Event::StepCompleted { failure: Some(cause.to_string()) }
}

fn materializing(name: &str, db: &str, cors: &str, project_type: &str) -> Session {
    new_project(name)
        .advance(Event::TargetChecked { exists: false })
        .advance(answered(db))
        .advance(answered(cors))
        .advance(answered(project_type))
}

#[test]
fn existing_target_ends_the_run_before_anything_is_touched() {
    let session = new_project("taken");
    assert_eq!(session.action(), Action::CheckTarget { path: "taken".to_string() });
    let session = session.advance(Event::TargetChecked { exists: true });
    assert!(session.is_finished());
    let outcome = Outcome::TargetAlreadyExists { path: "taken".to_string() };
    assert_eq!(session.action(), Action::Finish { outcome: outcome.clone() });
    assert_ne!(outcome.exit_code(), 0);
    assert!(outcome.message().contains("'taken'"));
    assert!(!outcome.is_success());
    let session = session.advance(done()).advance(answered("Oui"));
    assert_eq!(session.action(), Action::Finish { outcome });
}

#[test]
fn questions_come_in_order() {
    let session = new_project("demo").advance(Event::TargetChecked { exists: false });
    assert_eq!(session.action(), Action::Ask { question: Question::Database });
    let session = session.advance(answered("Aucune"));
    assert_eq!(session.action(), Action::Ask { question: Question::Cors });
    let session = session.advance(answered("Non"));
    assert_eq!(session.action(), Action::Ask { question: Question::ProjectType });
    let session = session.advance(answered("API (sans template HTML)"));
    assert_eq!(
        session.action(),
        Action::Perform { step: Step::CreateDirectory { path: "demo/src/routes".to_string() } }
    );
}

#[test]
fn question_without_answer_ends_the_run() {
    let at_first = new_project("demo")
        .advance(Event::TargetChecked { exists: false })
        .advance(Event::Answered { answer: None });
    assert_eq!(at_first.action(), Action::Finish { outcome: Outcome::ChoiceAborted });
    let at_second = new_project("demo")
        .advance(Event::TargetChecked { exists: false })
        .advance(answered("MongoDB"))
        .advance(Event::Answered { answer: None });
    assert_eq!(at_second.action(), Action::Finish { outcome: Outcome::ChoiceAborted });
    let at_third = new_project("demo")
        .advance(Event::TargetChecked { exists: false })
        .advance(answered("MongoDB"))
        .advance(answered("Oui"))
        .advance(Event::Answered { answer: None });
    assert_eq!(at_third.action(), Action::Finish { outcome: Outcome::ChoiceAborted });
    assert_eq!(Outcome::ChoiceAborted.exit_code(), 2);
}

#[test]
fn steps_are_carried_out_in_order_and_then_the_installer_runs() {
    let choices = ProjectChoices {
        db_choice: "PostgreSQL".to_string(),
        cors_choice: "Oui".to_string(),
        project_type: "API avec template".to_string(),
    };
    let plan = generate_new_project("shop", &choices);
    assert_eq!(plan.len(), 8);
    let mut session = materializing("shop", "PostgreSQL", "Oui", "API avec template");
    for step in &plan {
        assert_eq!(session.action(), Action::Perform { step: step.placed_under("shop") });
        assert!(!session.is_finished());
        session = session.advance(done());
    }
    assert_eq!(
        session.action(),
        Action::RunInstaller {
            program: "npm".to_string(),
            argument: "install".to_string(),
            directory: "shop".to_string(),
        }
    );
    let session = session.advance(Event::InstallerExited {
        succeeded: true,
        stderr_text: "warn".to_string(),
    });
    let outcome = Outcome::ProjectGenerated { name: "shop".to_string() };
    assert_eq!(session.action(), Action::Finish { outcome: outcome.clone() });
    assert_eq!(outcome.exit_code(), 0);
}

#[test]
fn plain_project_runs_six_steps() {
    let mut session = materializing("demo", "Aucune", "Non", "API (sans template HTML)");
    let mut targets = Vec::new();
    while let Action::Perform { step } = session.action() {
        targets.push(match step {
            Step::CreateDirectory { path } => format!("dir {}", path),
            Step::WriteFile { path, .. } => format!("file {}", path),
        });
        session = session.advance(done());
    }
    assert_eq!(
        targets,
        vec![
            "dir demo/src/routes",
            "dir demo/src/controllers",
            "dir demo/src/models",
            "file demo/package.json",
            "file demo/src/index.js",
            "file demo/.env",
        ]
    );
    assert!(matches!(session.action(), Action::RunInstaller { .. }));
}

#[test]
fn first_failing_directory_ends_the_run() {
    let session = materializing("demo", "Aucune", "Non", "API (sans template HTML)")
        .advance(done())
        .advance(failed("permission denied"));
    let outcome = Outcome::DirectoryCreationFailed {
        path: "demo/src/controllers".to_string(),
        cause: "permission denied".to_string(),
    };
    assert_eq!(session.action(), Action::Finish { outcome: outcome.clone() });
    assert_eq!(outcome.exit_code(), 3);
    let session = session.advance(done());
    assert_eq!(session.action(), Action::Finish { outcome });
}

#[test]
fn first_failing_file_ends_the_run() {
    let session = materializing("demo", "Aucune", "Non", "API (sans template HTML)")
        .advance(done())
        .advance(done())
        .advance(done())
        .advance(failed("disk full"));
    let outcome = Outcome::FileWriteFailed {
        path: "demo/package.json".to_string(),
        cause: "disk full".to_string(),
    };
    assert_eq!(session.action(), Action::Finish { outcome: outcome.clone() });
    assert_eq!(outcome.exit_code(), 4);
}

#[test]
fn installer_failures_leave_the_project_in_place() {
    let mut session = materializing("demo", "Aucune", "Non", "API (sans template HTML)");
    for _ in 0..6 {
        session = session.advance(done());
    }
    let failed_run = session.clone().advance(Event::InstallerExited {
        succeeded: false,
        stderr_text: "npm ERR!".to_string(),
    });
    let outcome = Outcome::InstallerFailed { stderr_text: "npm ERR!".to_string() };
    assert_eq!(failed_run.action(), Action::Finish { outcome: outcome.clone() });
    assert_eq!(outcome.exit_code(), 0);
    assert!(!outcome.is_success());
    let missing = session.advance(Event::InstallerNotLaunched { cause: "not found".to_string() });
    let outcome = Outcome::InstallerUnavailable { cause: "not found".to_string() };
    assert_eq!(missing.action(), Action::Finish { outcome: outcome.clone() });
    assert_eq!(outcome.exit_code(), 0);
}

#[test]
fn events_that_answer_nothing_change_nothing() {
    let session = new_project("demo");
    let same = session.clone().advance(answered("Oui")).advance(done());
    assert_eq!(same, session);
    let asking = session.advance(Event::TargetChecked { exists: false });
    let same = asking
        .clone()
        .advance(Event::TargetChecked { exists: true })
        .advance(done())
        .advance(Event::OperationsSelected { selection: Some(Vec::new()) });
    assert_eq!(same, asking);
    let working = materializing("demo", "Aucune", "Non", "API avec template");
    let same = working.clone().advance(answered("Oui")).advance(Event::InstallerNotLaunched {
        cause: "x".to_string(),
    });
    assert_eq!(same, working);
}

#[test]
fn controller_run_asks_writes_and_finishes() {
    let session = new_controller("Order");
    assert_eq!(session.action(), Action::AskOperations);
    let selection = vec![Operation::Delete, Operation::Create];
    let session = session.advance(Event::OperationsSelected { selection: Some(selection.clone()) });
    let file = generate_controller("Order", &selection);
    assert_eq!(file.path, "src/controllers/order.js");
    assert_eq!(
        session.action(),
        Action::Perform {
            step: Step::WriteFile { path: file.path.clone(), content: file.content.clone() },
        }
    );
    let session = session.advance(done());
    assert_eq!(
        session.action(),
        Action::Finish {
            outcome: Outcome::ControllerGenerated {
                name: "Order".to_string(),
                path: "src/controllers/order.js".to_string(),
            },
        }
    );
}

#[test]
fn controller_run_can_fail_or_be_aborted() {
    let aborted = new_controller("Order").advance(Event::OperationsSelected { selection: None });
    assert_eq!(aborted.action(), Action::Finish { outcome: Outcome::ChoiceAborted });
    let failed_write = new_controller("Order")
        .advance(Event::OperationsSelected { selection: Some(Vec::new()) })
        .advance(failed("no such directory"));
    assert_eq!(
        failed_write.action(),
        Action::Finish {
            outcome: Outcome::FileWriteFailed {
                path: "src/controllers/order.js".to_string(),
                cause: "no such directory".to_string(),
            },
        }
    );
}
