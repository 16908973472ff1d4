//! A run of the tool as a session: it names the one action that is due, is
//! told what came of it, and moves on. The session decides; whoever drives
//! it asks the questions, touches the filesystem and runs the installer.

use vstd::prelude::*;
use vstd::string::*;
use crate::cli::{Cli, Commands, GenerateCommands};
use crate::config::{configuration_of, ProjectChoices, Question};
use crate::controller::{
    controller_path_text,
    controller_text,
    generate_controller,
    lowercase_of,
    Operation,
};
use crate::outcome::{Outcome, OutcomeView};
use crate::tree::{generate_new_project, project_steps, steps_view, Step, StepView};

verus! {

pub const INSTALLER_PROGRAM: &'static str = "npm";

pub const INSTALLER_ARGUMENT: &'static str = "install";

/// Where a run stands.
#[derive(Clone, Debug, PartialEq, Eq)]
pub enum Session {
    /// A new project: it is not yet known whether the target exists.
    CheckingTarget { name: String },
    /// A new project: the database question is out.
    AskingDatabase { name: String },
    /// A new project: the middleware question is out.
    AskingCors { name: String, db_choice: String },
    /// A new project: the question of the project's shape is out.
    AskingProjectType { name: String, db_choice: String, cors_choice: String },
    /// A new project: `current` is being carried out, `later` is still to
    /// come, in this order.
    Materializing { name: String, current: Step, later: Vec<Step> },
    /// A new project: the tree is complete and the installer is running.
    Installing { name: String },
    /// A handler file: the operations are being selected.
    AskingOperations { name: String },
    /// A handler file: it is being written.
    WritingController { name: String, path: String, content: String },
    /// The run is over.
    Finished { outcome: Outcome },
}

/// A session as plain text.
pub enum SessionView {
    CheckingTarget { name: Seq<char> },
    AskingDatabase { name: Seq<char> },
    AskingCors { name: Seq<char>, db_choice: Seq<char> },
    AskingProjectType { name: Seq<char>, db_choice: Seq<char>, cors_choice: Seq<char> },
    Materializing { name: Seq<char>, current: StepView, later: Seq<StepView> },
    Installing { name: Seq<char> },
    AskingOperations { name: Seq<char> },
    WritingController { name: Seq<char>, path: Seq<char>, content: Seq<char> },
    Finished { outcome: OutcomeView },
}

impl View for Session {
    type V = SessionView;

    open spec fn view(&self) -> SessionView {
        match self {
            Session::CheckingTarget { name } => SessionView::CheckingTarget { name: name@ },
            Session::AskingDatabase { name } => SessionView::AskingDatabase { name: name@ },
            Session::AskingCors { name, db_choice } => SessionView::AskingCors {
                name: name@,
                db_choice: db_choice@,
            },
            Session::AskingProjectType {
                name,
                db_choice,
                cors_choice,
            } => SessionView::AskingProjectType {
                name: name@,
                db_choice: db_choice@,
                cors_choice: cors_choice@,
            },
            Session::Materializing { name, current, later } => SessionView::Materializing {
                name: name@,
                current: current@,
                later: steps_view(later@),
            },
            Session::Installing { name } => SessionView::Installing { name: name@ },
            Session::AskingOperations { name } => SessionView::AskingOperations { name: name@ },
            Session::WritingController { name, path, content } => SessionView::WritingController {
                name: name@,
                path: path@,
                content: content@,
            },
            Session::Finished { outcome } => SessionView::Finished { outcome: outcome@ },
        }
    }
}

/// What the driver is to do next.
#[derive(Clone, Debug, PartialEq, Eq)]
pub enum Action {
    /// Find out whether anything exists at `path`.
    CheckTarget { path: String },
    /// Put the question and bring back the label that was picked.
    Ask { question: Question },
    /// Let the operations of the handler file be selected.
    AskOperations,
    /// Carry out the step. Its path is relative to the working directory.
    Perform { step: Step },
    /// Run `program` with the one argument `argument` in `directory` and
    /// wait for it to end.
    RunInstaller { program: String, argument: String, directory: String },
    /// Report the outcome and exit.
    Finish { outcome: Outcome },
}

/// An action as plain text.
pub enum ActionView {
    CheckTarget { path: Seq<char> },
    Ask { question: Question },
    AskOperations,
    Perform { step: StepView },
    RunInstaller { program: Seq<char>, argument: Seq<char>, directory: Seq<char> },
    Finish { outcome: OutcomeView },
}

impl View for Action {
    type V = ActionView;

    open spec fn view(&self) -> ActionView {
        match self {
            Action::CheckTarget { path } => ActionView::CheckTarget { path: path@ },
            Action::Ask { question } => ActionView::Ask { question: *question },
            Action::AskOperations => ActionView::AskOperations,
            Action::Perform { step } => ActionView::Perform { step: step@ },
            Action::RunInstaller { program, argument, directory } => ActionView::RunInstaller {
                program: program@,
                argument: argument@,
                directory: directory@,
            },
            Action::Finish { outcome } => ActionView::Finish { outcome: outcome@ },
        }
    }
}

/// What came of an action.
#[derive(Clone, Debug, PartialEq, Eq)]
pub enum Event {
    /// Whether the target exists.
    TargetChecked { exists: bool },
    /// The label that was picked, or none if no answer could be had.
    Answered { answer: Option<String> },
    /// The operations that were selected, or none if no answer could be had.
    OperationsSelected { selection: Option<Vec<Operation>> },
    /// The step was carried out, or it failed for the cause given.
    StepCompleted { failure: Option<String> },
    /// The installer ran to its end.
    InstallerExited { succeeded: bool, stderr_text: String },
    /// The installer could not be launched.
    InstallerNotLaunched { cause: String },
}

/// An event as plain text.
pub enum EventView {
    TargetChecked { exists: bool },
    Answered { answer: Option<Seq<char>> },
    OperationsSelected { selection: Option<Seq<Operation>> },
    StepCompleted { failure: Option<Seq<char>> },
    InstallerExited { succeeded: bool, stderr_text: Seq<char> },
    InstallerNotLaunched { cause: Seq<char> },
}

impl View for Event {
    type V = EventView;

    open spec fn view(&self) -> EventView {
        match self {
            Event::TargetChecked { exists } => EventView::TargetChecked { exists: *exists },
            Event::Answered { answer } => EventView::Answered {
                answer: match answer {
                    Some(label) => Some(label@),
                    None => None,
                },
            },
            Event::OperationsSelected { selection } => EventView::OperationsSelected {
                selection: match selection {
                    Some(operations) => Some(operations@),
                    None => None,
                },
            },
            Event::StepCompleted { failure } => EventView::StepCompleted {
                failure: match failure {
                    Some(cause) => Some(cause@),
                    None => None,
                },
            },
            Event::InstallerExited { succeeded, stderr_text } => EventView::InstallerExited {
                succeeded: *succeeded,
                stderr_text: stderr_text@,
            },
            Event::InstallerNotLaunched { cause } => EventView::InstallerNotLaunched {
                cause: cause@,
            },
        }
    }
}

/// The session in which a command starts.
pub open spec fn starting(creates_project: bool, subject: Seq<char>) -> SessionView {
    if creates_project {
        SessionView::CheckingTarget { name: subject }
    } else {
        SessionView::AskingOperations { name: subject }
    }
}

/// The session that carries out `steps` for the project `name` and has
/// `done` of them behind it.
pub open spec fn materializing(name: Seq<char>, steps: Seq<StepView>, done: int) -> SessionView
    recommends
        0 <= done < steps.len(),
{
    SessionView::Materializing { name, current: steps[done], later: steps.skip(done + 1) }
}

/// The failure that a step ends in when it fails for `cause`.
pub open spec fn failure_of(step: StepView, cause: Seq<char>) -> OutcomeView {
    match step {
        StepView::CreateDirectory { path } => OutcomeView::DirectoryCreationFailed { path, cause },
        StepView::WriteFile { path, .. } => OutcomeView::FileWriteFailed { path, cause },
    }
}

/// The action that is due in a session. It depends on the session alone.
pub open spec fn pending(session: SessionView) -> ActionView {
    match session {
        SessionView::CheckingTarget { name } => ActionView::CheckTarget { path: name },
        SessionView::AskingDatabase { .. } => ActionView::Ask { question: Question::Database },
        SessionView::AskingCors { .. } => ActionView::Ask { question: Question::Cors },
        SessionView::AskingProjectType { .. } => ActionView::Ask {
            question: Question::ProjectType,
        },
        SessionView::Materializing { name, current, .. } => ActionView::Perform {
            step: current.under(name),
        },
        SessionView::Installing { name } => ActionView::RunInstaller {
            program: INSTALLER_PROGRAM@,
            argument: INSTALLER_ARGUMENT@,
            directory: name,
        },
        SessionView::AskingOperations { .. } => ActionView::AskOperations,
        SessionView::WritingController { path, content, .. } => ActionView::Perform {
            step: StepView::WriteFile { path, content },
        },
        SessionView::Finished { outcome } => ActionView::Finish { outcome },
    }
}

/// The session that follows when `event` comes in.
///
/// A new project: an existing target ends the run before anything is asked
/// or touched. A question without an answer ends it before anything is
/// touched. With the third answer the project is laid out, and its steps are
/// carried out in order; the first that fails ends the run, and what was
/// created stays. After the last step the installer runs; however it ends,
/// the run ends with it.
///
/// A handler file: the selection is asked for, the file is composed and
/// written over whatever is there.
///
/// An event that does not answer the action that is due changes nothing.
pub open spec fn transition(session: SessionView, event: EventView) -> SessionView {
    match (session, event) {
        (SessionView::CheckingTarget { name }, EventView::TargetChecked { exists }) => if exists {
            SessionView::Finished { outcome: OutcomeView::TargetAlreadyExists { path: name } }
        } else {
            SessionView::AskingDatabase { name }
        },
        (SessionView::AskingDatabase { name }, EventView::Answered { answer: Some(label) }) => {
            SessionView::AskingCors { name, db_choice: label }
        },
        (
            SessionView::AskingCors { name, db_choice },
            EventView::Answered { answer: Some(label) },
        ) => SessionView::AskingProjectType { name, db_choice, cors_choice: label },
        (
            SessionView::AskingProjectType { name, db_choice, cors_choice },
            EventView::Answered { answer: Some(label) },
        ) => materializing(
            name,
            project_steps(name, configuration_of(db_choice, cors_choice, label)),
            0,
        ),
        (SessionView::AskingDatabase { .. }, EventView::Answered { answer: None })
        | (SessionView::AskingCors { .. }, EventView::Answered { answer: None })
        | (SessionView::AskingProjectType { .. }, EventView::Answered { answer: None })
        | (
            SessionView::AskingOperations { .. },
            EventView::OperationsSelected { selection: None },
        ) => SessionView::Finished { outcome: OutcomeView::ChoiceAborted },
        (
            SessionView::Materializing { name, current, later },
            EventView::StepCompleted { failure: None },
        ) => if later.len() == 0 {
            SessionView::Installing { name }
        } else {
            materializing(name, later, 0)
        },
        (
            SessionView::Materializing { name, current, .. },
            EventView::StepCompleted { failure: Some(cause) },
        ) => SessionView::Finished { outcome: failure_of(current.under(name), cause) },
        (
            SessionView::Installing { name },
            EventView::InstallerExited { succeeded, stderr_text },
        ) => if succeeded {
            SessionView::Finished { outcome: OutcomeView::ProjectGenerated { name } }
        } else {
            SessionView::Finished { outcome: OutcomeView::InstallerFailed { stderr_text } }
        },
        (SessionView::Installing { .. }, EventView::InstallerNotLaunched { cause }) => {
            SessionView::Finished { outcome: OutcomeView::InstallerUnavailable { cause } }
        },
        (
            SessionView::AskingOperations { name },
            EventView::OperationsSelected { selection: Some(operations) },
        ) => SessionView::WritingController {
            name,
            path: controller_path_text(lowercase_of(name)),
            content: controller_text(lowercase_of(name), operations),
        },
        (
            SessionView::WritingController { name, path, .. },
            EventView::StepCompleted { failure: None },
        ) => SessionView::Finished { outcome: OutcomeView::ControllerGenerated { name, path } },
        (
            SessionView::WritingController { path, .. },
            EventView::StepCompleted { failure: Some(cause) },
        ) => SessionView::Finished { outcome: OutcomeView::FileWriteFailed { path, cause } },
        _ => session,
    }
}

/// The session after a run of events.
pub open spec fn after(session: SessionView, events: Seq<EventView>) -> SessionView
    decreases events.len(),
{
    if events.len() == 0 {
        session
    } else {
        transition(after(session, events.drop_last()), events.last())
    }
}

/// `count` steps that were carried out without failure.
pub open spec fn successes(count: nat) -> Seq<EventView> {
    Seq::new(count, |i: int| EventView::StepCompleted { failure: None })
}

/// A new project whose target exists ends at once: the first action only
/// looks, the answer ends the run with the failure that names the path,
/// the exit status is not zero, and no step is ever due.
pub proof fn lemma_existing_target_ends_run(name: Seq<char>)
    ensures
        pending(starting(true, name)) == (ActionView::CheckTarget { path: name }),
        transition(starting(true, name), EventView::TargetChecked { exists: true }) == (
        SessionView::Finished { outcome: OutcomeView::TargetAlreadyExists { path: name } }),
        (OutcomeView::TargetAlreadyExists { path: name }).exit_status() != 0,
        (OutcomeView::TargetAlreadyExists { path: name }).is_fatal(),
{
}

/// Once a run is over, no event changes it.
pub proof fn lemma_finished_is_final(outcome: OutcomeView, events: Seq<EventView>)
    ensures
        after(SessionView::Finished { outcome }, events) == (SessionView::Finished { outcome }),
    decreases events.len(),
{
    if events.len() > 0 {
        lemma_finished_is_final(outcome, events.drop_last());
    }
}

/// A question that finds no answer ends the run, whichever question it is,
/// and ends it fatally.
pub proof fn lemma_no_answer_ends_run(session: SessionView)
    requires
        session is AskingDatabase || session is AskingCors || session is AskingProjectType
            || session is AskingOperations,
    ensures
        transition(
            session,
            if session is AskingOperations {
                EventView::OperationsSelected { selection: None }
            } else {
                EventView::Answered { answer: None }
            },
        ) == (SessionView::Finished { outcome: OutcomeView::ChoiceAborted }),
        OutcomeView::ChoiceAborted.is_fatal(),
{
}

/// A step is due only while a project is materialized or a handler file is
/// written, and a project is materialized only from the third answer on:
/// before the answers are in, nothing on disk is touched.
pub proof fn lemma_steps_wait_for_answers(session: SessionView, event: EventView)
    ensures
        pending(session) is Perform ==> session is Materializing || session is WritingController,
        transition(session, event) is Materializing ==> session is Materializing || (session
            is AskingProjectType && event matches EventView::Answered { answer: Some(_) }),
        transition(session, event) is WritingController ==> session is WritingController || (
        session is AskingOperations && event matches EventView::OperationsSelected {
            selection: Some(_),
        }),
{
}

/// From an absent target the three answers lead to the first step of the
/// project that they describe.
pub proof fn lemma_answers_lead_to_plan(
    name: Seq<char>,
    db_choice: Seq<char>,
    cors_choice: Seq<char>,
    project_type: Seq<char>,
)
    ensures
        after(
            starting(true, name),
            seq![
                EventView::TargetChecked { exists: false },
                EventView::Answered { answer: Some(db_choice) },
                EventView::Answered { answer: Some(cors_choice) },
                EventView::Answered { answer: Some(project_type) },
            ],
        ) == materializing(
            name,
            project_steps(name, configuration_of(db_choice, cors_choice, project_type)),
            0,
        ),
{
    let events = seq![
        EventView::TargetChecked { exists: false },
        EventView::Answered { answer: Some(db_choice) },
        EventView::Answered { answer: Some(cors_choice) },
        EventView::Answered { answer: Some(project_type) },
    ];
    let start = starting(true, name);
    assert(after(start, events.take(0)) == start);
    assert(events.take(1).drop_last() =~= events.take(0));
    assert(after(start, events.take(1)) == (SessionView::AskingDatabase { name }));
    assert(events.take(2).drop_last() =~= events.take(1));
    assert(after(start, events.take(2)) == (SessionView::AskingCors { name, db_choice }));
    assert(events.take(3).drop_last() =~= events.take(2));
    assert(after(start, events.take(3)) == (SessionView::AskingProjectType {
        name,
        db_choice,
        cors_choice,
    }));
}

/// The steps of a project are carried out in the order of the plan, each
/// once: after `done` of them went well the next one is due, placed under
/// the project's root, and after the last the installer runs.
pub proof fn lemma_steps_run_in_order(name: Seq<char>, steps: Seq<StepView>, done: nat)
    requires
        0 < steps.len(),
        done <= steps.len(),
    ensures
        after(materializing(name, steps, 0), successes(done)) == if done < steps.len() {
            materializing(name, steps, done as int)
        } else {
            SessionView::Installing { name }
        },
        done < steps.len() ==> pending(materializing(name, steps, done as int)) == (
        ActionView::Perform { step: steps[done as int].under(name) }),
    decreases done,
{
    if done > 0 {
        let before = (done - 1) as nat;
        lemma_steps_run_in_order(name, steps, before);
        assert(successes(done).drop_last() =~= successes(before));
        if done < steps.len() {
            assert(steps.skip(done as int).skip(1) =~= steps.skip(done as int + 1));
        }
    }
}

/// The first step that fails ends the run with the failure of its kind,
/// which names the path under the root and the cause. No step follows it,
/// whatever comes in afterwards, and nothing that was created is undone.
pub proof fn lemma_first_failure_ends_run(
    name: Seq<char>,
    steps: Seq<StepView>,
    done: int,
    cause: Seq<char>,
    events: Seq<EventView>,
)
    requires
        0 <= done < steps.len(),
    ensures
        after(
            transition(
                materializing(name, steps, done),
                EventView::StepCompleted { failure: Some(cause) },
            ),
            events,
        ) == (SessionView::Finished { outcome: failure_of(steps[done].under(name), cause) }),
        failure_of(steps[done].under(name), cause).is_fatal(),
{
    lemma_finished_is_final(failure_of(steps[done].under(name), cause), events);
}

/// However the installer ends, the run ends with it, and never fatally: the
/// project is complete by then.
pub proof fn lemma_installer_ends_run(name: Seq<char>, event: EventView)
    requires
        event is InstallerExited || event is InstallerNotLaunched,
    ensures
        transition(SessionView::Installing { name }, event) matches SessionView::Finished {
            outcome,
        } && !outcome.is_fatal() && (outcome.is_success() <==> event matches EventView::InstallerExited {
            succeeded: true,
            ..
        }),
{
}

/// Takes the first of `steps` out, so that it can be carried out.
fn take_first(steps: &mut Vec<Step>) -> (first: Step)
    requires
        old(steps)@.len() > 0,
    ensures
        first@ == steps_view(old(steps)@)[0],
        steps_view(final(steps)@) == steps_view(old(steps)@).skip(1),
{
    steps.remove(0)
}

impl Session {
    /// Opens the session of a command.
    pub fn start(cli: Cli) -> (session: Session)
        ensures
            session@ == starting(cli.creates_project(), cli.subject()),
    {
        match cli.command {
            Commands::New { name } => Session::CheckingTarget { name },
            Commands::Generate { command } => match command {
                GenerateCommands::Controller { name } => Session::AskingOperations { name },
            },
        }
    }

    /// The action that is due.
    pub fn action(&self) -> (action: Action)
        ensures
            action@ == pending(self@),
    {
        match self {
            Session::CheckingTarget { name } => Action::CheckTarget { path: name.clone() },
            Session::AskingDatabase { .. } => Action::Ask { question: Question::Database },
            Session::AskingCors { .. } => Action::Ask { question: Question::Cors },
            Session::AskingProjectType { .. } => Action::Ask { question: Question::ProjectType },
            Session::Materializing { name, current, .. } => Action::Perform {
                step: current.placed_under(name.as_str()),
            },
            Session::Installing { name } => Action::RunInstaller {
                program: String::from_str(INSTALLER_PROGRAM),
                argument: String::from_str(INSTALLER_ARGUMENT),
                directory: name.clone(),
            },
            Session::AskingOperations { .. } => Action::AskOperations,
            Session::WritingController { path, content, .. } => Action::Perform {
                step: Step::WriteFile { path: path.clone(), content: content.clone() },
            },
            Session::Finished { outcome } => Action::Finish { outcome: outcome.duplicate() },
        }
    }

    /// Whether the run is over.
    pub fn is_finished(&self) -> (finished: bool)
        ensures
            finished == (self@ is Finished),
    {
        match self {
            Session::Finished { .. } => true,
            _ => false,
        }
    }

    /// Takes in what came of the action that was due.
    pub fn advance(self, event: Event) -> (next: Session)
        ensures
            next@ == transition(self@, event@),
    {
        match self {
            Session::CheckingTarget { name } => match event {
                Event::TargetChecked { exists } => {
                    if exists {
                        Session::Finished { outcome: Outcome::TargetAlreadyExists { path: name } }
                    } else {
                        Session::AskingDatabase { name }
                    }
                },
                _ => Session::CheckingTarget { name },
            },
            Session::AskingDatabase { name } => match event {
                Event::Answered { answer } => match answer {
                    Some(label) => Session::AskingCors { name, db_choice: label },
                    None => Session::Finished { outcome: Outcome::ChoiceAborted },
                },
                _ => Session::AskingDatabase { name },
            },
            Session::AskingCors { name, db_choice } => match event {
                Event::Answered { answer } => match answer {
                    Some(label) => Session::AskingProjectType {
                        name,
                        db_choice,
                        cors_choice: label,
                    },
                    None => Session::Finished { outcome: Outcome::ChoiceAborted },
                },
                _ => Session::AskingCors { name, db_choice },
            },
            Session::AskingProjectType { name, db_choice, cors_choice } => match event {
                Event::Answered { answer } => match answer {
                    Some(label) => {
                        let choices = ProjectChoices {
                            db_choice,
                            cors_choice,
                            project_type: label,
                        };
                        let mut later = generate_new_project(name.as_str(), &choices);
                        let current = take_first(&mut later);
                        Session::Materializing { name, current, later }
                    },
                    None => Session::Finished { outcome: Outcome::ChoiceAborted },
                },
                _ => Session::AskingProjectType { name, db_choice, cors_choice },
            },
            Session::Materializing { name, current, later } => match event {
                Event::StepCompleted { failure } => match failure {
                    None => {
                        let mut later = later;
                        if later.len() == 0 {
                            Session::Installing { name }
                        } else {
                            let current = take_first(&mut later);
                            Session::Materializing { name, current, later }
                        }
                    },
                    Some(cause) => {
                        let outcome = match current.placed_under(name.as_str()) {
                            Step::CreateDirectory { path } => Outcome::DirectoryCreationFailed {
                                path,
                                cause,
                            },
                            Step::WriteFile { path, .. } => Outcome::FileWriteFailed { path, cause },
                        };
                        Session::Finished { outcome }
                    },
                },
                _ => Session::Materializing { name, current, later },
            },
            Session::Installing { name } => match event {
                Event::InstallerExited { succeeded, stderr_text } => {
                    if succeeded {
                        Session::Finished { outcome: Outcome::ProjectGenerated { name } }
                    } else {
                        Session::Finished { outcome: Outcome::InstallerFailed { stderr_text } }
                    }
                },
                Event::InstallerNotLaunched { cause } => Session::Finished {
                    outcome: Outcome::InstallerUnavailable { cause },
                },
                _ => Session::Installing { name },
            },
            Session::AskingOperations { name } => match event {
                Event::OperationsSelected { selection } => match selection {
                    Some(operations) => {
                        let file = generate_controller(name.as_str(), &operations);
                        Session::WritingController { name, path: file.path, content: file.content }
                    },
                    None => Session::Finished { outcome: Outcome::ChoiceAborted },
                },
                _ => Session::AskingOperations { name },
            },
            Session::WritingController { name, path, content } => match event {
                Event::StepCompleted { failure } => match failure {
                    None => Session::Finished {
                        outcome: Outcome::ControllerGenerated { name, path },
                    },
                    Some(cause) => Session::Finished {
                        outcome: Outcome::FileWriteFailed { path, cause },
                    },
                },
                _ => Session::WritingController { name, path, content },
            },
            Session::Finished { outcome } => Session::Finished { outcome },
        }
    }
}

} // verus!
