//! How a run ends, what is said about it, and with which status the tool
//! exits.

use vstd::prelude::*;
use vstd::string::*;

verus! {

/// The end of a run: one of the two successes, or the one failure that
/// stopped it or befell the installer.
#[derive(Clone, Debug, PartialEq, Eq)]
pub enum Outcome {
    /// The project was written and its dependencies were installed.
    ProjectGenerated { name: String },
    /// The handler file of the entity was written.
    ControllerGenerated { name: String, path: String },
    /// The target of a new project was already there; nothing was touched.
    TargetAlreadyExists { path: String },
    /// A question found no answer; nothing was touched.
    ChoiceAborted,
    /// A directory could not be created. What was created before it stays.
    DirectoryCreationFailed { path: String, cause: String },
    /// A file could not be written. What was created before it stays.
    FileWriteFailed { path: String, cause: String },
    /// The installer could not be launched. The project itself is complete.
    InstallerUnavailable { cause: String },
    /// The installer ran and reported failure. The project itself is
    /// complete.
    InstallerFailed { stderr_text: String },
}

/// An outcome as plain text.
pub enum OutcomeView {
    ProjectGenerated { name: Seq<char> },
    ControllerGenerated { name: Seq<char>, path: Seq<char> },
    TargetAlreadyExists { path: Seq<char> },
    ChoiceAborted,
    DirectoryCreationFailed { path: Seq<char>, cause: Seq<char> },
    FileWriteFailed { path: Seq<char>, cause: Seq<char> },
    InstallerUnavailable { cause: Seq<char> },
    InstallerFailed { stderr_text: Seq<char> },
}

impl View for Outcome {
    type V = OutcomeView;

    open spec fn view(&self) -> OutcomeView {
        match self {
            Outcome::ProjectGenerated { name } => OutcomeView::ProjectGenerated { name: name@ },
            Outcome::ControllerGenerated { name, path } => OutcomeView::ControllerGenerated {
                name: name@,
                path: path@,
            },
            Outcome::TargetAlreadyExists { path } => OutcomeView::TargetAlreadyExists {
                path: path@,
            },
            Outcome::ChoiceAborted => OutcomeView::ChoiceAborted,
            Outcome::DirectoryCreationFailed { path, cause } => OutcomeView::DirectoryCreationFailed {
                path: path@,
                cause: cause@,
            },
            Outcome::FileWriteFailed { path, cause } => OutcomeView::FileWriteFailed {
                path: path@,
                cause: cause@,
            },
            Outcome::InstallerUnavailable { cause } => OutcomeView::InstallerUnavailable {
                cause: cause@,
            },
            Outcome::InstallerFailed { stderr_text } => OutcomeView::InstallerFailed {
                stderr_text: stderr_text@,
            },
        }
    }
}

pub const PROJECT_GENERATED_OPEN: &'static str = "\nProjet '";

pub const PROJECT_GENERATED_MIDDLE: &'static str =
    "' généré avec succès ! 🎉\nPour démarrer le projet :\n  cd ";

pub const PROJECT_GENERATED_CLOSE: &'static str =
    "\n  npm start\nOu en mode développement (rechargement automatique) :\n  npm run dev";

pub const CONTROLLER_GENERATED_OPEN: &'static str = "Contrôleur '";

pub const CONTROLLER_GENERATED_MIDDLE: &'static str = "' généré avec succès dans ";

pub const CONTROLLER_GENERATED_CLOSE: &'static str = " ✅";

pub const TARGET_EXISTS_OPEN: &'static str = "Erreur: Le dossier '";

pub const TARGET_EXISTS_CLOSE: &'static str = "' existe déjà.";

pub const CHOICE_ABORTED_MESSAGE: &'static str = "Erreur: la sélection a été interrompue.";

pub const DIRECTORY_FAILED_OPEN: &'static str = "Erreur lors de la création du dossier '";

pub const DIRECTORY_FAILED_MIDDLE: &'static str = "': ";

pub const FILE_FAILED_OPEN: &'static str = "Échec de l'écriture de ";

pub const FILE_FAILED_MIDDLE: &'static str = ": ";

pub const INSTALLER_UNAVAILABLE_OPEN: &'static str = "\nErreur lors de l'exécution de npm: ";

pub const INSTALLER_FAILED_OPEN: &'static str =
    "\nErreur lors de l'installation des dépendances.\nSortie d'erreur de npm:\n";

impl OutcomeView {
    /// Whether the run did all it was asked to do.
    pub open spec fn is_success(self) -> bool {
        self is ProjectGenerated || self is ControllerGenerated
    }

    /// Whether the failure stopped the run before its files were complete.
    /// A failure of the installer is none of these: the files are there and
    /// valid, only the convenience of installing is lost.
    pub open spec fn is_fatal(self) -> bool {
        self is TargetAlreadyExists || self is ChoiceAborted || self is DirectoryCreationFailed
            || self is FileWriteFailed
    }

    /// The status with which the tool exits: zero unless the outcome is
    /// fatal, and a number of its own for each fatal kind.
    pub open spec fn exit_status(self) -> int {
        match self {
            OutcomeView::TargetAlreadyExists { .. } => 1,
            OutcomeView::ChoiceAborted => 2,
            OutcomeView::DirectoryCreationFailed { .. } => 3,
            OutcomeView::FileWriteFailed { .. } => 4,
            _ => 0,
        }
    }

    /// What the user is told: for a success the summary with the next
    /// steps, for a failure the diagnostic with the path and the cause as
    /// far as there are any.
    pub open spec fn message_text(self) -> Seq<char> {
        match self {
            OutcomeView::ProjectGenerated { name } => PROJECT_GENERATED_OPEN@ + name
                + PROJECT_GENERATED_MIDDLE@ + name + PROJECT_GENERATED_CLOSE@,
            OutcomeView::ControllerGenerated { name, path } => CONTROLLER_GENERATED_OPEN@ + name
                + CONTROLLER_GENERATED_MIDDLE@ + path + CONTROLLER_GENERATED_CLOSE@,
            OutcomeView::TargetAlreadyExists { path } => TARGET_EXISTS_OPEN@ + path
                + TARGET_EXISTS_CLOSE@,
            OutcomeView::ChoiceAborted => CHOICE_ABORTED_MESSAGE@,
            OutcomeView::DirectoryCreationFailed { path, cause } => DIRECTORY_FAILED_OPEN@ + path
                + DIRECTORY_FAILED_MIDDLE@ + cause,
            OutcomeView::FileWriteFailed { path, cause } => FILE_FAILED_OPEN@ + path
                + FILE_FAILED_MIDDLE@ + cause,
            OutcomeView::InstallerUnavailable { cause } => INSTALLER_UNAVAILABLE_OPEN@ + cause,
            OutcomeView::InstallerFailed { stderr_text } => INSTALLER_FAILED_OPEN@ + stderr_text,
        }
    }
}

impl Outcome {
    /// A copy of the outcome.
    pub fn duplicate(&self) -> (copy: Outcome)
        ensures
            copy@ == self@,
    {
        match self {
            Outcome::ProjectGenerated { name } => Outcome::ProjectGenerated { name: name.clone() },
            Outcome::ControllerGenerated { name, path } => Outcome::ControllerGenerated {
                name: name.clone(),
                path: path.clone(),
            },
            Outcome::TargetAlreadyExists { path } => Outcome::TargetAlreadyExists {
                path: path.clone(),
            },
            Outcome::ChoiceAborted => Outcome::ChoiceAborted,
            Outcome::DirectoryCreationFailed { path, cause } => Outcome::DirectoryCreationFailed {
                path: path.clone(),
                cause: cause.clone(),
            },
            Outcome::FileWriteFailed { path, cause } => Outcome::FileWriteFailed {
                path: path.clone(),
                cause: cause.clone(),
            },
            Outcome::InstallerUnavailable { cause } => Outcome::InstallerUnavailable {
                cause: cause.clone(),
            },
            Outcome::InstallerFailed { stderr_text } => Outcome::InstallerFailed {
                stderr_text: stderr_text.clone(),
            },
        }
    }

    /// Whether the message belongs on the output stream rather than on the
    /// error stream.
    pub fn is_success(&self) -> (success: bool)
        ensures
            success == self@.is_success(),
    {
        match self {
            Outcome::ProjectGenerated { .. } | Outcome::ControllerGenerated { .. } => true,
            _ => false,
        }
    }

    /// The status with which the tool exits.
    pub fn exit_code(&self) -> (code: i32)
        ensures
            code == self@.exit_status(),
            code == 0 <==> !self@.is_fatal(),
    {
        match self {
            Outcome::TargetAlreadyExists { .. } => 1,
            Outcome::ChoiceAborted => 2,
            Outcome::DirectoryCreationFailed { .. } => 3,
            Outcome::FileWriteFailed { .. } => 4,
            _ => 0,
        }
    }

    /// What the user is told.
    pub fn message(&self) -> (text: String)
        ensures
            text@ == self@.message_text(),
    {
        match self {
            Outcome::ProjectGenerated { name } => {
                let mut text = String::from_str(PROJECT_GENERATED_OPEN);
                text.append(name.as_str());
                text.append(PROJECT_GENERATED_MIDDLE);
                text.append(name.as_str());
                text.append(PROJECT_GENERATED_CLOSE);
                text
            },
            Outcome::ControllerGenerated { name, path } => {
                let mut text = String::from_str(CONTROLLER_GENERATED_OPEN);
                text.append(name.as_str());
                text.append(CONTROLLER_GENERATED_MIDDLE);
                text.append(path.as_str());
                text.append(CONTROLLER_GENERATED_CLOSE);
                text
            },
            Outcome::TargetAlreadyExists { path } => {
                let mut text = String::from_str(TARGET_EXISTS_OPEN);
                text.append(path.as_str());
                text.append(TARGET_EXISTS_CLOSE);
                text
            },
            Outcome::ChoiceAborted => String::from_str(CHOICE_ABORTED_MESSAGE),
            Outcome::DirectoryCreationFailed { path, cause } => {
                let mut text = String::from_str(DIRECTORY_FAILED_OPEN);
                text.append(path.as_str());
                text.append(DIRECTORY_FAILED_MIDDLE);
                text.append(cause.as_str());
                text
            },
            Outcome::FileWriteFailed { path, cause } => {
                let mut text = String::from_str(FILE_FAILED_OPEN);
                text.append(path.as_str());
                text.append(FILE_FAILED_MIDDLE);
                text.append(cause.as_str());
                text
            },
            Outcome::InstallerUnavailable { cause } => {
                let mut text = String::from_str(INSTALLER_UNAVAILABLE_OPEN);
                text.append(cause.as_str());
                text
            },
            Outcome::InstallerFailed { stderr_text } => {
                let mut text = String::from_str(INSTALLER_FAILED_OPEN);
                text.append(stderr_text.as_str());
                text
            },
        }
    }
}

/// The exit status tells the fatal kinds apart: it is zero exactly when the
/// outcome is not fatal, and two fatal outcomes with the same status are of
/// the same kind.
pub proof fn lemma_exit_status_tells_kinds_apart(first: OutcomeView, second: OutcomeView)
    ensures
        first.exit_status() == 0 <==> !first.is_fatal(),
        first.is_success() ==> first.exit_status() == 0,
        first.is_fatal() && second.is_fatal() && first.exit_status() == second.exit_status() ==> {
            &&& first is TargetAlreadyExists <==> second is TargetAlreadyExists
            &&& first is ChoiceAborted <==> second is ChoiceAborted
            &&& first is DirectoryCreationFailed <==> second is DirectoryCreationFailed
            &&& first is FileWriteFailed <==> second is FileWriteFailed
        },
{
}

} // verus!
