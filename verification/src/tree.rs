//! The tree of a generated project, as the ordered steps that create it.

use vstd::prelude::*;
use vstd::string::*;
use crate::config::{Configuration, ProjectChoices, ProjectVariant};
use crate::entry::{compose_entry_point, entry_point_text};
use crate::manifest::{emit_manifest, manifest_text};
use crate::packages::{
    development_dependencies,
    development_plan,
    runtime_dependencies,
    runtime_plan,
};
use crate::template::{static_template, template_text, INDEX_HTML};

verus! {

/// One change to the filesystem. Paths are relative to the root under which
/// the step is carried out.
#[derive(Clone, Debug, PartialEq, Eq)]
pub enum Step {
    /// Create the directory, and the directories above it that are missing.
    CreateDirectory { path: String },
    /// Write the file, replacing what is there.
    WriteFile { path: String, content: String },
}

/// A step as plain text.
pub enum StepView {
    CreateDirectory { path: Seq<char> },
    WriteFile { path: Seq<char>, content: Seq<char> },
}

impl View for Step {
    type V = StepView;

    open spec fn view(&self) -> StepView {
        match self {
            Step::CreateDirectory { path } => StepView::CreateDirectory { path: path@ },
            Step::WriteFile { path, content } => StepView::WriteFile {
                path: path@,
                content: content@,
            },
        }
    }
}

pub const PATH_SEPARATOR: &'static str = "/";

/// The path `path` seen from outside `root`: the root, a separator and the
/// path. Under the empty root the path stays as it is.
pub open spec fn located(root: Seq<char>, path: Seq<char>) -> Seq<char> {
    if root.len() == 0 {
        path
    } else {
        root + PATH_SEPARATOR@ + path
    }
}

impl StepView {
    /// The path that the step creates or writes.
    pub open spec fn target(self) -> Seq<char> {
        match self {
            StepView::CreateDirectory { path } => path,
            StepView::WriteFile { path, .. } => path,
        }
    }

    /// The same step with its path seen from outside `root`.
    pub open spec fn under(self, root: Seq<char>) -> StepView {
        match self {
            StepView::CreateDirectory { path } => StepView::CreateDirectory {
                path: located(root, path),
            },
            StepView::WriteFile { path, content } => StepView::WriteFile {
                path: located(root, path),
                content,
            },
        }
    }
}

/// Places `path` under `root`.
pub fn locate(root: &str, path: &str) -> (full: String)
    ensures
        full@ == located(root@, path@),
{
    if root.unicode_len() == 0 {
        String::from_str(path)
    } else {
        let mut full = String::from_str(root);
        full.append(PATH_SEPARATOR);
        full.append(path);
        full
    }
}

impl Step {
    /// The same step with its path placed under `root`.
    pub fn placed_under(&self, root: &str) -> (placed: Step)
        ensures
            placed@ == self@.under(root@),
    {
        match self {
            Step::CreateDirectory { path } => Step::CreateDirectory {
                path: locate(root, path.as_str()),
            },
            Step::WriteFile { path, content } => Step::WriteFile {
                path: locate(root, path.as_str()),
                content: content.clone(),
            },
        }
    }

}

pub const ROUTES_DIRECTORY: &'static str = "src/routes";

pub const CONTROLLERS_DIRECTORY: &'static str = "src/controllers";

pub const MODELS_DIRECTORY: &'static str = "src/models";

pub const STATIC_DIRECTORY: &'static str = "public";

pub const MANIFEST_FILE: &'static str = "package.json";

pub const ENTRY_POINT_FILE: &'static str = "src/index.js";

pub const ENVIRONMENT_FILE: &'static str = ".env";

pub const ENVIRONMENT_TEXT: &'static str = "PORT=3000\n";

pub const TEMPLATE_FILE: &'static str = "public/index.html";

/// The steps as plain text, in the same order.
pub open spec fn steps_view(steps: Seq<Step>) -> Seq<StepView> {
    steps.map_values(|step: Step| step@)
}

/// The steps that create the project `name` under `config`: the three source
/// directories, the static-assets directory under the templated variant,
/// then the manifest, the entry point and the environment file, and under
/// the templated variant the static page.
pub open spec fn project_steps(name: Seq<char>, config: Configuration) -> Seq<StepView> {
    let directories = seq![
        StepView::CreateDirectory { path: ROUTES_DIRECTORY@ },
        StepView::CreateDirectory { path: CONTROLLERS_DIRECTORY@ },
        StepView::CreateDirectory { path: MODELS_DIRECTORY@ },
    ];
    let files = seq![
        StepView::WriteFile {
            path: MANIFEST_FILE@,
            content: manifest_text(name, runtime_plan(config), development_plan()),
        },
        StepView::WriteFile { path: ENTRY_POINT_FILE@, content: entry_point_text(config) },
        StepView::WriteFile { path: ENVIRONMENT_FILE@, content: ENVIRONMENT_TEXT@ },
    ];
    match template_text(config) {
        Some(page) => directories + seq![StepView::CreateDirectory { path: STATIC_DIRECTORY@ }]
            + files + seq![StepView::WriteFile { path: TEMPLATE_FILE@, content: page }],
        None => directories + files,
    }
}

fn directory_step(path: &str) -> (step: Step)
    ensures
        step@ == (StepView::CreateDirectory { path: path@ }),
{
    Step::CreateDirectory { path: String::from_str(path) }
}

fn file_step(path: &str, content: String) -> (step: Step)
    ensures
        step@ == (StepView::WriteFile { path: path@, content: content@ }),
{
    Step::WriteFile { path: String::from_str(path), content }
}

/// Lays out the project `name` under `config`.
pub fn plan_project(name: &str, config: &Configuration) -> (steps: Vec<Step>)
    ensures
        steps_view(steps@) == project_steps(name@, *config),
        steps_view(steps@).contains(StepView::CreateDirectory { path: STATIC_DIRECTORY@ })
            <==> config.project_variant == ProjectVariant::ApiWithTemplate,
        steps_view(steps@).contains(
            StepView::WriteFile { path: TEMPLATE_FILE@, content: INDEX_HTML@ },
        ) <==> config.project_variant == ProjectVariant::ApiWithTemplate,
{
    proof {
        lemma_static_assets_follow_variant(name@, *config);
    }
    let page = static_template(config);
    let runtime = runtime_dependencies(config);
    let development = development_dependencies();
    let mut steps: Vec<Step> = Vec::new();
    steps.push(directory_step(ROUTES_DIRECTORY));
    steps.push(directory_step(CONTROLLERS_DIRECTORY));
    steps.push(directory_step(MODELS_DIRECTORY));
    if page.is_some() {
        steps.push(directory_step(STATIC_DIRECTORY));
    }
    steps.push(file_step(MANIFEST_FILE, emit_manifest(name, &runtime, &development)));
    steps.push(file_step(ENTRY_POINT_FILE, compose_entry_point(config)));
    steps.push(file_step(ENVIRONMENT_FILE, String::from_str(ENVIRONMENT_TEXT)));
    match page {
        Some(text) => {
            steps.push(file_step(TEMPLATE_FILE, String::from_str(text)));
        },
        None => {},
    }
    assert(steps_view(steps@) =~= project_steps(name@, *config));
    steps
}

/// Generates the project `name` from the answers given: resolves them into a
/// configuration, plans the dependencies, emits the artifacts and lays them
/// out as steps. Nothing is written here; the steps are for the caller to
/// carry out, in order, under the project's root.
pub fn generate_new_project(name: &str, choices: &ProjectChoices) -> (steps: Vec<Step>)
    ensures
        steps_view(steps@) == project_steps(name@, choices.configuration()),
{
    let config = choices.resolve();
    plan_project(name, &config)
}

/// How far the tree depends on the variant: the static-assets directory is
/// created, and the static page written, under the templated variant and
/// under no other; the page then has the fixed content. The other seven
/// paths are always there.
pub proof fn lemma_static_assets_follow_variant(name: Seq<char>, config: Configuration)
    ensures
        project_steps(name, config).contains(
            StepView::CreateDirectory { path: STATIC_DIRECTORY@ },
        ) <==> config.project_variant == ProjectVariant::ApiWithTemplate,
        forall|content: Seq<char>|
            #[trigger] project_steps(name, config).contains(
                StepView::WriteFile { path: TEMPLATE_FILE@, content },
            ) <==> config.project_variant == ProjectVariant::ApiWithTemplate && content
                == INDEX_HTML@,
        forall|step: StepView|
            #[trigger] project_steps(name, config).contains(step) && (step.target()
                == STATIC_DIRECTORY@ || step.target() == TEMPLATE_FILE@) ==> config.project_variant
                == ProjectVariant::ApiWithTemplate,
        project_steps(name, config).len() == if config.project_variant
            == ProjectVariant::ApiWithTemplate {
            8nat
        } else {
            6nat
        },
{
    let steps = project_steps(name, config);
    lemma_paths_differ();
    if config.project_variant == ProjectVariant::ApiWithTemplate {
        assert(steps[3] == StepView::CreateDirectory { path: STATIC_DIRECTORY@ });
        assert(steps[7] == StepView::WriteFile { path: TEMPLATE_FILE@, content: INDEX_HTML@ });
    }
}

/// The eight paths of a project are eight different texts.
pub proof fn lemma_paths_differ()
    ensures
        seq![
            ROUTES_DIRECTORY@,
            CONTROLLERS_DIRECTORY@,
            MODELS_DIRECTORY@,
            STATIC_DIRECTORY@,
            MANIFEST_FILE@,
            ENTRY_POINT_FILE@,
            ENVIRONMENT_FILE@,
            TEMPLATE_FILE@,
        ].no_duplicates(),
{
    reveal_strlit("src/routes");
    reveal_strlit("src/controllers");
    reveal_strlit("src/models");
    reveal_strlit("public");
    reveal_strlit("package.json");
    reveal_strlit("src/index.js");
    reveal_strlit(".env");
    reveal_strlit("public/index.html");
    assert(CONTROLLERS_DIRECTORY@.len() == 15);
    assert(MODELS_DIRECTORY@.len() == 10 && MODELS_DIRECTORY@[4] == 'm');
    assert(STATIC_DIRECTORY@.len() == 6);
    assert(MANIFEST_FILE@.len() == 12 && MANIFEST_FILE@[0] == 'p');
    assert(ENTRY_POINT_FILE@.len() == 12 && ENTRY_POINT_FILE@[0] == 's');
    assert(ENVIRONMENT_FILE@.len() == 4);
    assert(TEMPLATE_FILE@.len() == 17);
}

/// No path is created or written twice, and every directory is created
/// before the first file is written.
pub proof fn lemma_each_path_once(name: Seq<char>, config: Configuration)
    ensures
        forall|i: int, j: int|
            0 <= i < j < project_steps(name, config).len() ==> (#[trigger] project_steps(
                name,
                config,
            )[i]).target() != (#[trigger] project_steps(name, config)[j]).target(),
        forall|i: int, j: int|
            0 <= i < j < project_steps(name, config).len() && (#[trigger] project_steps(
                name,
                config,
            )[j]) is CreateDirectory ==> (#[trigger] project_steps(name, config)[i])
                is CreateDirectory,
{
    lemma_paths_differ();
}

} // verus!
