//! The choices a user makes and the configuration they resolve to.

use vstd::prelude::*;
use vstd::string::*;

verus! {

/// Persistence engine of the generated project.
#[derive(Clone, Copy, Debug, PartialEq, Eq, Structural)]
pub enum Database {
    NoDatabase,
    PostgreSql,
    MongoDb,
}

/// Whether the cross-origin middleware is part of the generated project.
#[derive(Clone, Copy, Debug, PartialEq, Eq, Structural)]
pub enum Cors {
    Enabled,
    Disabled,
}

/// Shape of the generated project.
#[derive(Clone, Copy, Debug, PartialEq, Eq, Structural)]
pub enum ProjectVariant {
    ApiOnly,
    ApiWithTemplate,
}

/// The finalized choices. Every field always holds one of its enumerated
/// values, so nothing downstream ever sees an unset choice.
#[derive(Clone, Copy, Debug, PartialEq, Eq, Structural)]
pub struct Configuration {
    pub database: Database,
    pub cors: Cors,
    pub project_variant: ProjectVariant,
}

/// The three questions, in the order in which they are put.
#[derive(Clone, Copy, Debug, PartialEq, Eq, Structural)]
pub enum Question {
    Database,
    Cors,
    ProjectType,
}

pub const DATABASE_PROMPT: &'static str = "Quelle base de données voulez-vous utiliser ?";

pub const CORS_PROMPT: &'static str = "Voulez-vous installer CORS ?";

pub const PROJECT_TYPE_PROMPT: &'static str = "Quel type de projet voulez-vous créer ?";

pub const POSTGRESQL_LABEL: &'static str = "PostgreSQL";

pub const MONGODB_LABEL: &'static str = "MongoDB";

pub const NO_DATABASE_LABEL: &'static str = "Aucune";

pub const YES_LABEL: &'static str = "Oui";

pub const NO_LABEL: &'static str = "Non";

pub const API_ONLY_LABEL: &'static str = "API (sans template HTML)";

pub const API_WITH_TEMPLATE_LABEL: &'static str = "API avec template";

impl Question {
    /// The text shown with the question.
    pub open spec fn prompt_text(self) -> Seq<char> {
        match self {
            Question::Database => DATABASE_PROMPT@,
            Question::Cors => CORS_PROMPT@,
            Question::ProjectType => PROJECT_TYPE_PROMPT@,
        }
    }

    /// The labels offered, in the order in which they are listed.
    pub open spec fn option_texts(self) -> Seq<Seq<char>> {
        match self {
            Question::Database => seq![POSTGRESQL_LABEL@, MONGODB_LABEL@, NO_DATABASE_LABEL@],
            Question::Cors => seq![YES_LABEL@, NO_LABEL@],
            Question::ProjectType => seq![API_ONLY_LABEL@, API_WITH_TEMPLATE_LABEL@],
        }
    }

    pub fn prompt(self) -> (text: &'static str)
        ensures
            text@ == self.prompt_text(),
    {
        match self {
            Question::Database => DATABASE_PROMPT,
            Question::Cors => CORS_PROMPT,
            Question::ProjectType => PROJECT_TYPE_PROMPT,
        }
    }

    pub fn options(self) -> (labels: Vec<&'static str>)
        ensures
            labels@.len() == self.option_texts().len(),
            forall|i: int| 0 <= i < labels@.len() ==> labels@[i]@ == #[trigger] self.option_texts()[i],
    {
        let mut labels: Vec<&'static str> = Vec::new();
        match self {
            Question::Database => {
                labels.push(POSTGRESQL_LABEL);
                labels.push(MONGODB_LABEL);
                labels.push(NO_DATABASE_LABEL);
            },
            Question::Cors => {
                labels.push(YES_LABEL);
                labels.push(NO_LABEL);
            },
            Question::ProjectType => {
                labels.push(API_ONLY_LABEL);
                labels.push(API_WITH_TEMPLATE_LABEL);
            },
        }
        labels
    }
}

/// The engine that an answer to the database question selects. Only the two
/// engine labels select an engine; any other answer selects none.
pub open spec fn database_of(answer: Seq<char>) -> Database {
    if answer == POSTGRESQL_LABEL@ {
        Database::PostgreSql
    } else if answer == MONGODB_LABEL@ {
        Database::MongoDb
    } else {
        Database::NoDatabase
    }
}

/// The middleware choice that an answer selects: enabled on the affirmative
/// label alone.
pub open spec fn cors_of(answer: Seq<char>) -> Cors {
    if answer == YES_LABEL@ {
        Cors::Enabled
    } else {
        Cors::Disabled
    }
}

/// The project shape that an answer selects: templated on the templated
/// label alone.
pub open spec fn variant_of(answer: Seq<char>) -> ProjectVariant {
    if answer == API_WITH_TEMPLATE_LABEL@ {
        ProjectVariant::ApiWithTemplate
    } else {
        ProjectVariant::ApiOnly
    }
}

/// The configuration that three answers resolve to.
pub open spec fn configuration_of(
    db_choice: Seq<char>,
    cors_choice: Seq<char>,
    project_type: Seq<char>,
) -> Configuration {
    Configuration {
        database: database_of(db_choice),
        cors: cors_of(cors_choice),
        project_variant: variant_of(project_type),
    }
}

/// Whether `text` reads exactly as `label`.
pub fn reads_as(text: &String, label: &str) -> (same: bool)
    ensures
        same == (text@ == label@),
{
    let owned = String::from_str(label);
    *text == owned
}

/// One answer per question, as the labels that were picked.
#[derive(Clone, Debug, PartialEq, Eq)]
pub struct ProjectChoices {
    pub db_choice: String,
    pub cors_choice: String,
    pub project_type: String,
}

impl ProjectChoices {
    /// The configuration these answers stand for.
    pub open spec fn configuration(&self) -> Configuration {
        configuration_of(self.db_choice@, self.cors_choice@, self.project_type@)
    }

    /// Resolves the answers into a configuration.
    pub fn resolve(&self) -> (config: Configuration)
        ensures
            config == self.configuration(),
    {
        let database = if reads_as(&self.db_choice, POSTGRESQL_LABEL) {
            Database::PostgreSql
        } else if reads_as(&self.db_choice, MONGODB_LABEL) {
            Database::MongoDb
        } else {
            Database::NoDatabase
        };
        let cors = if reads_as(&self.cors_choice, YES_LABEL) {
            Cors::Enabled
        } else {
            Cors::Disabled
        };
        let project_variant = if reads_as(&self.project_type, API_WITH_TEMPLATE_LABEL) {
            ProjectVariant::ApiWithTemplate
        } else {
            ProjectVariant::ApiOnly
        };
        Configuration { database, cors, project_variant }
    }
}

/// Each question's answers reach every value of the field it decides, and the
/// negative labels decide for the plain value: no engine, no middleware, no
/// template.
pub proof fn lemma_labels_resolve()
    ensures
        database_of(POSTGRESQL_LABEL@) == Database::PostgreSql,
        database_of(MONGODB_LABEL@) == Database::MongoDb,
        database_of(NO_DATABASE_LABEL@) == Database::NoDatabase,
        cors_of(YES_LABEL@) == Cors::Enabled,
        cors_of(NO_LABEL@) == Cors::Disabled,
        variant_of(API_WITH_TEMPLATE_LABEL@) == ProjectVariant::ApiWithTemplate,
        variant_of(API_ONLY_LABEL@) == ProjectVariant::ApiOnly,
{
    reveal_strlit("PostgreSQL");
    reveal_strlit("MongoDB");
    reveal_strlit("Aucune");
    reveal_strlit("Oui");
    reveal_strlit("Non");
    reveal_strlit("API (sans template HTML)");
    reveal_strlit("API avec template");
    assert(MONGODB_LABEL@.len() == 7);
    assert(NO_DATABASE_LABEL@.len() == 6);
    assert(NO_LABEL@[0] == 'N');
    assert(API_WITH_TEMPLATE_LABEL@.len() == 17);
}

} // verus!
