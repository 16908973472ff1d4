//! The route-handler file of one entity.

use vstd::prelude::*;
use vstd::string::*;
use crate::config::reads_as;
use crate::sequences::{lemma_filter_keeps_ranking, lemma_ranked_is_distinct, strictly_ranked};

verus! {

/// What a handler does with the entity. The variants are listed in the order
/// in which their handlers appear in the file.
#[derive(Clone, Copy, Debug, PartialEq, Eq, Structural)]
pub enum Operation {
    Create,
    ReadAll,
    ReadOne,
    Update,
    Delete,
}

pub const OPERATIONS_PROMPT: &'static str = "Choisissez les méthodes à inclure :";

pub const CREATE_LABEL: &'static str = "create";

pub const READ_ALL_LABEL: &'static str = "read (all)";

pub const READ_ONE_LABEL: &'static str = "read (one)";

pub const UPDATE_LABEL: &'static str = "update";

pub const DELETE_LABEL: &'static str = "delete";

pub const POST_VERB: &'static str = "post";

pub const GET_VERB: &'static str = "get";

pub const PUT_VERB: &'static str = "put";

pub const DELETE_VERB: &'static str = "delete";

pub const COLLECTION_ROUTE: &'static str = "/";

pub const ITEM_ROUTE: &'static str = "/:id";

pub const CREATE_PURPOSE: &'static str = "créer un(e) ";

pub const READ_ALL_PURPOSE: &'static str = "récupérer tou(te)s les ";

pub const READ_ONE_PURPOSE: &'static str = "récupérer un(e) ";

pub const UPDATE_PURPOSE: &'static str = "mettre à jour un(e) ";

pub const DELETE_PURPOSE: &'static str = "supprimer un(e) ";

pub const CREATE_MESSAGE: &'static str = "Créer un(e) ";

pub const READ_ALL_MESSAGE: &'static str = "Récupérer tou(te)s les ";

pub const READ_ONE_MESSAGE: &'static str = "Récupérer le/la ";

pub const UPDATE_MESSAGE: &'static str = "Mettre à jour le/la ";

pub const DELETE_MESSAGE: &'static str = "Supprimer le/la ";

pub const PREAMBLE: &'static str =
    "const express = require('express');\nconst router = express.Router();\n\n";

pub const EXPORT_LINE: &'static str = "module.exports = router;";

pub const ROUTER_CALL: &'static str = "router.";

pub const ROUTE_OPEN: &'static str = "('";

pub const HANDLER_OPEN: &'static str = "', (req, res) => {\n";

pub const COMMENT_OPEN: &'static str = "  // Logique pour ";

pub const BY_IDENTIFIER: &'static str = " par son ID";

pub const LINE_BREAK: &'static str = "\n";

pub const IDENTIFIER_EXTRACTION: &'static str = "  const { id } = req.params;\n";

pub const RESPONSE_OPEN: &'static str = "  res.send('";

pub const RESPONSE_WITH_IDENTIFIER: &'static str = " avec l\\'ID ' + id";

pub const RESPONSE_PLAIN: &'static str = "'";

pub const RESPONSE_CLOSE: &'static str = ");\n";

pub const HANDLER_CLOSE: &'static str = "});\n\n";

pub const NOTHING: &'static str = "";

pub const CONTROLLER_DIRECTORY: &'static str = "src/controllers/";

pub const SOURCE_EXTENSION: &'static str = ".js";

/// The five operations in canonical order.
pub open spec fn canonical_operations() -> Seq<Operation> {
    seq![
        Operation::Create,
        Operation::ReadAll,
        Operation::ReadOne,
        Operation::Update,
        Operation::Delete,
    ]
}

impl Operation {
    /// The operation's place in the canonical order, counted from zero.
    pub open spec fn rank(self) -> int {
        match self {
            Operation::Create => 0,
            Operation::ReadAll => 1,
            Operation::ReadOne => 2,
            Operation::Update => 3,
            Operation::Delete => 4,
        }
    }

    /// The label under which the operation is offered for selection.
    pub open spec fn label_text(self) -> Seq<char> {
        match self {
            Operation::Create => CREATE_LABEL@,
            Operation::ReadAll => READ_ALL_LABEL@,
            Operation::ReadOne => READ_ONE_LABEL@,
            Operation::Update => UPDATE_LABEL@,
            Operation::Delete => DELETE_LABEL@,
        }
    }

    /// Whether the operation acts on a single resource, found by its
    /// identifier.
    pub open spec fn takes_identifier(self) -> bool {
        self == Operation::ReadOne || self == Operation::Update || self == Operation::Delete
    }

    /// The router method that registers the handler.
    pub open spec fn verb_text(self) -> Seq<char> {
        match self {
            Operation::Create => POST_VERB@,
            Operation::ReadAll | Operation::ReadOne => GET_VERB@,
            Operation::Update => PUT_VERB@,
            Operation::Delete => DELETE_VERB@,
        }
    }

    /// The route of the handler: the collection, or one resource in it.
    pub open spec fn route_text(self) -> Seq<char> {
        if self.takes_identifier() {
            ITEM_ROUTE@
        } else {
            COLLECTION_ROUTE@
        }
    }

    /// What the handler's comment says is done, up to the entity's name.
    pub open spec fn purpose_text(self) -> Seq<char> {
        match self {
            Operation::Create => CREATE_PURPOSE@,
            Operation::ReadAll => READ_ALL_PURPOSE@,
            Operation::ReadOne => READ_ONE_PURPOSE@,
            Operation::Update => UPDATE_PURPOSE@,
            Operation::Delete => DELETE_PURPOSE@,
        }
    }

    /// What the handler answers, up to the entity's name.
    pub open spec fn message_text(self) -> Seq<char> {
        match self {
            Operation::Create => CREATE_MESSAGE@,
            Operation::ReadAll => READ_ALL_MESSAGE@,
            Operation::ReadOne => READ_ONE_MESSAGE@,
            Operation::Update => UPDATE_MESSAGE@,
            Operation::Delete => DELETE_MESSAGE@,
        }
    }

    /// The handler block of the operation for `entity`: the registration
    /// line, a comment, for an operation on a single resource the line that
    /// takes the identifier from the path, the response, and the closing
    /// line followed by an empty line. Comment and response both carry the
    /// entity's name.
    pub open spec fn block_text(self, entity: Seq<char>) -> Seq<char> {
        let by_identifier = if self.takes_identifier() {
            BY_IDENTIFIER@
        } else {
            NOTHING@
        };
        let extraction = if self.takes_identifier() {
            IDENTIFIER_EXTRACTION@
        } else {
            NOTHING@
        };
        let response_end = if self.takes_identifier() {
            RESPONSE_WITH_IDENTIFIER@
        } else {
            RESPONSE_PLAIN@
        };
        ROUTER_CALL@ + self.verb_text() + ROUTE_OPEN@ + self.route_text() + HANDLER_OPEN@
            + COMMENT_OPEN@ + self.purpose_text() + entity + by_identifier + LINE_BREAK@
            + extraction + RESPONSE_OPEN@ + self.message_text() + entity + response_end
            + RESPONSE_CLOSE@ + HANDLER_CLOSE@
    }

    pub fn label(self) -> (text: &'static str)
        ensures
            text@ == self.label_text(),
    {
        match self {
            Operation::Create => CREATE_LABEL,
            Operation::ReadAll => READ_ALL_LABEL,
            Operation::ReadOne => READ_ONE_LABEL,
            Operation::Update => UPDATE_LABEL,
            Operation::Delete => DELETE_LABEL,
        }
    }

    /// Whether the handler reads an identifier from the path.
    pub fn needs_identifier(self) -> (needed: bool)
        ensures
            needed == self.takes_identifier(),
    {
        match self {
            Operation::Create | Operation::ReadAll => false,
            Operation::ReadOne | Operation::Update | Operation::Delete => true,
        }
    }

    fn verb(self) -> (text: &'static str)
        ensures
            text@ == self.verb_text(),
    {
        match self {
            Operation::Create => POST_VERB,
            Operation::ReadAll | Operation::ReadOne => GET_VERB,
            Operation::Update => PUT_VERB,
            Operation::Delete => DELETE_VERB,
        }
    }

    fn purpose(self) -> (text: &'static str)
        ensures
            text@ == self.purpose_text(),
    {
        match self {
            Operation::Create => CREATE_PURPOSE,
            Operation::ReadAll => READ_ALL_PURPOSE,
            Operation::ReadOne => READ_ONE_PURPOSE,
            Operation::Update => UPDATE_PURPOSE,
            Operation::Delete => DELETE_PURPOSE,
        }
    }

    fn message(self) -> (text: &'static str)
        ensures
            text@ == self.message_text(),
    {
        match self {
            Operation::Create => CREATE_MESSAGE,
            Operation::ReadAll => READ_ALL_MESSAGE,
            Operation::ReadOne => READ_ONE_MESSAGE,
            Operation::Update => UPDATE_MESSAGE,
            Operation::Delete => DELETE_MESSAGE,
        }
    }

    /// The operation offered under `label`, if there is one.
    pub fn from_label(label: &String) -> (operation: Option<Operation>)
        ensures
            operation == operation_of(label@),
    {
        if reads_as(label, CREATE_LABEL) {
            Some(Operation::Create)
        } else if reads_as(label, READ_ALL_LABEL) {
            Some(Operation::ReadAll)
        } else if reads_as(label, READ_ONE_LABEL) {
            Some(Operation::ReadOne)
        } else if reads_as(label, UPDATE_LABEL) {
            Some(Operation::Update)
        } else if reads_as(label, DELETE_LABEL) {
            Some(Operation::Delete)
        } else {
            None
        }
    }
}

/// The operation that a label stands for. A text that is no label stands for
/// none.
pub open spec fn operation_of(label: Seq<char>) -> Option<Operation> {
    if label == CREATE_LABEL@ {
        Some(Operation::Create)
    } else if label == READ_ALL_LABEL@ {
        Some(Operation::ReadAll)
    } else if label == READ_ONE_LABEL@ {
        Some(Operation::ReadOne)
    } else if label == UPDATE_LABEL@ {
        Some(Operation::Update)
    } else if label == DELETE_LABEL@ {
        Some(Operation::Delete)
    } else {
        None
    }
}

/// The operations that the picked labels stand for, in the order of the
/// labels. Texts that are no label are passed over.
pub open spec fn selection_of(labels: Seq<String>) -> Seq<Operation> {
    labels.filter_map(|label: String| operation_of(label@))
}

/// The selected operations in canonical order, each once: the canonical list
/// with the unselected operations struck out.
pub open spec fn ordered_selection(selection: Seq<Operation>) -> Seq<Operation> {
    canonical_operations().filter(|op: Operation| selection.contains(op))
}

/// The handler blocks of `operations` for `entity`, one after the other.
pub open spec fn blocks_text(operations: Seq<Operation>, entity: Seq<char>) -> Seq<char> {
    operations.map_values(|op: Operation| op.block_text(entity)).flatten()
}

/// The handler file for `entity`: the preamble that creates the router, one
/// block per selected operation in canonical order, and the export line,
/// which ends the file without a line break.
pub open spec fn controller_text(entity: Seq<char>, selection: Seq<Operation>) -> Seq<char> {
    PREAMBLE@ + blocks_text(ordered_selection(selection), entity) + EXPORT_LINE@
}

/// Where the handler file for `entity` goes, relative to the directory in
/// which the tool runs.
pub open spec fn controller_path_text(entity: Seq<char>) -> Seq<char> {
    CONTROLLER_DIRECTORY@ + entity + SOURCE_EXTENSION@
}

/// What `str::to_lowercase` makes of a text.
pub uninterp spec fn lowercase_of(text: Seq<char>) -> Seq<char>;

/// Calls `str::to_lowercase`, which maps every character to its lower-case
/// form as Unicode defines it, independent of any locale. The contract gives
/// the result a name and says nothing else of it.
#[verifier::external_body]
fn to_lowercase(text: &str) -> (lowered: String)
    ensures
        lowered@ == lowercase_of(text@),
{
    text.to_lowercase()
}

/// Reads the picked labels as operations.
pub fn parse_selection(labels: &Vec<String>) -> (selection: Vec<Operation>)
    ensures
        selection@ == selection_of(labels@),
{
    let ghost read = |label: String| operation_of(label@);
    let mut selection: Vec<Operation> = Vec::new();
    let mut i: usize = 0;
    proof {
        reveal(Seq::filter_map);
        assert(labels@.take(0).filter_map(read) =~= selection@);
    }
    while i < labels.len()
        invariant
            i <= labels.len(),
            read == (|label: String| operation_of(label@)),
            selection@ == labels@.take(i as int).filter_map(read),
        decreases labels.len() - i,
    {
        proof {
            labels@.lemma_filter_map_take_succ(read, i as int);
        }
        match Operation::from_label(&labels[i]) {
            Some(operation) => {
                selection.push(operation);
            },
            None => {},
        }
        i += 1;
    }
    assert(labels@.take(labels.len() as int) =~= labels@);
    selection
}

/// Whether `operation` is among `selection`.
pub fn is_selected(selection: &Vec<Operation>, operation: Operation) -> (found: bool)
    ensures
        found == selection@.contains(operation),
{
    let mut i: usize = 0;
    while i < selection.len()
        invariant
            i <= selection.len(),
            forall|k: int| 0 <= k < i ==> selection@[k] != operation,
        decreases selection.len() - i,
    {
        if selection[i] == operation {
            return true;
        }
        i += 1;
    }
    false
}

/// The canonical list as a value.
pub fn canonical_list() -> (list: Vec<Operation>)
    ensures
        list@ == canonical_operations(),
{
    let mut list: Vec<Operation> = Vec::new();
    list.push(Operation::Create);
    list.push(Operation::ReadAll);
    list.push(Operation::ReadOne);
    list.push(Operation::Update);
    list.push(Operation::Delete);
    assert(list@ =~= canonical_operations());
    list
}

/// Puts a selection into canonical order and drops repetitions.
pub fn order_selection(selection: &Vec<Operation>) -> (ordered: Vec<Operation>)
    ensures
        ordered@ == ordered_selection(selection@),
        strictly_ranked(ordered@, |op: Operation| op.rank()),
        forall|op: Operation| #[trigger] ordered@.contains(op) <==> selection@.contains(op),
{
    proof {
        lemma_blocks_follow_canonical_order(selection@);
    }
    let list = canonical_list();
    let ghost keep = |op: Operation| selection@.contains(op);
    let mut ordered: Vec<Operation> = Vec::new();
    let mut i: usize = 0;
    proof {
        reveal(Seq::filter);
    }
    while i < list.len()
        invariant
            i <= list.len(),
            list@ == canonical_operations(),
            keep == (|op: Operation| selection@.contains(op)),
            ordered@ == list@.take(i as int).filter(keep),
        decreases list.len() - i,
    {
        let operation = list[i];
        proof {
            assert(list@.take(i + 1) =~= list@.take(i as int).push(operation));
            list@.take(i as int).lemma_filter_push(operation, keep);
        }
        if is_selected(selection, operation) {
            ordered.push(operation);
        }
        i += 1;
    }
    assert(list@.take(list.len() as int) =~= list@);
    ordered
}

fn append_block(out: &mut String, operation: Operation, entity: &str)
    ensures
        final(out)@ == old(out)@ + operation.block_text(entity@),
{
    let single = operation.needs_identifier();
    out.append(ROUTER_CALL);
    out.append(operation.verb());
    out.append(ROUTE_OPEN);
    out.append(if single { ITEM_ROUTE } else { COLLECTION_ROUTE });
    out.append(HANDLER_OPEN);
    out.append(COMMENT_OPEN);
    out.append(operation.purpose());
    out.append(entity);
    out.append(if single { BY_IDENTIFIER } else { NOTHING });
    out.append(LINE_BREAK);
    out.append(if single { IDENTIFIER_EXTRACTION } else { NOTHING });
    out.append(RESPONSE_OPEN);
    out.append(operation.message());
    out.append(entity);
    out.append(if single { RESPONSE_WITH_IDENTIFIER } else { RESPONSE_PLAIN });
    out.append(RESPONSE_CLOSE);
    out.append(HANDLER_CLOSE);
}

/// Composes the handler file for an entity whose name is already in the form
/// in which it is to appear.
pub fn compose_controller(entity: &str, selection: &Vec<Operation>) -> (source: String)
    ensures
        source@ == controller_text(entity@, selection@),
        selection@.len() == 0 ==> source@ == PREAMBLE@ + EXPORT_LINE@,
{
    proof {
        if selection@.len() == 0 {
            lemma_empty_selection(entity@);
        }
    }
    let ordered = order_selection(selection);
    let ghost block_of = |op: Operation| op.block_text(entity@);
    let mut source = String::from_str(PREAMBLE);
    let mut i: usize = 0;
    while i < ordered.len()
        invariant
            i <= ordered.len(),
            block_of == (|op: Operation| op.block_text(entity@)),
            source@ == PREAMBLE@ + ordered@.take(i as int).map_values(block_of).flatten(),
        decreases ordered.len() - i,
    {
        let operation = ordered[i];
        append_block(&mut source, operation, entity);
        proof {
            let earlier = ordered@.take(i as int).map_values(block_of);
            assert(ordered@.take(i + 1).map_values(block_of) =~= earlier.push(
                operation.block_text(entity@),
            ));
            earlier.lemma_flatten_push(operation.block_text(entity@));
        }
        i += 1;
    }
    assert(ordered@.take(ordered.len() as int) =~= ordered@);
    source.append(EXPORT_LINE);
    source
}

/// The path of the handler file for an entity whose name is already in the
/// form in which it is to appear.
pub fn controller_path(entity: &str) -> (path: String)
    ensures
        path@ == controller_path_text(entity@),
{
    let mut path = String::from_str(CONTROLLER_DIRECTORY);
    path.append(entity);
    path.append(SOURCE_EXTENSION);
    path
}

/// A file to be written: where, and what.
#[derive(Clone, Debug, PartialEq, Eq)]
pub struct GeneratedFile {
    pub path: String,
    pub content: String,
}

/// Generates the handler file of the entity `name` for the selected
/// operations. The name enters path and content in lower case; the
/// selection may come in any order and may repeat itself.
pub fn generate_controller(name: &str, selection: &Vec<Operation>) -> (file: GeneratedFile)
    ensures
        file.path@ == controller_path_text(lowercase_of(name@)),
        file.content@ == controller_text(lowercase_of(name@), selection@),
{
    let entity = to_lowercase(name);
    let path = controller_path(entity.as_str());
    let content = compose_controller(entity.as_str(), selection);
    GeneratedFile { path, content }
}

/// The blocks of a handler file stand in canonical order, however the
/// selection was ordered: their ranks grow strictly. An operation has a
/// block exactly when it was selected, and then one block only.
pub proof fn lemma_blocks_follow_canonical_order(selection: Seq<Operation>)
    ensures
        strictly_ranked(ordered_selection(selection), |op: Operation| op.rank()),
        ordered_selection(selection).no_duplicates(),
        forall|op: Operation| #[trigger]
            ordered_selection(selection).contains(op) <==> selection.contains(op),
{
    let list = canonical_operations();
    let rank = |op: Operation| op.rank();
    let keep = |op: Operation| selection.contains(op);
    lemma_filter_keeps_ranking(list, keep, rank);
    lemma_ranked_is_distinct(ordered_selection(selection), rank);
}

/// Two selections of the same operations give the same file, whatever the
/// order in which each lists them and however often.
pub proof fn lemma_selection_order_is_irrelevant(
    entity: Seq<char>,
    first: Seq<Operation>,
    second: Seq<Operation>,
)
    requires
        forall|op: Operation| first.contains(op) <==> second.contains(op),
    ensures
        ordered_selection(first) == ordered_selection(second),
        controller_text(entity, first) == controller_text(entity, second),
{
    let keep_first = |op: Operation| first.contains(op);
    let keep_second = |op: Operation| second.contains(op);
    assert(keep_first =~= keep_second);
}

/// With nothing selected the file holds no block: the export line follows
/// the preamble directly.
pub proof fn lemma_empty_selection(entity: Seq<char>)
    ensures
        ordered_selection(Seq::<Operation>::empty()).len() == 0,
        controller_text(entity, Seq::<Operation>::empty()) == PREAMBLE@ + EXPORT_LINE@,
{
    let nothing = Seq::<Operation>::empty();
    lemma_blocks_follow_canonical_order(nothing);
    let ordered = ordered_selection(nothing);
    if ordered.len() > 0 {
        assert(ordered.contains(ordered[0]));
    }
}

/// Generating is repeatable: path and content depend on the name and the
/// selection and on nothing else, so that a second call with the same name
/// and the same selection returns the same file, byte for byte.
pub proof fn lemma_controller_is_repeatable(
    first_name: Seq<char>,
    first_selection: Seq<Operation>,
    second_name: Seq<char>,
    second_selection: Seq<Operation>,
)
    requires
        first_name == second_name,
        first_selection == second_selection,
    ensures
        controller_path_text(lowercase_of(first_name)) == controller_path_text(
            lowercase_of(second_name),
        ),
        controller_text(lowercase_of(first_name), first_selection) == controller_text(
            lowercase_of(second_name),
            second_selection,
        ),
{
}

} // verus!
