use rest_scaffold::controller::{
    canonical_list, compose_controller, controller_path, generate_controller, is_selected,
    order_selection, parse_selection, Operation,
};

const HEAD: &str = "const express = require('express');\nconst router = express.Router();\n\n";
const EXPORT: &str = "module.exports = router;";

fn create_block(entity: &str) -> String {
    [
        "router.post('/', (req, res) => {".to_string(),
        format!("  // Logique pour créer un(e) {}", entity),
        format!("  res.send('Créer un(e) {}');", entity),
        "});".to_string(),
        "".to_string(),
        "".to_string(),
    ]
    .join("\n")
}

fn read_all_block(entity: &str) -> String {
    [
        "router.get('/', (req, res) => {".to_string(),
        format!("  // Logique pour récupérer tou(te)s les {}", entity),
        format!("  res.send('Récupérer tou(te)s les {}');", entity),
        "});".to_string(),
        "".to_string(),
        "".to_string(),
    ]
    .join("\n")
}

fn read_one_block(entity: &str) -> String {
    [
        "router.get('/:id', (req, res) => {".to_string(),
        format!("  // Logique pour récupérer un(e) {} par son ID", entity),
        "  const { id } = req.params;".to_string(),
        format!("  res.send('Récupérer le/la {} avec l\\'ID ' + id);", entity),
        "});".to_string(),
        "".to_string(),
        "".to_string(),
    ]
    .join("\n")
}

fn update_block(entity: &str) -> String {
    [
        "router.put('/:id', (req, res) => {".to_string(),
        format!("  // Logique pour mettre à jour un(e) {} par son ID", entity),
        "  const { id } = req.params;".to_string(),
        format!("  res.send('Mettre à jour le/la {} avec l\\'ID ' + id);", entity),
        "});".to_string(),
        "".to_string(),
        "".to_string(),
    ]
    .join("\n")
}

fn delete_block(entity: &str) -> String {
    [
        "router.delete('/:id', (req, res) => {".to_string(),
        format!("  // Logique pour supprimer un(e) {} par son ID", entity),
        "  const { id } = req.params;".to_string(),
        format!("  res.send('Supprimer le/la {} avec l\\'ID ' + id);", entity),
        "});".to_string(),
        "".to_string(),
        "".to_string(),
    ]
    .join("\n")
}

#[test]
fn order_with_delete_and_create() {
    let file = generate_controller("Order", &vec![Operation::Delete, Operation::Create]);
    assert_eq!(file.path, "src/controllers/order.js");
    let expected = [HEAD, &create_block("order"), &delete_block("order"), EXPORT].concat();
    assert_eq!(file.content, expected);
    assert_eq!(file.content.matches("router.").count(), 2);
    let create = file.content.find("router.post(").unwrap();
    let delete = file.content.find("router.delete(").unwrap();
    assert!(create < delete);
}

#[test]
fn order_written_out_in_full() {
    let file = generate_controller("Order", &vec![Operation::Delete, Operation::Create]);
    let expected = "const express = require('express');\nconst router = express.Router();\n\nrouter.post('/', (req, res) => {\n  // Logique pour créer un(e) order\n  res.send('Créer un(e) order');\n});\n\nrouter.delete('/:id', (req, res) => {\n  // Logique pour supprimer un(e) order par son ID\n  const { id } = req.params;\n  res.send('Supprimer le/la order avec l\\'ID ' + id);\n});\n\nmodule.exports = router;";
    assert_eq!(file.content, expected);
}

#[test]
fn all_five_in_canonical_order() {
    let selection = vec![
        Operation::Update,
        Operation::Delete,
        Operation::ReadOne,
        Operation::Create,
        Operation::ReadAll,
    ];
    let file = generate_controller("user", &selection);
    let expected = [
        HEAD,
        &create_block("user"),
        &read_all_block("user"),
        &read_one_block("user"),
        &update_block("user"),
        &delete_block("user"),
        EXPORT,
    ]
    .concat();
    assert_eq!(file.content, expected);
    assert_eq!(file.path, "src/controllers/user.js");
}

#[test]
fn empty_selection_leaves_preamble_and_export() {
    let file = generate_controller("Thing", &Vec::new());
    assert_eq!(file.content, [HEAD, EXPORT].concat());
    assert_eq!(file.content.matches("router.").count(), 0);
    assert!(file.content.ends_with("module.exports = router;"));
    assert_eq!(file.path, "src/controllers/thing.js");
}

#[test]
fn name_enters_in_lower_case() {
    let file = generate_controller("BlogPOST", &vec![Operation::ReadAll]);
    assert_eq!(file.path, "src/controllers/blogpost.js");
    assert_eq!(file.content, [HEAD, &read_all_block("blogpost"), EXPORT].concat());
    assert!(!file.content.contains("BlogPOST"));
    let accented = generate_controller("ÉCOLE", &Vec::new());
    assert_eq!(accented.path, "src/controllers/école.js");
}

#[test]
fn composer_takes_the_name_as_given() {
    let source = compose_controller("Mixed", &vec![Operation::Create]);
    assert_eq!(source, [HEAD, &create_block("Mixed"), EXPORT].concat());
    assert_eq!(controller_path("Mixed"), "src/controllers/Mixed.js");
    assert_eq!(controller_path(""), "src/controllers/.js");
}

#[test]
fn selection_order_and_repetition_do_not_matter() {
    let orders = vec![
        vec![Operation::ReadOne, Operation::Create, Operation::Delete],
        vec![Operation::Delete, Operation::ReadOne, Operation::Create],
        vec![Operation::Create, Operation::Delete, Operation::ReadOne, Operation::Create],
        vec![Operation::Delete, Operation::Delete, Operation::Create, Operation::ReadOne],
    ];
    let reference = generate_controller("item", &orders[0]);
    for selection in &orders {
        assert_eq!(generate_controller("item", selection), reference);
        assert_eq!(
            order_selection(selection),
            vec![Operation::Create, Operation::ReadOne, Operation::Delete]
        );
    }
    assert_eq!(
        reference.content,
        [HEAD, &create_block("item"), &read_one_block("item"), &delete_block("item"), EXPORT]
            .concat()
    );
}

#[test]
fn one_block_per_selected_operation() {
    let list = canonical_list();
    assert_eq!(
        list,
        vec![
            Operation::Create,
            Operation::ReadAll,
            Operation::ReadOne,
            Operation::Update,
            Operation::Delete,
        ]
    );
    let openings = [
        "router.post('/', ",
        "router.get('/', ",
        "router.get('/:id', ",
        "router.put('/:id', ",
        "router.delete('/:id', ",
    ];
    for mask in 0..32u32 {
        let selection: Vec<Operation> = list
            .iter()
            .enumerate()
            .filter(|(i, _)| mask & (1 << i) != 0)
            .map(|(_, op)| *op)
            .rev()
            .collect();
        let source = compose_controller("x", &selection);
        let mut last = 0;
        for (i, op) in list.iter().enumerate() {
            let count = source.matches(openings[i]).count();
            assert_eq!(is_selected(&selection, *op), mask & (1 << i) != 0);
            if is_selected(&selection, *op) {
                assert_eq!(count, 1);
                let at = source.find(openings[i]).unwrap();
                assert!(at >= last);
                last = at;
            } else {
                assert_eq!(count, 0);
            }
        }
        assert_eq!(
            source.matches("  const { id } = req.params;\n").count(),
            selection.iter().filter(|op| op.needs_identifier()).count()
        );
    }
}

#[test]
fn identifier_is_read_by_the_three_single_resource_operations() {
    let needing: Vec<Operation> =
        canonical_list().into_iter().filter(|op| op.needs_identifier()).collect();
    assert_eq!(needing, vec![Operation::ReadOne, Operation::Update, Operation::Delete]);
}

#[test]
fn labels_stand_for_operations() {
    let labels: Vec<&str> = canonical_list().iter().map(|op| op.label()).collect();
    assert_eq!(labels, vec!["create", "read (all)", "read (one)", "update", "delete"]);
    let picked = vec![
        "delete".to_string(),
        "read (one)".to_string(),
        "nothing".to_string(),
        "create".to_string(),
        "Create".to_string(),
        "delete".to_string(),
    ];
    assert_eq!(
        parse_selection(&picked),
        vec![Operation::Delete, Operation::ReadOne, Operation::Create, Operation::Delete]
    );
    assert_eq!(Operation::from_label(&"update".to_string()), Some(Operation::Update));
    assert_eq!(Operation::from_label(&"read (all)".to_string()), Some(Operation::ReadAll));
    assert_eq!(Operation::from_label(&"read".to_string()), None);
    assert_eq!(parse_selection(&Vec::new()), Vec::new());
}

#[test]
fn controller_is_the_same_on_every_call() {
    let selection = vec![Operation::Update, Operation::ReadAll];
    let first = generate_controller("Twice", &selection);
    let second = generate_controller("Twice", &selection);
    assert_eq!(first.path.as_bytes(), second.path.as_bytes());
    assert_eq!(first.content.as_bytes(), second.content.as_bytes());
}
