use projkt::catalog::{get, SelectionItem, TemplateCatalog};
use projkt::gitignore::{GitIgnore, GitIgnoreError, GitIgnoreOptions};

fn item(name: &str, content: &str) -> SelectionItem {
    SelectionItem { name: name.to_string(), content: content.to_string() }
}

fn two_template_catalog() -> TemplateCatalog {
    let json = r#"{"A": {"contents": "a-body"}, "B": {"contents": "b-body"}}"#;
    get(&json.as_bytes().to_vec()).expect("payload should parse")
}

fn opts(name: Option<&str>, overwrite: bool, append: bool) -> GitIgnoreOptions {
    GitIgnoreOptions {
        append,
        dest: ".".to_string(),
        name: name.map(|n| n.to_string()),
        overwrite,
    }
}

#[test]
fn selection_order_is_preserved_in_concatenation() {
    let data = vec![item("A", "a-body"), item("B", "b-body")];
    assert_eq!(GitIgnore::combined(&data), "a-bodyb-body");
    let reversed = vec![item("B", "b-body"), item("A", "a-body")];
    assert_eq!(GitIgnore::combined(&reversed), "b-bodya-body");
}

#[test]
fn default_run_leaves_existing_gitignore_alone() {
    let existing = Some("node_modules".to_string());
    let data = vec![item("A", "a-body")];
    let (contents, changed) =
        GitIgnore::write(&opts(None, false, false), &data, &existing).unwrap();
    assert_eq!(contents, "node_modules");
    assert!(!changed);
}

#[test]
fn overwrite_run_replaces_existing_gitignore() {
    let existing = Some("node_modules".to_string());
    let data = vec![item("A", "a-body")];
    let (contents, changed) = GitIgnore::write(&opts(None, true, false), &data, &existing).unwrap();
    assert_eq!(contents, "a-body");
    assert!(changed);
}

#[test]
fn append_run_extends_existing_gitignore() {
    let existing = Some("node_modules\n".to_string());
    let data = vec![item("A", "*.log\n")];
    let (contents, changed) = GitIgnore::write(&opts(None, false, true), &data, &existing).unwrap();
    assert_eq!(contents, "node_modules\n*.log\n");
    assert!(changed);
}

#[test]
fn conflicting_flags_fail_the_write_step() {
    let data = vec![item("A", "a-body")];
    assert!(GitIgnore::write(&opts(None, true, true), &data, &None).is_err());
}

#[test]
fn named_run_writes_the_matching_template() {
    let catalog = two_template_catalog();
    let (contents, changed) =
        GitIgnore::exec(&opts(Some("A"), false, false), &catalog, &Vec::new(), &None).unwrap();
    assert_eq!(contents, "a-body");
    assert!(changed);
}

#[test]
fn named_run_misses_with_all_names_listed() {
    let catalog = two_template_catalog();
    let err = GitIgnore::exec(
        &opts(Some("NoSuchTemplate"), false, false),
        &catalog,
        &Vec::new(),
        &None,
    )
    .unwrap_err();
    match err {
        GitIgnoreError::NotFound(not_found) => {
            let msg = not_found.message();
            assert!(msg.contains("NoSuchTemplate"));
            assert!(msg.contains("A"));
            assert!(msg.contains("B"));
        }
        GitIgnoreError::Conflict(_) => panic!("expected a not-found error"),
    }
}

#[test]
fn picked_run_concatenates_in_selection_order() {
    let picked = vec![item("A", "a-body"), item("B", "b-body")];
    let (contents, changed) =
        GitIgnore::exec(&opts(None, false, false), &two_template_catalog(), &picked, &None)
            .unwrap();
    assert_eq!(contents, "a-bodyb-body");
    assert!(changed);
}

#[test]
fn named_run_with_conflicting_flags_is_rejected() {
    let catalog = two_template_catalog();
    let err = GitIgnore::exec(&opts(Some("A"), true, true), &catalog, &Vec::new(), &None)
        .unwrap_err();
    assert!(matches!(err, GitIgnoreError::Conflict(_)));
}
