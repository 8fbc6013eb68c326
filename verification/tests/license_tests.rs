use projkt::catalog::SelectionItem;
use projkt::license::{license_file_name, License, LicenseOptions};

fn license_opts(names: Vec<&str>, overwrite: bool) -> LicenseOptions {
    LicenseOptions {
        author: None,
        email: None,
        names: names.into_iter().map(|n| n.to_string()).collect(),
        overwrite,
    }
}

fn embedded_text(id: &str) -> &'static str {
    spdx::text::LICENSE_TEXTS
        .iter()
        .find(|(name, _)| *name == id)
        .map(|(_, text)| *text)
        .expect("id is in the embedded table")
}

#[test]
fn get_lists_known_identifiers() {
    let ids = License::get();
    assert!(ids.iter().any(|id| id == "MIT"));
    assert!(ids.iter().any(|id| id == "Apache-2.0"));
}

#[test]
fn get_returns_the_embedded_table_identifiers_in_order() {
    let ids = License::get();
    assert_eq!(ids.len(), spdx::text::LICENSE_TEXTS.len());
    for (id, (expected, _)) in ids.iter().zip(spdx::text::LICENSE_TEXTS.iter()) {
        assert_eq!(id, expected);
    }
}

#[test]
fn get_returns_the_same_sequence_on_every_call() {
    assert_eq!(License::get(), License::get());
}

#[test]
fn selection_resolves_names_to_embedded_texts() {
    let sel = License::selection(&license_opts(vec!["MIT"], false), &Vec::new())
        .expect("MIT is a known license");
    assert_eq!(sel.len(), 1);
    assert_eq!(sel[0].name, "MIT");
    assert_eq!(sel[0].content, embedded_text("MIT"));
}

#[test]
fn selection_keeps_request_order() {
    let sel = License::selection(&license_opts(vec!["Apache-2.0", "MIT"], false), &Vec::new())
        .expect("both licenses are known");
    assert_eq!(sel[0].name, "Apache-2.0");
    assert_eq!(sel[1].name, "MIT");
}

#[test]
fn unknown_identifier_fails_the_selection() {
    let err = License::selection(&license_opts(vec!["NoSuchLicense-XYZ"], false), &Vec::new())
        .unwrap_err();
    assert_eq!(err.name, "NoSuchLicense-XYZ");
    assert!(err.message().contains("NoSuchLicense-XYZ"));
}

#[test]
fn empty_names_delegate_to_the_picked_items() {
    let picked = vec![SelectionItem { name: "X".to_string(), content: "x-text".to_string() }];
    let sel = License::selection(&license_opts(vec![], false), &picked).unwrap();
    assert_eq!(sel.len(), 1);
    assert_eq!(sel[0].name, "X");
    assert_eq!(sel[0].content, "x-text");
}

#[test]
fn license_files_are_named_after_their_identifier() {
    assert_eq!(license_file_name(&"MIT".to_string()), "LICENSE-MIT");
}

#[test]
fn write_creates_missing_license_files() {
    let data = vec![SelectionItem { name: "MIT".to_string(), content: "mit-text".to_string() }];
    let (planned, any_changed) = License::write(&data, &vec![None], false);
    assert_eq!(planned.len(), 1);
    assert_eq!(planned[0].file_name, "LICENSE-MIT");
    assert_eq!(planned[0].contents, "mit-text");
    assert!(planned[0].changed);
    assert!(any_changed);
}

#[test]
fn write_keeps_existing_license_files_by_default() {
    let data = vec![SelectionItem { name: "MIT".to_string(), content: "mit-text".to_string() }];
    let (planned, any_changed) = License::write(&data, &vec![Some("old".to_string())], false);
    assert_eq!(planned[0].contents, "old");
    assert!(!planned[0].changed);
    assert!(!any_changed);
}

#[test]
fn write_overwrites_on_explicit_request() {
    let data = vec![
        SelectionItem { name: "MIT".to_string(), content: "mit-text".to_string() },
        SelectionItem { name: "0BSD".to_string(), content: "bsd-text".to_string() },
    ];
    let existing = vec![Some("old".to_string()), None];
    let (planned, any_changed) = License::write(&data, &existing, true);
    assert_eq!(planned[0].contents, "mit-text");
    assert!(planned[0].changed);
    assert_eq!(planned[1].file_name, "LICENSE-0BSD");
    assert_eq!(planned[1].contents, "bsd-text");
    assert!(any_changed);
}
