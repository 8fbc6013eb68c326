use projkt::writer::{mode_of, write_outcome, WriteMode};

#[test]
fn default_mode_never_touches_an_existing_file() {
    let existing = Some("node_modules".to_string());
    let (contents, changed) =
        write_outcome(&existing, &"fresh".to_string(), &WriteMode::CreateOnly);
    assert_eq!(contents, "node_modules");
    assert!(!changed);
}

#[test]
fn overwrite_mode_replaces_existing_contents() {
    let existing = Some("node_modules".to_string());
    let (contents, changed) = write_outcome(&existing, &"fresh".to_string(), &WriteMode::Overwrite);
    assert_eq!(contents, "fresh");
    assert!(changed);
}

#[test]
fn append_mode_keeps_existing_prefix() {
    let existing = Some("node_modules\n".to_string());
    let (contents, changed) = write_outcome(&existing, &"*.log\n".to_string(), &WriteMode::Append);
    assert_eq!(contents, "node_modules\n*.log\n");
    assert!(changed);
}

#[test]
fn missing_file_is_created_in_every_mode() {
    for mode in [WriteMode::CreateOnly, WriteMode::Overwrite, WriteMode::Append] {
        let (contents, changed) = write_outcome(&None, &"payload".to_string(), &mode);
        assert_eq!(contents, "payload");
        assert!(changed);
    }
}

#[test]
fn flags_map_to_their_modes() {
    assert!(matches!(mode_of(false, false), Ok(WriteMode::CreateOnly)));
    assert!(matches!(mode_of(true, false), Ok(WriteMode::Overwrite)));
    assert!(matches!(mode_of(false, true), Ok(WriteMode::Append)));
}

#[test]
fn conflicting_flags_are_rejected() {
    assert!(mode_of(true, true).is_err());
}
