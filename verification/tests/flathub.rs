use flatpak_installer::flathub::FlathubMetadata;

#[test]
fn reads_string_members() {
    let json = br#"{"name": "Calculator", "summary": "Perform arithmetic", "icon": "https://x/i.png", "id": 3}"#;
    let m = FlathubMetadata::from_json(json).unwrap();
    assert_eq!(m.name.as_deref(), Some("Calculator"));
    assert_eq!(m.summary.as_deref(), Some("Perform arithmetic"));
    assert_eq!(m.icon.as_deref(), Some("https://x/i.png"));
}

#[test]
fn non_string_and_missing_members_read_as_none() {
    let m = FlathubMetadata::from_json(br#"{"name": 7, "summary": null}"#).unwrap();
    assert_eq!(m.name, None);
    assert_eq!(m.summary, None);
    assert_eq!(m.icon, None);
}

#[test]
fn non_object_document_has_no_members() {
    let m = FlathubMetadata::from_json(br#"["name", "summary"]"#).unwrap();
    assert!(m.name.is_none() && m.summary.is_none() && m.icon.is_none());
}

#[test]
fn invalid_json_is_none() {
    assert!(FlathubMetadata::from_json(b"{\"name\": ").is_none());
    assert!(FlathubMetadata::from_json(b"").is_none());
    assert!(FlathubMetadata::from_json(b"{} trailing").is_none());
}
