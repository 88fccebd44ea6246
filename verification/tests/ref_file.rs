use flatpak_installer::flathub::{FlathubMetadata, FlathubReply};
use flatpak_installer::ref_file::{Error, KeyValue, RefFileIni, RefKeyFile};

fn text(s: &str) -> KeyValue {
    KeyValue::Text(s.to_string())
}

fn key_file(repo: &str, suggest: KeyValue) -> RefKeyFile {
    RefKeyFile {
        has_ref_group: true,
        title: text("GNOME Calculator"),
        name: text("org.gnome.Calculator"),
        runtime_repo: text(repo),
        suggest_remote_name: suggest,
        description: text("Perform arithmetic"),
        icon: text("https://dl.flathub.org/media/calc.png"),
    }
}

#[test]
fn flathub_ref_without_suggested_remote() {
    let kf = key_file("https://dl.flathub.org/repo/flathub.flatpakrepo", KeyValue::Missing);
    let r = RefFileIni::new(Some(&kf)).unwrap();
    assert_eq!(r.title(), "GNOME Calculator");
    assert_eq!(r.app_id(), "org.gnome.Calculator");
    assert_eq!(r.remote_name(), "flathub");
    assert!(r.from_flathub());
    assert_eq!(r.description(), Some("Perform arithmetic"));
    assert_eq!(r.icon(), Some("https://dl.flathub.org/media/calc.png"));
    assert_eq!(
        r.flathub_metadata_url().unwrap(),
        "https://flathub.org/api/v2/appstream/org.gnome.Calculator"
    );
}

#[test]
fn flathub_beta_counts_as_flathub() {
    let kf = key_file("https://dl.flathub.org/beta-repo/flathub-beta.flatpakrepo", KeyValue::Missing);
    let r = RefFileIni::new(Some(&kf)).unwrap();
    assert_eq!(r.remote_name(), "flathub-beta");
    assert!(r.from_flathub());
}

#[test]
fn suggested_remote_name_wins() {
    let kf = key_file("https://dl.flathub.org/repo/flathub.flatpakrepo", text("gnome-nightly"));
    let r = RefFileIni::new(Some(&kf)).unwrap();
    assert_eq!(r.remote_name(), "gnome-nightly");
    assert!(!r.from_flathub());
    assert!(r.flathub_metadata_url().is_none());
}

#[test]
fn unreadable_suggested_remote_falls_back_to_repo_url() {
    let kf = key_file("https://example.org/repo/example.flatpakrepo", KeyValue::Unreadable);
    let r = RefFileIni::new(Some(&kf)).unwrap();
    assert_eq!(r.remote_name(), "example");
    assert!(!r.from_flathub());
}

#[test]
fn repo_url_without_slash_or_suffix() {
    let r = RefFileIni::new(Some(&key_file("myremote", KeyValue::Missing))).unwrap();
    assert_eq!(r.remote_name(), "myremote");
    let r = RefFileIni::new(Some(&key_file("a/x.flatpakrepoy.flatpakrepo", KeyValue::Missing))).unwrap();
    assert_eq!(r.remote_name(), "xy");
    let r = RefFileIni::new(Some(&key_file("https://h/repo/", KeyValue::Missing))).unwrap();
    assert_eq!(r.remote_name(), "");
}

#[test]
fn optional_keys_missing_or_unreadable() {
    let mut kf = key_file("https://example.org/r.flatpakrepo", KeyValue::Missing);
    kf.description = KeyValue::Missing;
    kf.icon = KeyValue::Unreadable;
    let r = RefFileIni::new(Some(&kf)).unwrap();
    assert_eq!(r.description(), None);
    assert_eq!(r.icon(), None);
}

#[test]
fn unreadable_file() {
    assert_eq!(RefFileIni::new(None).unwrap_err(), Error::UnableToReadFile);
}

#[test]
fn missing_group_is_invalid() {
    let mut kf = key_file("https://example.org/r.flatpakrepo", KeyValue::Missing);
    kf.has_ref_group = false;
    assert_eq!(RefFileIni::new(Some(&kf)).unwrap_err(), Error::InvalidFile);
}

#[test]
fn missing_required_keys_are_invalid() {
    let mut kf = key_file("https://example.org/r.flatpakrepo", KeyValue::Missing);
    kf.title = KeyValue::Missing;
    assert_eq!(RefFileIni::new(Some(&kf)).unwrap_err(), Error::InvalidFile);
    let mut kf = key_file("https://example.org/r.flatpakrepo", KeyValue::Missing);
    kf.name = KeyValue::Missing;
    assert_eq!(RefFileIni::new(Some(&kf)).unwrap_err(), Error::InvalidFile);
    let mut kf = key_file("https://example.org/r.flatpakrepo", KeyValue::Missing);
    kf.runtime_repo = KeyValue::Missing;
    assert_eq!(RefFileIni::new(Some(&kf)).unwrap_err(), Error::InvalidFile);
}

#[test]
fn empty_required_values_are_invalid() {
    let mut kf = key_file("https://example.org/r.flatpakrepo", KeyValue::Missing);
    kf.title = text("");
    assert_eq!(RefFileIni::new(Some(&kf)).unwrap_err(), Error::InvalidFile);
    let mut kf = key_file("https://example.org/r.flatpakrepo", KeyValue::Missing);
    kf.name = KeyValue::Unreadable;
    assert_eq!(RefFileIni::new(Some(&kf)).unwrap_err(), Error::InvalidFile);
    let kf = key_file("", text("flathub"));
    assert_eq!(RefFileIni::new(Some(&kf)).unwrap_err(), Error::InvalidFile);
}

#[test]
fn metadata_replaces_title_description_and_icon() {
    let kf = key_file("https://dl.flathub.org/repo/flathub.flatpakrepo", KeyValue::Missing);
    let r = RefFileIni::new(Some(&kf)).unwrap();
    let meta = FlathubMetadata {
        summary: Some("Calculate".to_string()),
        icon: None,
        name: Some("Calculator".to_string()),
    };
    let r = r.with_flathub_reply(FlathubReply::Metadata(meta)).unwrap();
    assert_eq!(r.title(), "Calculator");
    assert_eq!(r.description(), Some("Calculate"));
    assert_eq!(r.icon(), None);
    assert_eq!(r.app_id(), "org.gnome.Calculator");
    assert_eq!(r.remote_name(), "flathub");
    assert!(r.from_flathub());
}

#[test]
fn metadata_without_name_keeps_title() {
    let kf = key_file("https://dl.flathub.org/repo/flathub.flatpakrepo", KeyValue::Missing);
    let r = RefFileIni::new(Some(&kf)).unwrap();
    let meta = FlathubMetadata { summary: None, icon: Some("i.png".to_string()), name: None };
    let r = r.with_flathub_reply(FlathubReply::Metadata(meta)).unwrap();
    assert_eq!(r.title(), "GNOME Calculator");
    assert_eq!(r.description(), None);
    assert_eq!(r.icon(), Some("i.png"));
}

#[test]
fn failed_request_is_an_error() {
    let kf = key_file("https://dl.flathub.org/repo/flathub.flatpakrepo", KeyValue::Missing);
    let r = RefFileIni::new(Some(&kf)).unwrap();
    assert_eq!(
        r.with_flathub_reply(FlathubReply::Failed(503)).unwrap_err(),
        Error::UnableToTalkToFlathub(503)
    );
}
