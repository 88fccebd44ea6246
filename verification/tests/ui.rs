use flatpak_installer::ui::{error_body, flathub_icon_path, installed_body};

#[test]
fn dialog_bodies() {
    assert_eq!(error_body("no space left"), "Error: no space left");
    assert_eq!(installed_body("GNOME Calculator"), "GNOME Calculator installed");
    assert_eq!(error_body(""), "Error: ");
}

#[test]
fn icon_path() {
    assert_eq!(
        flathub_icon_path("flathub", "x86_64", "org.gnome.Calculator"),
        vec!["appstream", "flathub", "x86_64", "active", "icons", "128x128", "org.gnome.Calculator.png"]
    );
}
