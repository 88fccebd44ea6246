use flatpak_installer::launch::{file_type_of_extension, launch_command, FileType};

#[test]
fn extensions() {
    assert_eq!(file_type_of_extension("flatpak"), Some(FileType::Bundle));
    assert_eq!(file_type_of_extension("flatpakref"), Some(FileType::Ref));
    assert_eq!(file_type_of_extension("flatpakrepo"), None);
    assert_eq!(file_type_of_extension("FLATPAK"), None);
    assert_eq!(file_type_of_extension(""), None);
}

#[test]
fn launch_on_the_host() {
    assert_eq!(launch_command("org.gnome.Calculator", false), vec!["flatpak", "run", "org.gnome.Calculator"]);
}

#[test]
fn launch_from_a_sandbox() {
    assert_eq!(
        launch_command("org.gnome.Calculator", true),
        vec!["flatpak-spawn", "--host", "flatpak", "run", "org.gnome.Calculator"]
    );
}
