//! Which file the installer was opened with, and how an installed
//! application is started.
use vstd::prelude::*;

verus! {

/// The kinds of file the installer opens.
#[derive(Debug, Clone, Copy, PartialEq, Eq, Structural)]
pub enum FileType {
    /// A `.flatpak` single-file bundle.
    Bundle,
    /// A `.flatpakref` description of an application in a remote.
    Ref,
}

/// The kind of file that an extension names; `None` for one the installer
/// does not open.
pub open spec fn file_type_spec(ext: Seq<char>) -> Option<FileType> {
    if ext == "flatpak"@ {
        Some(FileType::Bundle)
    } else if ext == "flatpakref"@ {
        Some(FileType::Ref)
    } else {
        None
    }
}

/// The kind of file that the extension `ext` (without its dot) names.
pub fn file_type_of_extension(ext: &str) -> (r: Option<FileType>)
    ensures
        r == file_type_spec(ext@),
{
    let ext = String::from_str(ext);
    if ext == String::from_str("flatpak") {
        Some(FileType::Bundle)
    } else if ext == String::from_str("flatpakref") {
        Some(FileType::Ref)
    } else {
        None
    }
}

/// The command line that starts `app`: the program, then its arguments.
/// Inside a Flatpak sandbox the host's `flatpak` is reached through
/// `flatpak-spawn --host`.
pub open spec fn launch_command_spec(app: Seq<char>, in_flatpak: bool) -> Seq<Seq<char>> {
    if in_flatpak {
        seq!["flatpak-spawn"@, "--host"@, "flatpak"@, "run"@, app]
    } else {
        seq!["flatpak"@, "run"@, app]
    }
}

/// The command line that starts the installed application `app`.
pub fn launch_command(app: &str, in_flatpak: bool) -> (r: Vec<String>)
    ensures
        r.deep_view() == launch_command_spec(app@, in_flatpak),
        in_flatpak ==> r.len() == 5 && r[0]@ == "flatpak-spawn"@ && r[1]@ == "--host"@ && r[2]@
            == "flatpak"@ && r[3]@ == "run"@ && r[4]@ == app@,
        !in_flatpak ==> r.len() == 3 && r[0]@ == "flatpak"@ && r[1]@ == "run"@ && r[2]@ == app@,
{
    let mut command: Vec<String> = Vec::new();
    if in_flatpak {
        command.push(String::from_str("flatpak-spawn"));
        command.push(String::from_str("--host"));
    }
    command.push(String::from_str("flatpak"));
    command.push(String::from_str("run"));
    command.push(String::from_str(app));
    assert(command.deep_view() =~= launch_command_spec(app@, in_flatpak));
    command
}

/// Whatever the sandbox, the command runs `flatpak run` on the application
/// id as given, which is its last argument; only inside a sandbox does it go
/// through `flatpak-spawn`.
pub proof fn law_launch_runs_the_app(app: Seq<char>, in_flatpak: bool)
    ensures
        ({
            let c = launch_command_spec(app, in_flatpak);
            &&& c.len() >= 3
            &&& c[c.len() - 1] == app
            &&& c[c.len() - 2] == "run"@
            &&& c[c.len() - 3] == "flatpak"@
            &&& c[0] == (if in_flatpak {
                "flatpak-spawn"@
            } else {
                "flatpak"@
            })
        }),
{
}

/// On the host the command is exactly `flatpak run <app>`; inside a sandbox
/// it is that same command behind `flatpak-spawn --host`.
pub proof fn law_sandbox_goes_through_host(app: Seq<char>)
    ensures
        launch_command_spec(app, false) == seq!["flatpak"@, "run"@, app],
        launch_command_spec(app, true) == seq!["flatpak-spawn"@, "--host"@]
            + launch_command_spec(app, false),
{
    assert(launch_command_spec(app, true) =~= seq!["flatpak-spawn"@, "--host"@]
        + launch_command_spec(app, false));
}

/// An extension names a bundle exactly when it is `flatpak` and a ref
/// exactly when it is `flatpakref`.
pub proof fn law_extensions(ext: Seq<char>)
    ensures
        file_type_spec(ext) == Some(FileType::Bundle) <==> ext == "flatpak"@,
        file_type_spec(ext) == Some(FileType::Ref) <==> ext == "flatpakref"@,
{
    reveal_strlit("flatpak");
    reveal_strlit("flatpakref");
    assert("flatpak"@.len() != "flatpakref"@.len());
}

} // verus!
