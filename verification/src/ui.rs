//! Texts and paths that the installer's window shows or reads.
use vstd::prelude::*;

verus! {

/// The body of the dialog that reports an error.
pub fn error_body(message: &str) -> (r: String)
    ensures
        r@ == "Error: "@ + message@,
{
    let mut body = String::from_str("Error: ");
    body.append(message);
    body
}

/// The body of the dialog that reports a finished installation.
pub fn installed_body(title: &str) -> (r: String)
    ensures
        r@ == title@ + " installed"@,
{
    let mut body = String::from_str(title);
    body.append(" installed");
    body
}

/// Where, below a Flatpak installation, the appstream data of a remote
/// keeps the 128x128 icon of an application: the path's components in order.
pub open spec fn flathub_icon_path_spec(remote_name: Seq<char>, arch: Seq<char>, app_id: Seq<char>) -> Seq<
    Seq<char>,
> {
    seq!["appstream"@, remote_name, arch, "active"@, "icons"@, "128x128"@, app_id + ".png"@]
}

/// The components of the path of an application's cached 128x128 icon,
/// relative to the installation's directory.
pub fn flathub_icon_path(remote_name: &str, arch: &str, app_id: &str) -> (r: Vec<String>)
    ensures
        r.deep_view() == flathub_icon_path_spec(remote_name@, arch@, app_id@),
        r.len() == 7,
        r[0]@ == "appstream"@,
        r[1]@ == remote_name@,
        r[2]@ == arch@,
        r[3]@ == "active"@,
        r[4]@ == "icons"@,
        r[5]@ == "128x128"@,
        r[6]@ == app_id@ + ".png"@,
{
    let mut file_name = String::from_str(app_id);
    file_name.append(".png");
    let mut path: Vec<String> = Vec::new();
    path.push(String::from_str("appstream"));
    path.push(String::from_str(remote_name));
    path.push(String::from_str(arch));
    path.push(String::from_str("active"));
    path.push(String::from_str("icons"));
    path.push(String::from_str("128x128"));
    path.push(file_name);
    assert(path.deep_view() =~= flathub_icon_path_spec(remote_name@, arch@, app_id@));
    path
}

/// The icon path is `appstream/<remote>/<arch>/active/icons/128x128/<app id>.png`:
/// the remote, the architecture and the application id are the ones given.
pub proof fn law_icon_path_components(remote_name: Seq<char>, arch: Seq<char>, app_id: Seq<char>)
    ensures
        ({
            let p = flathub_icon_path_spec(remote_name, arch, app_id);
            &&& p.len() == 7
            &&& p[0] == "appstream"@
            &&& p[1] == remote_name
            &&& p[2] == arch
            &&& p[3] == "active"@
            &&& p[4] == "icons"@
            &&& p[5] == "128x128"@
            &&& p[6] == app_id + ".png"@
        }),
{
}

} // verus!
