//! A `.flatpakref` file: what its `[Flatpak Ref]` group says, checked and
//! completed, and the step that folds in Flathub's appstream data.
use vstd::prelude::*;
use crate::flathub::{FlathubMetadata, FlathubReply};
use crate::text::{
    after_last, has_char, last_segment, law_remove_all_front_occurrence,
    lemma_after_last_has_no_sep, lemma_after_last_of_tail, lemma_remove_all_keeps_absent_char,
    lemma_remove_all_keeps_free_prefix, occurs_in_at, remove_all, remove_occurrences,
};

verus! {

/// What a key file gives for one key of the `[Flatpak Ref]` group.
#[derive(Debug)]
pub enum KeyValue {
    /// The key is not there.
    Missing,
    /// The key is there but its value cannot be read as a string.
    Unreadable,
    /// The key's value.
    Text(String),
}

impl KeyValue {
    /// The key is there (`has_key`).
    pub open spec fn is_present(&self) -> bool {
        !(self is Missing)
    }

    /// The value as a string (`string(..).ok()`).
    pub open spec fn text(&self) -> Option<Seq<char>> {
        match self {
            KeyValue::Text(s) => Some(s@),
            _ => None,
        }
    }

    /// The value as a string, or the empty string where it has none.
    pub open spec fn text_or_empty(&self) -> Seq<char> {
        match self {
            KeyValue::Text(s) => s@,
            _ => Seq::empty(),
        }
    }

    fn present(&self) -> (r: bool)
        ensures
            r == self.is_present(),
    {
        match self {
            KeyValue::Missing => false,
            _ => true,
        }
    }

    fn text_string(&self) -> (r: Option<String>)
        ensures
            r.deep_view() == self.text(),
    {
        match self {
            KeyValue::Text(s) => Some(s.clone()),
            _ => None,
        }
    }

    fn string_or_empty(&self) -> (r: String)
        ensures
            r@ == self.text_or_empty(),
    {
        match self {
            KeyValue::Text(s) => s.clone(),
            _ => String::new(),
        }
    }
}

/// The part of a ref file that the checks read: whether it has a
/// `[Flatpak Ref]` group, and that group's keys.
#[derive(Debug)]
pub struct RefKeyFile {
    pub has_ref_group: bool,
    /// `Title`
    pub title: KeyValue,
    /// `Name`: the application id.
    pub name: KeyValue,
    /// `RuntimeRepo`: the URL of the `.flatpakrepo` file of the remote.
    pub runtime_repo: KeyValue,
    /// `SuggestRemoteName`
    pub suggest_remote_name: KeyValue,
    /// `Description`
    pub description: KeyValue,
    /// `Icon`: an icon URL.
    pub icon: KeyValue,
}

/// Why a ref file could not be used.
#[derive(Debug, Clone, Copy, PartialEq, Eq, Structural)]
pub enum Error {
    UnableToReadFile,
    InvalidFile,
    /// Flathub could not be asked for the application's metadata; the HTTP
    /// status code.
    UnableToTalkToFlathub(i32),
}

/// A checked ref file.
#[derive(Debug)]
pub struct RefFileIni {
    from_flathub: bool,
    app_id: String,
    title: String,
    description: Option<String>,
    icon: Option<String>,
    remote_name: String,
}

/// The values of a `RefFileIni`.
pub struct RefFileModel {
    pub from_flathub: bool,
    pub app_id: Seq<char>,
    pub title: Seq<char>,
    pub description: Option<Seq<char>>,
    pub icon: Option<Seq<char>>,
    pub remote_name: Seq<char>,
}

impl View for RefFileIni {
    type V = RefFileModel;

    closed spec fn view(&self) -> RefFileModel {
        RefFileModel {
            from_flathub: self.from_flathub,
            app_id: self.app_id@,
            title: self.title@,
            description: self.description.deep_view(),
            icon: self.icon.deep_view(),
            remote_name: self.remote_name@,
        }
    }
}

/// The remotes whose applications Flathub describes.
pub open spec fn is_flathub_remote(remote_name: Seq<char>) -> bool {
    remote_name == "flathub"@ || remote_name == "flathub-beta"@
}

/// The remote name taken from a `.flatpakrepo` URL: its last path segment
/// without `.flatpakrepo`.
pub open spec fn default_remote_name(repo_url: Seq<char>) -> Seq<char> {
    remove_all(after_last(repo_url, '/'), ".flatpakrepo"@)
}

/// Where Flathub serves an application's appstream data.
pub open spec fn flathub_metadata_url(app_id: Seq<char>) -> Seq<char> {
    "https://flathub.org/api/v2/appstream/"@ + app_id
}

impl RefFileModel {
    /// What every checked ref file satisfies: it names an application and
    /// counts as coming from Flathub exactly when its remote is Flathub's.
    pub open spec fn wf(&self) -> bool {
        &&& self.app_id.len() > 0
        &&& self.from_flathub == is_flathub_remote(self.remote_name)
    }
}

/// What a ref file's `[Flatpak Ref]` group makes: `InvalidFile` without the
/// group, without one of `Title`, `Name` and `RuntimeRepo`, or when one of
/// them reads as empty; else the checked ref file.
pub open spec fn ref_model(kf: RefKeyFile) -> Result<RefFileModel, Error> {
    if !kf.has_ref_group || !kf.title.is_present() || !kf.name.is_present()
        || !kf.runtime_repo.is_present() {
        Err(Error::InvalidFile)
    } else {
        let title = kf.title.text_or_empty();
        let app_id = kf.name.text_or_empty();
        let repo_url = kf.runtime_repo.text_or_empty();
        let remote_name = match kf.suggest_remote_name {
            KeyValue::Text(s) => s@,
            _ => default_remote_name(repo_url),
        };
        if title.len() == 0 || app_id.len() == 0 || repo_url.len() == 0 {
            Err(Error::InvalidFile)
        } else {
            Ok(
                RefFileModel {
                    from_flathub: is_flathub_remote(remote_name),
                    app_id,
                    title,
                    description: kf.description.text(),
                    icon: kf.icon.text(),
                    remote_name,
                },
            )
        }
    }
}

/// A ref file after Flathub's reply: the metadata replaces the description
/// and the icon, and the title where it gives a name; a failed request is
/// `UnableToTalkToFlathub` with its status code.
pub open spec fn model_with_reply(m: RefFileModel, reply: FlathubReply) -> Result<
    RefFileModel,
    Error,
> {
    match reply {
        FlathubReply::Metadata(meta) => Ok(
            RefFileModel {
                title: match meta.name {
                    Some(n) => n@,
                    None => m.title,
                },
                description: meta.summary.deep_view(),
                icon: meta.icon.deep_view(),
                ..m
            },
        ),
        FlathubReply::Failed(code) => Err(Error::UnableToTalkToFlathub(code as i32)),
    }
}

/// What loading a ref file makes: `UnableToReadFile` when it could not be
/// loaded as a key file, else what its `[Flatpak Ref]` group makes.
pub open spec fn load_model(key_file: Option<&RefKeyFile>) -> Result<RefFileModel, Error> {
    match key_file {
        None => Err(Error::UnableToReadFile),
        Some(kf) => ref_model(*kf),
    }
}

impl RefFileIni {
    #[verifier::type_invariant]
    spec fn well_formed(&self) -> bool {
        self@.wf()
    }

    pub fn title(&self) -> (r: &str)
        ensures
            r@ == self@.title,
    {
        self.title.as_str()
    }

    pub fn app_id(&self) -> (r: &str)
        ensures
            r@ == self@.app_id,
    {
        self.app_id.as_str()
    }

    pub fn description(&self) -> (r: Option<&str>)
        ensures
            r.deep_view() == self@.description,
    {
        match &self.description {
            Some(s) => Some(s.as_str()),
            None => None,
        }
    }

    pub fn icon(&self) -> (r: Option<&str>)
        ensures
            r.deep_view() == self@.icon,
    {
        match &self.icon {
            Some(s) => Some(s.as_str()),
            None => None,
        }
    }

    pub fn remote_name(&self) -> (r: &str)
        ensures
            r@ == self@.remote_name,
    {
        self.remote_name.as_str()
    }

    pub fn from_flathub(&self) -> (r: bool)
        ensures
            r == self@.from_flathub,
    {
        self.from_flathub
    }

    /// Checks a loaded ref file's `[Flatpak Ref]` group and takes its values;
    /// `key_file` is `None` when the file could not be loaded as a key file.
    /// The remote is `SuggestRemoteName` where that reads as a string, else
    /// the last segment of `RuntimeRepo` without `.flatpakrepo`.
    pub fn new(key_file: Option<&RefKeyFile>) -> (r: Result<RefFileIni, Error>)
        ensures
            r matches Ok(f) ==> load_model(key_file) == Ok::<RefFileModel, Error>(f@) && f@.wf(),
            r matches Err(e) ==> load_model(key_file) == Err::<RefFileModel, Error>(e),
            r matches Ok(f) ==> key_file matches Some(kf) && (match kf.icon {
                KeyValue::Text(i) => f@.icon == Some(i@),
                _ => f@.icon is None,
            }) && (match kf.description {
                KeyValue::Text(d) => f@.description == Some(d@),
                _ => f@.description is None,
            }),
    {
        let key_file = match key_file {
            None => return Err(Error::UnableToReadFile),
            Some(kf) => kf,
        };
        if !key_file.has_ref_group {
            return Err(Error::InvalidFile);
        }
        if !key_file.title.present() || !key_file.name.present()
            || !key_file.runtime_repo.present() {
            return Err(Error::InvalidFile);
        }
        let title = key_file.title.string_or_empty();
        let app_id = key_file.name.string_or_empty();
        let remote_url = key_file.runtime_repo.string_or_empty();
        let remote_name = match &key_file.suggest_remote_name {
            KeyValue::Text(s) => s.clone(),
            _ => remove_occurrences(last_segment(remote_url.as_str(), '/'), ".flatpakrepo"),
        };
        if title.as_str().is_empty() || app_id.as_str().is_empty()
            || remote_url.as_str().is_empty() {
            return Err(Error::InvalidFile);
        }
        let from_flathub = remote_name == String::from_str("flathub") || remote_name
            == String::from_str("flathub-beta");
        let description = key_file.description.text_string();
        let icon = key_file.icon.text_string();
        Ok(RefFileIni { title, app_id, remote_name, from_flathub, description, icon })
    }

    /// The address to ask for the application's appstream data: only a ref
    /// from Flathub is completed this way.
    pub fn flathub_metadata_url(&self) -> (r: Option<String>)
        ensures
            r is Some <==> self@.from_flathub,
            r matches Some(u) ==> u@ == flathub_metadata_url(self@.app_id),
    {
        if self.from_flathub {
            let mut url = String::from_str("https://flathub.org/api/v2/appstream/");
            url.append(self.app_id.as_str());
            Some(url)
        } else {
            None
        }
    }

    /// Folds Flathub's reply into the ref file.
    pub fn with_flathub_reply(self, reply: FlathubReply) -> (r: Result<RefFileIni, Error>)
        ensures
            r matches Ok(f) ==> model_with_reply(self@, reply) == Ok::<RefFileModel, Error>(f@)
                && f@.wf(),
            r matches Err(e) ==> model_with_reply(self@, reply) == Err::<RefFileModel, Error>(e),
            reply matches FlathubReply::Metadata(meta) ==> r matches Ok(f) && f@.app_id
                == self@.app_id && f@.remote_name == self@.remote_name && f@.from_flathub
                == self@.from_flathub && (match meta.summary {
                Some(d) => f@.description == Some(d@),
                None => f@.description is None,
            }) && (match meta.icon {
                Some(i) => f@.icon == Some(i@),
                None => f@.icon is None,
            }) && (match meta.name {
                Some(n) => f@.title == n@,
                None => f@.title == self@.title,
            }),
            reply matches FlathubReply::Failed(code) ==> r == Err::<RefFileIni, Error>(
                Error::UnableToTalkToFlathub(code as i32),
            ),
    {
        proof {
            use_type_invariant(&self);
        }
        match reply {
            FlathubReply::Metadata(FlathubMetadata { summary, icon, name }) => {
                let title = match name {
                    Some(n) => n,
                    None => self.title,
                };
                Ok(
                    RefFileIni {
                        title,
                        app_id: self.app_id,
                        remote_name: self.remote_name,
                        from_flathub: self.from_flathub,
                        description: summary,
                        icon,
                    },
                )
            },
            FlathubReply::Failed(code) => Err(Error::UnableToTalkToFlathub(code as i32)),
        }
    }
}

/// Every ref file that `RefFileIni::new` accepts is well formed and has a
/// title.
pub proof fn law_checked_ref_is_well_formed(key_file: Option<&RefKeyFile>)
    ensures
        load_model(key_file) matches Ok(m) ==> m.wf() && m.title.len() > 0,
{
}

/// Folding in Flathub's reply keeps the application, the remote and whether
/// it is Flathub's, and so keeps a ref file well formed.
pub proof fn law_reply_keeps_identity(m: RefFileModel, reply: FlathubReply)
    ensures
        model_with_reply(m, reply) matches Ok(m2) ==> {
            &&& m2.app_id == m.app_id
            &&& m2.remote_name == m.remote_name
            &&& m2.from_flathub == m.from_flathub
            &&& (m.wf() ==> m2.wf())
        },
{
}

/// A remote name taken from a repository URL never holds a `/`.
pub proof fn law_default_remote_name_has_no_slash(repo_url: Seq<char>)
    ensures
        !has_char(default_remote_name(repo_url), '/'),
{
    lemma_after_last_has_no_sep(repo_url, '/');
    lemma_remove_all_keeps_absent_char(after_last(repo_url, '/'), ".flatpakrepo"@, '/');
}

/// Loading fails with `UnableToReadFile` exactly when there is no key file.
pub proof fn law_unloadable_file(key_file: Option<&RefKeyFile>)
    ensures
        (load_model(key_file) == Err::<RefFileModel, Error>(Error::UnableToReadFile))
            <==> key_file is None,
{
}

/// A `[Flatpak Ref]` group is accepted exactly when it is there and its
/// `Title`, `Name` and `RuntimeRepo` read as non-empty strings; every other
/// group is `InvalidFile`.
pub proof fn law_accepted_groups(kf: RefKeyFile)
    ensures
        ref_model(kf) is Ok <==> {
            &&& kf.has_ref_group
            &&& kf.title matches KeyValue::Text(t) && t@.len() > 0
            &&& kf.name matches KeyValue::Text(n) && n@.len() > 0
            &&& kf.runtime_repo matches KeyValue::Text(u) && u@.len() > 0
        },
        ref_model(kf) is Err ==> ref_model(kf) == Err::<RefFileModel, Error>(Error::InvalidFile),
{
}

/// Each value of an accepted ref comes from its own key: the title from
/// `Title`, the application id from `Name`, the remote from
/// `SuggestRemoteName` when that reads as a string (else from
/// `RuntimeRepo`), the description from `Description` and the icon from
/// `Icon`, each `None` when its key does not read as a string.
pub proof fn law_values_come_from_their_keys(kf: RefKeyFile)
    ensures
        ref_model(kf) matches Ok(m) ==> {
            &&& kf.title matches KeyValue::Text(t) && m.title == t@
            &&& kf.name matches KeyValue::Text(n) && m.app_id == n@
            &&& kf.runtime_repo matches KeyValue::Text(u) && (match kf.suggest_remote_name {
                KeyValue::Text(r) => m.remote_name == r@,
                _ => m.remote_name == default_remote_name(u@),
            })
            &&& match kf.description {
                KeyValue::Text(d) => m.description == Some(d@),
                _ => m.description is None,
            }
            &&& match kf.icon {
                KeyValue::Text(i) => m.icon == Some(i@),
                _ => m.icon is None,
            }
            &&& m.from_flathub == (m.remote_name == "flathub"@ || m.remote_name
                == "flathub-beta"@)
        },
{
}

/// Flathub's metadata always folds in: its summary becomes the
/// description and its icon the icon, whatever the ref had before; its name
/// becomes the title when it gives one, else the title stays.
pub proof fn law_metadata_reply(m: RefFileModel, meta: FlathubMetadata)
    ensures
        model_with_reply(m, FlathubReply::Metadata(meta)) matches Ok(m2) && {
            &&& match meta.summary {
                Some(d) => m2.description == Some(d@),
                None => m2.description is None,
            }
            &&& match meta.icon {
                Some(i) => m2.icon == Some(i@),
                None => m2.icon is None,
            }
            &&& match meta.name {
                Some(n) => m2.title == n@,
                None => m2.title == m.title,
            }
        },
{
}

/// A failed request to Flathub is an error carrying its status code.
pub proof fn law_failed_reply(m: RefFileModel, code: u16)
    ensures
        model_with_reply(m, FlathubReply::Failed(code)) == Err::<RefFileModel, Error>(
            Error::UnableToTalkToFlathub(code as i32),
        ),
{
}

/// The address asked for an application is Flathub's appstream API path
/// followed by exactly the application id.
pub proof fn law_metadata_url(app_id: Seq<char>)
    ensures
        flathub_metadata_url(app_id).len() == "https://flathub.org/api/v2/appstream/"@.len()
            + app_id.len(),
        flathub_metadata_url(app_id).take("https://flathub.org/api/v2/appstream/"@.len() as int)
            == "https://flathub.org/api/v2/appstream/"@,
        flathub_metadata_url(app_id).skip("https://flathub.org/api/v2/appstream/"@.len() as int)
            == app_id,
{
    let p = "https://flathub.org/api/v2/appstream/"@;
    assert((p + app_id).take(p.len() as int) =~= p);
    assert((p + app_id).skip(p.len() as int) =~= app_id);
}

/// The remote taken from a repository URL `<anything>/<name>.flatpakrepo`
/// is `<name>`, for a name without `/` in which no `.flatpakrepo` begins.
pub proof fn law_default_remote_name_of_repo_file(prefix: Seq<char>, name: Seq<char>)
    requires
        !has_char(name, '/'),
        forall|i: int| 0 <= i < name.len() ==> !occurs_in_at(name + ".flatpakrepo"@, ".flatpakrepo"@, i),
    ensures
        default_remote_name(prefix + seq!['/'] + (name + ".flatpakrepo"@)) == name,
{
    let pat = ".flatpakrepo"@;
    reveal_strlit(".flatpakrepo");
    let seg = name + pat;
    assert forall|i: int| 0 <= i < seg.len() implies seg[i] != '/' by {
        if i >= name.len() {
            assert(seg[i] == pat[i - name.len()]);
        }
    }
    lemma_after_last_of_tail(prefix, '/', seg);
    lemma_remove_all_keeps_free_prefix(seg, pat, name.len() as int);
    assert(seg.take(name.len() as int) =~= name);
    assert(seg.skip(name.len() as int) =~= pat + Seq::<char>::empty());
    law_remove_all_front_occurrence(pat, Seq::<char>::empty());
    assert(remove_all(Seq::<char>::empty(), pat) =~= Seq::<char>::empty());
    assert(name + Seq::<char>::empty() =~= name);
}

} // verus!
