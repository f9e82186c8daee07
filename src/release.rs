//! Releases of the language server, and the errors of a resolution.

use vstd::prelude::*;

verus! {

/// One downloadable file of a release.
#[derive(Debug)]
pub struct AssetRef {
    pub name: String,
    pub download_url: String,
}

/// The latest release of the upstream repository: its tag and its assets.
#[derive(Debug)]
pub struct ReleaseInfo {
    pub version: String,
    pub assets: Vec<AssetRef>,
}

/// Why a resolution failed. Each variant keeps the underlying cause.
#[derive(Debug)]
pub enum ResolveError {
    /// The release feed could not be queried, or an asset could not be downloaded.
    Network(String),
    /// The release tag holds no version number; it carries the tag.
    VersionParse(String),
    /// No asset of the release has the expected name; it carries that name.
    AssetNotFound(String),
    /// Installing the package's dependencies failed.
    DependencyInstall(String),
    /// Writing a file of the installation failed.
    Filesystem(String),
}

/// A message for the user: what went wrong, followed by the cause.
pub open spec fn message_spec(e: ResolveError) -> Seq<char> {
    match e {
        ResolveError::Network(c) => "network error: "@ + c@,
        ResolveError::VersionParse(c) => "release tag holds no version: "@ + c@,
        ResolveError::AssetNotFound(c) => "no asset found matching "@ + c@,
        ResolveError::DependencyInstall(c) => "failed to install dependencies: "@ + c@,
        ResolveError::Filesystem(c) => "filesystem error: "@ + c@,
    }
}

impl ResolveError {
    /// A message for the user.
    pub fn message(&self) -> (r: String)
        ensures
            r@ == message_spec(*self),
    {
        let (prefix, cause) = match self {
            ResolveError::Network(c) => ("network error: ", c),
            ResolveError::VersionParse(c) => ("release tag holds no version: ", c),
            ResolveError::AssetNotFound(c) => ("no asset found matching ", c),
            ResolveError::DependencyInstall(c) => ("failed to install dependencies: ", c),
            ResolveError::Filesystem(c) => ("filesystem error: ", c),
        };
        let mut s = String::from_str(prefix);
        s.append(cause.as_str());
        s
    }
}

/// The version number of a tag: the tag without its leading `v`, if it has one.
pub open spec fn version_number_spec(tag: Seq<char>) -> Seq<char> {
    if tag.len() > 0 && tag[0] == 'v' {
        tag.subrange(1, tag.len() as int)
    } else {
        tag
    }
}

/// The version number of a release tag (`v4.0.13` gives `4.0.13`). A tag
/// with nothing but a leading `v`, or an empty one, holds no version number.
pub fn version_number(tag: &str) -> (r: Result<String, ResolveError>)
    ensures
        version_number_spec(tag@).len() > 0 ==> (r is Ok && r->Ok_0@ == version_number_spec(tag@)),
        version_number_spec(tag@).len() == 0 ==> (r is Err && r->Err_0 is VersionParse
            && r->Err_0->VersionParse_0@ == tag@),
{
    let n = tag.unicode_len();
    let start: usize = if n > 0 && tag.get_char(0) == 'v' {
        1
    } else {
        0
    };
    if start == n {
        return Err(ResolveError::VersionParse(String::from_str(tag)));
    }
    let v = tag.substring_char(start, n);
    assert(start == 0 ==> tag@.subrange(0, n as int) =~= tag@);
    Ok(String::from_str(v))
}

/// Whether `i` is the first position in `assets` of an asset named `name`.
pub open spec fn first_match(assets: Seq<AssetRef>, name: Seq<char>, i: int) -> bool {
    &&& 0 <= i < assets.len()
    &&& assets[i].name@ == name
    &&& forall|j: int| 0 <= j < i ==> assets[j].name@ != name
}

/// Whether some asset in `assets` is named `name`.
pub open spec fn has_asset(assets: Seq<AssetRef>, name: Seq<char>) -> bool {
    exists|j: int| 0 <= j < assets.len() && assets[j].name@ == name
}

/// The position of the first asset whose name equals `name` exactly; when
/// there is none, `AssetNotFound` with that name.
pub fn find_asset(assets: &Vec<AssetRef>, name: &String) -> (r: Result<usize, ResolveError>)
    ensures
        has_asset(assets@, name@) <==> r is Ok,
        r is Ok ==> first_match(assets@, name@, r->Ok_0 as int),
        r is Err ==> (r->Err_0 is AssetNotFound && r->Err_0->AssetNotFound_0@ == name@),
{
    let mut i: usize = 0;
    while i < assets.len()
        invariant
            i <= assets@.len(),
            forall|j: int| 0 <= j < i ==> assets@[j].name@ != name@,
        decreases assets@.len() - i,
    {
        if assets[i].name == *name {
            return Ok(i);
        }
        i = i + 1;
    }
    Err(ResolveError::AssetNotFound(name.clone()))
}

} // verus!
