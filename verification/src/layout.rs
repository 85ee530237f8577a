//! Names, paths and URLs derived from the pinned server version.

use crate::platform::Os;
use vstd::prelude::*;
use vstd::string::*;

verus! {

/// The version that is installed when the build configures none.
pub open spec fn spec_default_version() -> Seq<char> {
    "1.1.0"@
}

/// The version to install: the configured one, or the default.
pub open spec fn spec_pinned_version(configured: Option<Seq<char>>) -> Seq<char> {
    match configured {
        Some(version) => version,
        None => spec_default_version(),
    }
}

/// What every version directory's name starts with.
pub open spec fn spec_version_dir_prefix() -> Seq<char> {
    "quickmark-server-"@
}

/// The directory, below the working directory, that holds `version`.
pub open spec fn spec_version_dir(version: Seq<char>) -> Seq<char> {
    spec_version_dir_prefix() + version
}

/// The file name of the server binary on `os`.
pub open spec fn spec_binary_name(os: Os) -> Seq<char> {
    match os {
        Os::Windows => "quickmark-server.exe"@,
        _ => "quickmark-server"@,
    }
}

/// Where the binary of `version` is expected, relative to the working directory.
pub open spec fn spec_expected_binary_path(version: Seq<char>, os: Os) -> Seq<char> {
    spec_version_dir(version) + "/"@ + spec_binary_name(os)
}

/// The release tag under which `version` is published.
pub open spec fn spec_version_tag(version: Seq<char>) -> Seq<char> {
    "quickmark-server@"@ + version
}

/// The address from which `asset` of `version` is downloaded.
pub open spec fn spec_download_url(version: Seq<char>, asset: Seq<char>) -> Seq<char> {
    "https://github.com/ekropotin/quickmark/releases/download/"@ + spec_version_tag(version) + "/"@
        + asset
}

/// Picks the version to install from what the build configured.
pub fn pinned_version(configured: Option<String>) -> (version: String)
    ensures
        version@ == spec_pinned_version(
            match configured {
                Some(v) => Some(v@),
                None => None,
            },
        ),
{
    match configured {
        Some(version) => version,
        None => String::from_str("1.1.0"),
    }
}

/// What every version directory's name starts with.
pub fn version_dir_prefix() -> (prefix: &'static str)
    ensures
        prefix@ == spec_version_dir_prefix(),
{
    "quickmark-server-"
}

/// Names the directory that holds `version`.
pub fn version_dir(version: &str) -> (dir: String)
    ensures
        dir@ == spec_version_dir(version@),
{
    let mut dir = String::from_str(version_dir_prefix());
    dir.append(version);
    dir
}

/// Names the server binary on `os`.
pub fn binary_name(os: Os) -> (name: &'static str)
    ensures
        name@ == spec_binary_name(os),
{
    match os {
        Os::Windows => "quickmark-server.exe",
        _ => "quickmark-server",
    }
}

/// Builds the path at which the binary of `version` is expected.
pub fn expected_binary_path(version: &str, os: Os) -> (path: String)
    ensures
        path@ == spec_expected_binary_path(version@, os),
{
    let mut path = version_dir(version);
    path.append("/");
    path.append(binary_name(os));
    path
}

/// Builds the release tag of `version`.
pub fn version_tag(version: &str) -> (tag: String)
    ensures
        tag@ == spec_version_tag(version@),
{
    let mut tag = String::from_str("quickmark-server@");
    tag.append(version);
    tag
}

/// Builds the download address of `asset` in the release of `version`.
pub fn download_url(version: &str, asset: &str) -> (url: String)
    ensures
        url@ == spec_download_url(version@, asset@),
{
    let mut url = String::from_str("https://github.com/ekropotin/quickmark/releases/download/");
    let tag = version_tag(version);
    url.append(tag.as_str());
    url.append("/");
    url.append(asset);
    url
}

/// Two versions never share a version directory.
pub proof fn lemma_version_dir_injective(first: Seq<char>, second: Seq<char>)
    ensures
        spec_version_dir(first) == spec_version_dir(second) <==> first == second,
{
    let prefix = spec_version_dir_prefix();
    if spec_version_dir(first) == spec_version_dir(second) {
        assert(first =~= spec_version_dir(first).subrange(
            prefix.len() as int,
            spec_version_dir(first).len() as int,
        ));
        assert(second =~= spec_version_dir(second).subrange(
            prefix.len() as int,
            spec_version_dir(second).len() as int,
        ));
    }
}

/// On one operating system, two versions never share a binary path.
pub proof fn lemma_expected_binary_path_injective(first: Seq<char>, second: Seq<char>, os: Os)
    ensures
        spec_expected_binary_path(first, os) == spec_expected_binary_path(second, os) <==> first
            == second,
{
    let tail = "/"@ + spec_binary_name(os);
    let one = spec_expected_binary_path(first, os);
    let other = spec_expected_binary_path(second, os);
    if one == other {
        assert(spec_version_dir(first) =~= one.subrange(0, one.len() - tail.len()));
        assert(spec_version_dir(second) =~= other.subrange(0, other.len() - tail.len()));
        lemma_version_dir_injective(first, second);
    }
}

} // verus!
