//! Which directories of earlier versions may be removed, and when a download
//! is needed at all.

use crate::layout::{
    lemma_version_dir_injective, spec_binary_name, spec_expected_binary_path, spec_version_dir,
    spec_version_dir_prefix, version_dir_prefix,
};
use crate::paths::{
    lemma_last_separator, lemma_last_separator_is, parent_dir_name, spec_final_component,
    spec_parent, spec_parent_dir_name,
};
use crate::platform::Os;
use crate::text::{has_prefix, spec_has_prefix, spec_texts};
use vstd::prelude::*;
use vstd::string::*;

verus! {

/// Whether a directory entry called `name` is the directory of a version
/// other than the one kept in `version_dir`.
pub open spec fn spec_is_stale(name: Seq<char>, version_dir: Seq<char>) -> bool {
    spec_has_prefix(name, spec_version_dir_prefix()) && name != version_dir
}

/// The entries of `names` that are stale, in the order in which they were listed.
pub open spec fn spec_stale_entries(names: Seq<Seq<char>>, version_dir: Seq<char>) -> Seq<
    Seq<char>,
> {
    names.filter(|name: Seq<char>| spec_is_stale(name, version_dir))
}

/// Whether the binary has to be downloaded: it is missing, or the directory
/// that holds it is not the version directory.
pub open spec fn spec_needs_download(
    binary_present: bool,
    binary_path: Seq<char>,
    version_dir: Seq<char>,
) -> bool {
    !binary_present || spec_parent_dir_name(binary_path) != version_dir
}

/// Tests whether the entry `name` is the directory of a version other than
/// the one kept in `version_dir`.
pub fn is_stale_version_dir(name: &str, version_dir: &str) -> (stale: bool)
    ensures
        stale == spec_is_stale(name@, version_dir@),
{
    has_prefix(name, version_dir_prefix()) && name.to_owned() != version_dir.to_owned()
}

/// Picks from a directory listing the entries to remove before `version_dir`
/// is filled, keeping their order.
pub fn stale_version_dirs(entries: &Vec<String>, version_dir: &str) -> (stale: Vec<String>)
    ensures
        spec_texts(stale@) == spec_stale_entries(spec_texts(entries@), version_dir@),
{
    let ghost pred = |name: Seq<char>| spec_is_stale(name, version_dir@);
    let ghost all = spec_texts(entries@);
    let mut stale: Vec<String> = Vec::new();
    let mut i: usize = 0;
    while i < entries.len()
        invariant
            i <= entries@.len(),
            all == spec_texts(entries@),
            pred == |name: Seq<char>| spec_is_stale(name, version_dir@),
            spec_texts(stale@) == all.take(i as int).filter(pred),
        decreases entries@.len() - i,
    {
        if is_stale_version_dir(entries[i].as_str(), version_dir) {
            stale.push(entries[i].clone());
        }
        proof {
            assert(all.take(i + 1) =~= all.take(i as int).push(all[i as int]));
            all.take(i as int).lemma_filter_push(all[i as int], pred);
        }
        i = i + 1;
    }
    proof {
        assert(all.take(entries@.len() as int) =~= all);
    }
    stale
}

/// Decides whether the binary has to be downloaded.
pub fn needs_download(binary_present: bool, binary_path: &str, version_dir: &str) -> (needed: bool)
    ensures
        needed == spec_needs_download(binary_present, binary_path@, version_dir@),
{
    if binary_present {
        parent_dir_name(binary_path) != version_dir.to_owned()
    } else {
        true
    }
}

/// An entry is picked for removal exactly if it was listed and is stale.
pub proof fn lemma_stale_entries(names: Seq<Seq<char>>, version_dir: Seq<char>, name: Seq<char>)
    ensures
        spec_stale_entries(names, version_dir).contains(name) <==> names.contains(name)
            && spec_is_stale(name, version_dir),
{
    let pred = |entry: Seq<char>| spec_is_stale(entry, version_dir);
    let stale = spec_stale_entries(names, version_dir);
    if stale.contains(name) {
        let at = choose|i: int| 0 <= i < stale.len() && stale[i] == name;
        names.lemma_filter_pred(pred, at);
        names.lemma_filter_contains_rev(pred, name);
    }
    if names.contains(name) && spec_is_stale(name, version_dir) {
        let at = choose|i: int| 0 <= i < names.len() && names[i] == name;
        names.lemma_filter_contains(pred, at);
    }
}

/// The directory of one version is stale once another version is kept.
pub proof fn lemma_other_version_dir_is_stale(other: Seq<char>, kept: Seq<char>)
    requires
        other != kept,
    ensures
        spec_is_stale(spec_version_dir(other), spec_version_dir(kept)),
        !spec_is_stale(spec_version_dir(kept), spec_version_dir(kept)),
{
    let prefix = spec_version_dir_prefix();
    lemma_version_dir_injective(other, kept);
    assert(spec_version_dir(other).subrange(0, prefix.len() as int) =~= prefix);
}

/// The binary's directory is the version directory exactly when the version
/// holds no `/`: only then nothing is downloaded for a binary that is present.
pub proof fn lemma_needs_download(binary_present: bool, version: Seq<char>, os: Os)
    ensures
        spec_needs_download(
            binary_present,
            spec_expected_binary_path(version, os),
            spec_version_dir(version),
        ) <==> !binary_present || version.contains('/'),
{
    reveal_strlit("quickmark-server-");
    reveal_strlit("quickmark-server");
    reveal_strlit("quickmark-server.exe");
    reveal_strlit("/");
    let prefix = spec_version_dir_prefix();
    let dir = spec_version_dir(version);
    let path = spec_expected_binary_path(version, os);
    lemma_last_separator_is(path, dir.len() as int);
    assert(spec_parent(path) =~= dir);
    lemma_last_separator(dir);
    if version.contains('/') {
        let at = choose|i: int| 0 <= i < version.len() && version[i] == '/';
        assert(dir[prefix.len() + at] == '/');
    } else {
        assert(spec_final_component(dir) =~= dir);
    }
}

} // verus!
