//! Components of `/`-separated relative paths.

use vstd::prelude::*;
use vstd::string::*;

verus! {

/// The index of the last `/` in `path`, or `-1` if it holds none.
pub open spec fn spec_last_separator(path: Seq<char>) -> int
    decreases path.len(),
{
    if path.len() == 0 {
        -1
    } else if path.last() == '/' {
        path.len() - 1
    } else {
        spec_last_separator(path.drop_last())
    }
}

/// What follows the last `/` of `path`; all of `path` if it holds none.
pub open spec fn spec_final_component(path: Seq<char>) -> Seq<char> {
    path.subrange(spec_last_separator(path) + 1, path.len() as int)
}

/// What precedes the last `/` of `path`; nothing if it holds none.
pub open spec fn spec_parent(path: Seq<char>) -> Seq<char> {
    if spec_last_separator(path) < 0 {
        Seq::empty()
    } else {
        path.subrange(0, spec_last_separator(path))
    }
}

/// The name of the directory that directly holds the file at `path`.
pub open spec fn spec_parent_dir_name(path: Seq<char>) -> Seq<char> {
    spec_final_component(spec_parent(path))
}

/// `spec_last_separator` finds a `/` after which none follows, or reports
/// `-1` where there is none at all.
pub proof fn lemma_last_separator(path: Seq<char>)
    ensures
        -1 <= spec_last_separator(path) < path.len(),
        spec_last_separator(path) >= 0 ==> path[spec_last_separator(path)] == '/',
        forall|i: int| spec_last_separator(path) < i < path.len() ==> path[i] != '/',
    decreases path.len(),
{
    if path.len() > 0 && path.last() != '/' {
        let front = path.drop_last();
        lemma_last_separator(front);
        assert forall|i: int| spec_last_separator(path) < i < path.len() implies path[i] != '/' by {
            if i < front.len() {
                assert(front[i] == path[i]);
            }
        }
    }
}

/// A `/` at `at` with none behind it is the last separator.
pub proof fn lemma_last_separator_is(path: Seq<char>, at: int)
    requires
        -1 <= at < path.len(),
        at >= 0 ==> path[at] == '/',
        forall|i: int| at < i < path.len() ==> path[i] != '/',
    ensures
        spec_last_separator(path) == at,
{
    lemma_last_separator(path);
}

/// Finds the last `/` of `path`.
pub fn last_separator(path: &str) -> (at: Option<usize>)
    ensures
        match at {
            Some(i) => spec_last_separator(path@) == i,
            None => spec_last_separator(path@) == -1,
        },
{
    let len = path.unicode_len();
    let mut i = len;
    while i > 0
        invariant
            len == path@.len(),
            i <= len,
            forall|j: int| i <= j < len ==> path@[j] != '/',
        decreases i,
    {
        i = i - 1;
        if path.get_char(i) == '/' {
            proof {
                lemma_last_separator_is(path@, i as int);
            }
            return Some(i);
        }
    }
    proof {
        lemma_last_separator_is(path@, -1);
    }
    None
}

/// Names the directory that directly holds the file at `path`.
pub fn parent_dir_name(path: &str) -> (name: String)
    ensures
        name@ == spec_parent_dir_name(path@),
{
    match last_separator(path) {
        None => String::new(),
        Some(end) => {
            proof {
                lemma_last_separator(path@);
            }
            let parent = path.substring_char(0, end);
            let parent_len = parent.unicode_len();
            proof {
                lemma_last_separator(parent@);
            }
            let start = match last_separator(parent) {
                None => 0,
                Some(i) => i + 1,
            };
            String::from_str(parent.substring_char(start, parent_len))
        },
    }
}

} // verus!
