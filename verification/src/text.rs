//! Texts as sequences of characters.

use vstd::prelude::*;
use vstd::string::*;

verus! {

/// The texts of a list of strings.
pub open spec fn spec_texts(strings: Seq<String>) -> Seq<Seq<char>> {
    strings.map_values(|s: String| s@)
}

/// Whether `name` begins with `prefix`.
pub open spec fn spec_has_prefix(name: Seq<char>, prefix: Seq<char>) -> bool {
    prefix.len() <= name.len() && name.subrange(0, prefix.len() as int) == prefix
}

/// Tests whether `name` begins with `prefix`.
pub fn has_prefix(name: &str, prefix: &str) -> (yes: bool)
    ensures
        yes == spec_has_prefix(name@, prefix@),
{
    let prefix_len = prefix.unicode_len();
    if name.unicode_len() < prefix_len {
        return false;
    }
    let mut i: usize = 0;
    while i < prefix_len
        invariant
            prefix_len == prefix@.len(),
            prefix_len <= name@.len(),
            i <= prefix_len,
            forall|j: int| 0 <= j < i ==> name@[j] == prefix@[j],
        decreases prefix_len - i,
    {
        if name.get_char(i) != prefix.get_char(i) {
            return false;
        }
        i = i + 1;
    }
    proof {
        assert(name@.subrange(0, prefix_len as int) =~= prefix@);
    }
    true
}

} // verus!
