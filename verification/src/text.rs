//! Comparisons of texts, character by character.

use vstd::prelude::*;

verus! {

/// Whether `text` starts with `prefix`.
pub(crate) fn starts_with(text: &str, prefix: &str) -> (yes: bool)
    ensures
        yes == prefix@.is_prefix_of(text@),
{
    let wanted = prefix.unicode_len();
    if text.unicode_len() < wanted {
        return false;
    }
    let mut i: usize = 0;
    while i < wanted
        invariant
            i <= wanted,
            wanted == prefix@.len(),
            wanted <= text@.len(),
            forall|j: int| 0 <= j < i ==> text@[j] == prefix@[j],
        decreases wanted - i,
    {
        if text.get_char(i) != prefix.get_char(i) {
            assert(prefix@.subrange(0, wanted as int)[i as int] == prefix@[i as int]);
            assert(text@.subrange(0, wanted as int)[i as int] == text@[i as int]);
            return false;
        }
        i += 1;
    }
    assert(prefix@ =~= text@.subrange(0, wanted as int));
    true
}

/// Whether the two texts are the same.
pub(crate) fn same_text(first: &str, second: &str) -> (yes: bool)
    ensures
        yes == (first@ == second@),
{
    if first.unicode_len() != second.unicode_len() {
        return false;
    }
    let same = starts_with(first, second);
    assert(second@.is_prefix_of(first@) <==> second@ =~= first@);
    same
}

} // verus!
