//! Comparisons on text, each walking its characters once.

use vstd::prelude::*;
use vstd::std_specs::iter::IteratorSpec;

verus! {

/// Whether `text` holds the character `wanted`.
pub fn contains_char(text: &str, wanted: char) -> (found: bool)
    ensures
        found == text@.contains(wanted),
{
    let mut found = false;
    for c in it: text.chars()
        invariant
            it.seq() == text@,
            found == text@.take(it.index() as int).contains(wanted),
    {
        proof {
            let at = it.index() as int;
            let before = text@.take(at);
            let after = text@.take(at + 1);
            assert(after == before.push(c));
            if before.contains(wanted) {
                let j = choose|j: int| 0 <= j < before.len() && before[j] == wanted;
                assert(after[j] == wanted);
            }
            if c == wanted {
                assert(after[at] == wanted);
            }
            if after.contains(wanted) && c != wanted {
                let j = choose|j: int| 0 <= j < after.len() && after[j] == wanted;
                assert(before[j] == wanted);
            }
        }
        if c == wanted {
            found = true;
        }
    }
    assert(text@.take(text@.len() as int) == text@);
    found
}

/// Whether `left` and `right` hold the same characters in the same order.
pub fn same_text(left: &str, right: &str) -> (same: bool)
    ensures
        same == (left@ == right@),
{
    let mut l = left.chars();
    let mut r = right.chars();
    let ghost mut seen: int = 0;
    loop
        invariant
            0 <= seen <= left@.len(),
            seen <= right@.len(),
            l.remaining() == left@.skip(seen),
            r.remaining() == right@.skip(seen),
            left@.take(seen) == right@.take(seen),
        decreases left@.len() - seen,
    {
        let a = l.next();
        let b = r.next();
        match (a, b) {
            (None, None) => {
                assert(left@ == left@.take(seen));
                assert(right@ == right@.take(seen));
                return true;
            },
            (Some(x), Some(y)) => {
                if x != y {
                    assert(left@[seen] != right@[seen]);
                    return false;
                }
                proof {
                    assert(left@.take(seen + 1) == left@.take(seen).push(x));
                    assert(right@.take(seen + 1) == right@.take(seen).push(y));
                    seen = seen + 1;
                }
            },
            _ => {
                assert(left@.len() != right@.len());
                return false;
            },
        }
    }
}

} // verus!
