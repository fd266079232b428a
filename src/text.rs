//! Comparing strings by their characters.
use vstd::prelude::*;

verus! {

/// Whether two strings hold the same characters.
pub fn str_equals(a: &str, b: &str) -> (r: bool)
    ensures
        r == (a@ == b@),
{
    let n = a.unicode_len();
    if n != b.unicode_len() {
        return false;
    }
    let mut i: usize = 0;
    while i < n
        invariant
            n == a@.len(),
            n == b@.len(),
            i <= n,
            forall|j: int| 0 <= j < i ==> a@[j] == b@[j],
        decreases n - i,
    {
        if a.get_char(i) != b.get_char(i) {
            return false;
        }
        i = i + 1;
    }
    assert(a@ =~= b@);
    true
}

/// Whether an optional setting is present and holds exactly `t`.
pub open spec fn holds_text(s: Option<&str>, t: Seq<char>) -> bool {
    s is Some && s->Some_0@ == t
}

/// Whether an optional setting is present and holds exactly the text `t`.
pub fn setting_is(s: Option<&str>, t: &str) -> (r: bool)
    ensures
        r == holds_text(s, t@),
{
    match s {
        Some(v) => str_equals(v, t),
        None => false,
    }
}

} // verus!
