//! Small verified string helpers shared across the crate.

use vstd::prelude::*;

verus! {

/// Compares two strings character by character.
pub fn str_eq(a: &str, b: &str) -> (r: bool)
    ensures
        r == (a@ == b@),
{
    let a_len = a.unicode_len();
    let b_len = b.unicode_len();
    if a_len != b_len {
        return false;
    }
    let mut i: usize = 0;
    while i < a_len
        invariant
            a_len == a@.len(),
            a_len == b@.len(),
            0 <= i <= a_len,
            forall|j: int| 0 <= j < i ==> a@[j] == b@[j],
        decreases a_len - i,
    {
        if a.get_char(i) != b.get_char(i) {
            return false;
        }
        i = i + 1;
    }
    proof {
        assert(a@ =~= b@);
    }
    true
}

/// Whether `s` starts with `prefix`.
pub open spec fn starts_with_spec(s: Seq<char>, prefix: Seq<char>) -> bool {
    prefix.len() <= s.len() && s.take(prefix.len() as int) == prefix
}

/// Decides whether `s` starts with `prefix`.
pub fn starts_with(s: &str, prefix: &str) -> (r: bool)
    ensures
        r == starts_with_spec(s@, prefix@),
{
    let p_len = prefix.unicode_len();
    let s_len = s.unicode_len();
    if p_len > s_len {
        proof {
            assert(!starts_with_spec(s@, prefix@));
        }
        return false;
    }
    let mut i: usize = 0;
    while i < p_len
        invariant
            p_len == prefix@.len(),
            s_len == s@.len(),
            p_len <= s_len,
            0 <= i <= p_len,
            forall|j: int| 0 <= j < i ==> s@[j] == prefix@[j],
        decreases p_len - i,
    {
        if s.get_char(i) != prefix.get_char(i) {
            proof {
                assert(s@.take(p_len as int)[i as int] != prefix@[i as int]);
            }
            return false;
        }
        i = i + 1;
    }
    proof {
        assert(s@.take(p_len as int) =~= prefix@);
    }
    true
}

/// `s` with every leading repetition of `prefix` removed.
pub open spec fn strip_all_prefix_spec(s: Seq<char>, prefix: Seq<char>) -> Seq<char>
    decreases s.len(),
{
    if prefix.len() > 0 && starts_with_spec(s, prefix) {
        strip_all_prefix_spec(s.skip(prefix.len() as int), prefix)
    } else {
        s
    }
}

/// Removes every leading repetition of `prefix` from `s`.
pub fn strip_all_prefix<'a>(s: &'a str, prefix: &str) -> (r: &'a str)
    ensures
        r@ == strip_all_prefix_spec(s@, prefix@),
{
    let p_len = prefix.unicode_len();
    let mut cur = s;
    if p_len == 0 {
        return cur;
    }
    let mut repeats = starts_with(cur, prefix);
    while repeats
        invariant
            p_len == prefix@.len(),
            p_len > 0,
            repeats == starts_with_spec(cur@, prefix@),
            strip_all_prefix_spec(s@, prefix@) == strip_all_prefix_spec(cur@, prefix@),
        decreases cur@.len(),
    {
        let cur_len = cur.unicode_len();
        cur = cur.substring_char(p_len, cur_len);
        repeats = starts_with(cur, prefix);
    }
    cur
}

} // verus!
