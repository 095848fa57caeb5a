use vstd::prelude::*;

verus! {

/// Whether `s` ends with `suffix`.
pub open spec fn ends_with(s: Seq<char>, suffix: Seq<char>) -> bool {
    suffix.len() <= s.len() && s.subrange(s.len() - suffix.len(), s.len() as int) == suffix
}

/// Whether the text `s` ends with the text `suffix`.
pub fn str_ends_with(s: &str, suffix: &str) -> (r: bool)
    ensures
        r == ends_with(s@, suffix@),
{
    let n: usize = s.unicode_len();
    let m: usize = suffix.unicode_len();
    if m > n {
        return false;
    }
    let start: usize = n - m;
    let mut i: usize = 0;
    while i < m
        invariant
            n == s@.len(),
            m == suffix@.len(),
            start == n - m,
            i <= m,
            forall|j: int| 0 <= j < i ==> s@[start + j] == suffix@[j],
        decreases m - i,
    {
        if s.get_char(start + i) != suffix.get_char(i) {
            assert(s@.subrange(start as int, n as int)[i as int] != suffix@[i as int]);
            return false;
        }
        i = i + 1;
    }
    assert(s@.subrange(start as int, n as int) =~= suffix@);
    true
}

} // verus!

verus! {

/// `s` ends with `suffix` exactly when it is some text followed by
/// `suffix`.
pub proof fn law_ends_with_is_suffix(s: Seq<char>, suffix: Seq<char>)
    ensures
        ends_with(s, suffix) <==> exists|p: Seq<char>| #[trigger] (p + suffix) == s,
{
    if ends_with(s, suffix) {
        let p = s.subrange(0, s.len() - suffix.len());
        assert(p + suffix =~= s);
    }
    if exists|p: Seq<char>| #[trigger] (p + suffix) == s {
        let p = choose|p: Seq<char>| #[trigger] (p + suffix) == s;
        assert(s.subrange(s.len() - suffix.len(), s.len() as int) =~= suffix);
    }
}

} // verus!
