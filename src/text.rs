//! Character-level operations on string slices, proved against their
//! sequence-of-characters views.
use vstd::prelude::*;
use vstd::string::*;

verus! {

/// The part of `s` after its last `'.'`, or all of `s` when it holds no dot.
pub open spec fn last_segment(s: Seq<char>) -> Seq<char>
    decreases s.len(),
{
    if s.len() == 0 {
        s
    } else if s.last() == '.' {
        Seq::empty()
    } else {
        last_segment(s.drop_last()).push(s.last())
    }
}

/// Whether two strings hold the same characters.
pub fn str_eq(a: &str, b: &str) -> (r: bool)
    ensures
        r == (a@ == b@),
{
    let n = a.unicode_len();
    let m = b.unicode_len();
    if n != m {
        return false;
    }
    let mut i: usize = 0;
    while i < n
        invariant
            n == a@.len(),
            m == b@.len(),
            n == m,
            i <= n,
            forall|j: int| 0 <= j < i ==> a@[j] == b@[j],
        decreases n - i,
    {
        if a.get_char(i) != b.get_char(i) {
            return false;
        }
        i += 1;
    }
    proof {
        assert(a@ =~= b@);
    }
    true
}

/// Whether `s` begins with `prefix`.
pub fn starts_with(s: &str, prefix: &str) -> (r: bool)
    ensures
        r == prefix@.is_prefix_of(s@),
{
    let n = s.unicode_len();
    let m = prefix.unicode_len();
    if m > n {
        return false;
    }
    let mut i: usize = 0;
    while i < m
        invariant
            n == s@.len(),
            m == prefix@.len(),
            m <= n,
            i <= m,
            forall|j: int| 0 <= j < i ==> prefix@[j] == s@[j],
        decreases m - i,
    {
        if s.get_char(i) != prefix.get_char(i) {
            return false;
        }
        i += 1;
    }
    proof {
        assert(prefix@ =~= s@.subrange(0, m as int));
    }
    true
}

/// Whether `s` ends with `suffix`.
pub fn ends_with(s: &str, suffix: &str) -> (r: bool)
    ensures
        r == suffix@.is_suffix_of(s@),
{
    let n = s.unicode_len();
    let m = suffix.unicode_len();
    if m > n {
        return false;
    }
    let off = n - m;
    let mut i: usize = 0;
    while i < m
        invariant
            n == s@.len(),
            m == suffix@.len(),
            m <= n,
            off == n - m,
            i <= m,
            forall|j: int| 0 <= j < i ==> suffix@[j] == s@[off + j],
        decreases m - i,
    {
        if s.get_char(off + i) != suffix.get_char(i) {
            return false;
        }
        i += 1;
    }
    proof {
        assert(suffix@ =~= s@.subrange(off as int, n as int));
    }
    true
}

/// The part of `s` after its last `'.'` (the whole of `s` when it has none).
pub fn last_segment_of(s: &str) -> (r: &str)
    ensures
        r@ == last_segment(s@),
{
    let n = s.unicode_len();
    let mut j = n;
    proof {
        assert(s@.subrange(0, n as int) =~= s@);
        assert(s@.subrange(n as int, n as int) =~= Seq::<char>::empty());
    }
    while j > 0 && s.get_char(j - 1) != '.'
        invariant
            n == s@.len(),
            j <= n,
            last_segment(s@) == last_segment(s@.subrange(0, j as int)) + s@.subrange(
                j as int,
                n as int,
            ),
        decreases j,
    {
        proof {
            let pre = s@.subrange(0, j as int);
            assert(pre.drop_last() =~= s@.subrange(0, j - 1));
            assert(last_segment(pre) == last_segment(s@.subrange(0, j - 1)).push(s@[j - 1]));
            assert(last_segment(s@.subrange(0, j - 1)).push(s@[j - 1]) + s@.subrange(
                j as int,
                n as int,
            ) =~= last_segment(s@.subrange(0, j - 1)) + s@.subrange(j - 1, n as int));
        }
        j -= 1;
    }
    proof {
        assert(last_segment(s@.subrange(0, j as int)) =~= Seq::<char>::empty());
        assert(Seq::<char>::empty() + s@.subrange(j as int, n as int) =~= s@.subrange(
            j as int,
            n as int,
        ));
    }
    s.substring_char(j, n)
}

} // verus!
