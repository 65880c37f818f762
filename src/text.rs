//! Character-level searches on string slices, specified over `Seq<char>`.

use vstd::prelude::*;
use vstd::string::*;

verus! {

/// The first index at or after `k` where `c` occurs in `s`.
pub open spec fn first_from(s: Seq<char>, c: char, k: int) -> Option<int>
    decreases s.len() - k,
{
    if k < 0 || k >= s.len() {
        None
    } else if s[k] == c {
        Some(k)
    } else {
        first_from(s, c, k + 1)
    }
}

/// The first index where `c` occurs in `s`.
pub open spec fn first_index(s: Seq<char>, c: char) -> Option<int> {
    first_from(s, c, 0)
}

/// The last index below `k` where `c` occurs in `s`.
pub open spec fn last_before(s: Seq<char>, c: char, k: int) -> Option<int>
    decreases k,
{
    if k <= 0 || k > s.len() {
        None
    } else if s[k - 1] == c {
        Some(k - 1)
    } else {
        last_before(s, c, k - 1)
    }
}

/// The last index where `c` occurs in `s`.
pub open spec fn last_index(s: Seq<char>, c: char) -> Option<int> {
    last_before(s, c, s.len() as int)
}

/// `p` is a prefix of `s`.
pub open spec fn has_prefix(s: Seq<char>, p: Seq<char>) -> bool {
    p.len() <= s.len() && s.take(p.len() as int) == p
}

/// An index in a sequence, as a mathematical integer.
pub open spec fn index_of(r: Option<usize>) -> Option<int> {
    match r {
        Some(i) => Some(i as int),
        None => None,
    }
}

/// Scanning forward from `k` finds the first `c` at `m` when none stands in between.
pub proof fn lemma_first_from_at(s: Seq<char>, c: char, k: int, m: int)
    requires
        0 <= k <= m < s.len(),
        s[m] == c,
        forall|j: int| k <= j < m ==> s[j] != c,
    ensures
        first_from(s, c, k) == Some(m),
    decreases m - k,
{
    if k < m {
        lemma_first_from_at(s, c, k + 1, m);
    }
}

/// Scanning forward from `k` finds nothing when `c` does not occur from `k` on.
pub proof fn lemma_first_from_none(s: Seq<char>, c: char, k: int)
    requires
        0 <= k <= s.len(),
        forall|j: int| k <= j < s.len() ==> s[j] != c,
    ensures
        first_from(s, c, k).is_none(),
    decreases s.len() - k,
{
    if k < s.len() {
        lemma_first_from_none(s, c, k + 1);
    }
}

/// Scanning backward from `k` finds the last `c` at `m` when none stands in between.
pub proof fn lemma_last_before_at(s: Seq<char>, c: char, k: int, m: int)
    requires
        0 <= m < k <= s.len(),
        s[m] == c,
        forall|j: int| m < j < k ==> s[j] != c,
    ensures
        last_before(s, c, k) == Some(m),
    decreases k - m,
{
    if m < k - 1 {
        lemma_last_before_at(s, c, k - 1, m);
    }
}

/// Scanning backward from `k` finds nothing when `c` does not occur below `k`.
pub proof fn lemma_last_before_none(s: Seq<char>, c: char, k: int)
    requires
        0 <= k <= s.len(),
        forall|j: int| 0 <= j < k ==> s[j] != c,
    ensures
        last_before(s, c, k).is_none(),
    decreases k,
{
    if k > 0 {
        lemma_last_before_none(s, c, k - 1);
    }
}

/// The index of the first `c` in `s`, if any.
pub fn find_char(s: &str, c: char) -> (r: Option<usize>)
    ensures
        index_of(r) == first_index(s@, c),
        r.is_some() ==> r.unwrap() < s@.len(),
{
    let n = s.unicode_len();
    let mut i: usize = 0;
    while i < n
        invariant
            n == s@.len(),
            i <= n,
            forall|j: int| 0 <= j < i ==> s@[j] != c,
        decreases n - i,
    {
        if s.get_char(i) == c {
            proof {
                lemma_first_from_at(s@, c, 0, i as int);
            }
            return Some(i);
        }
        i = i + 1;
    }
    proof {
        lemma_first_from_none(s@, c, 0);
    }
    None
}

/// The index of the last `c` in `s`, if any.
pub fn rfind_char(s: &str, c: char) -> (r: Option<usize>)
    ensures
        index_of(r) == last_index(s@, c),
        r.is_some() ==> r.unwrap() < s@.len(),
{
    let n = s.unicode_len();
    let mut i: usize = n;
    while i > 0
        invariant
            n == s@.len(),
            i <= n,
            forall|j: int| i <= j < n ==> s@[j] != c,
        decreases i,
    {
        if s.get_char(i - 1) == c {
            proof {
                lemma_last_before_at(s@, c, n as int, i - 1);
            }
            return Some(i - 1);
        }
        i = i - 1;
    }
    proof {
        lemma_last_before_none(s@, c, n as int);
    }
    None
}

/// Whether `c` occurs in `s`.
pub fn contains_char(s: &str, c: char) -> (r: bool)
    ensures
        r == s@.contains(c),
{
    let n = s.unicode_len();
    let mut i: usize = 0;
    while i < n
        invariant
            n == s@.len(),
            i <= n,
            forall|j: int| 0 <= j < i ==> s@[j] != c,
        decreases n - i,
    {
        if s.get_char(i) == c {
            return true;
        }
        i = i + 1;
    }
    false
}

/// Whether `s` begins with `p`.
pub fn starts_with(s: &str, p: &str) -> (r: bool)
    ensures
        r == has_prefix(s@, p@),
{
    let n = s.unicode_len();
    let m = p.unicode_len();
    if m > n {
        return false;
    }
    let mut i: usize = 0;
    while i < m
        invariant
            n == s@.len(),
            m == p@.len(),
            m <= n,
            i <= m,
            forall|j: int| 0 <= j < i ==> s@[j] == p@[j],
        decreases m - i,
    {
        if s.get_char(i) != p.get_char(i) {
            assert(s@.take(m as int)[i as int] != p@[i as int]);
            return false;
        }
        i = i + 1;
    }
    assert(s@.take(m as int) =~= p@);
    true
}

/// Whether `a` and `b` hold the same characters.
pub fn same_text(a: &str, b: &str) -> (r: bool)
    ensures
        r == (a@ == b@),
{
    let n = a.unicode_len();
    if b.unicode_len() != n {
        return false;
    }
    let mut i: usize = 0;
    while i < n
        invariant
            n == a@.len(),
            n == b@.len(),
            i <= n,
            forall|j: int| 0 <= j < i ==> a@[j] == b@[j],
        decreases n - i,
    {
        if a.get_char(i) != b.get_char(i) {
            return false;
        }
        i = i + 1;
    }
    assert(a@ =~= b@);
    true
}

} // verus!
