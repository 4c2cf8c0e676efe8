//! Helpers on strings, stated over their views as sequences of characters.

use vstd::prelude::*;
use vstd::string::StringExecFns;

verus! {

/// Index of the first occurrence of `c` in `s`, or `s.len()` where there is none.
pub open spec fn first_index(s: Seq<char>, c: char) -> int
    decreases s.len(),
{
    if s.len() == 0 || s[0] == c {
        0
    } else {
        1 + first_index(s.drop_first(), c)
    }
}

/// Whether `c` occurs in `s`.
pub open spec fn has_char(s: Seq<char>, c: char) -> bool {
    first_index(s, c) < s.len()
}

/// What stands before the first `c` in `s`; all of `s` where there is none.
pub open spec fn before_first(s: Seq<char>, c: char) -> Seq<char> {
    s.subrange(0, first_index(s, c))
}

/// What stands behind the first `c` in `s`; empty where there is none.
pub open spec fn after_first(s: Seq<char>, c: char) -> Seq<char> {
    if has_char(s, c) {
        s.subrange(first_index(s, c) + 1, s.len() as int)
    } else {
        Seq::empty()
    }
}

/// `first_index` stays within the sequence, nothing before it is `c`, and `c`
/// stands at it unless it is the length.
pub proof fn lemma_first_index(s: Seq<char>, c: char)
    ensures
        0 <= first_index(s, c) <= s.len(),
        forall|i: int| 0 <= i < first_index(s, c) ==> s[i] != c,
        first_index(s, c) < s.len() ==> s[first_index(s, c)] == c,
    decreases s.len(),
{
    if s.len() == 0 || s[0] == c {
    } else {
        let t = s.drop_first();
        lemma_first_index(t, c);
        assert forall|i: int| 0 <= i < first_index(s, c) implies s[i] != c by {
            if i > 0 {
                assert(s[i] == t[i - 1]);
            }
        }
        assert(first_index(s, c) < s.len() ==> s[first_index(s, c)] == t[first_index(t, c)]);
    }
}

/// What stands behind the first `c` is shorter than the whole.
pub proof fn lemma_after_first_shorter(s: Seq<char>, c: char)
    ensures
        has_char(s, c) ==> after_first(s, c).len() < s.len(),
        !has_char(s, c) ==> after_first(s, c).len() == 0,
        before_first(s, c).len() <= s.len(),
{
    lemma_first_index(s, c);
}

/// An index with the three properties of `lemma_first_index` is the first index.
pub proof fn lemma_first_index_is(s: Seq<char>, c: char, k: int)
    requires
        0 <= k <= s.len(),
        forall|i: int| 0 <= i < k ==> s[i] != c,
        k < s.len() ==> s[k] == c,
    ensures
        first_index(s, c) == k,
    decreases s.len(),
{
    if s.len() == 0 || s[0] == c {
    } else {
        let t = s.drop_first();
        assert forall|i: int| 0 <= i < k - 1 implies t[i] != c by {
            assert(t[i] == s[i + 1]);
        }
        lemma_first_index_is(t, c, k - 1);
    }
}

/// Whether `s` ends in `suffix`.
pub open spec fn ends_with(s: Seq<char>, suffix: Seq<char>) -> bool {
    s.len() >= suffix.len() && s.subrange(s.len() - suffix.len(), s.len() as int) == suffix
}

/// A sequence without `c` is all that stands before its first `c`.
pub proof fn lemma_no_char(s: Seq<char>, c: char)
    requires
        !has_char(s, c),
    ensures
        before_first(s, c) == s,
        after_first(s, c) == Seq::<char>::empty(),
{
    lemma_first_index(s, c);
    assert(before_first(s, c) =~= s);
}

/// What stands before the first `c` holds no `c`.
pub proof fn lemma_before_first_has_none(s: Seq<char>, c: char)
    ensures
        !has_char(before_first(s, c), c),
{
    lemma_first_index(s, c);
    let head = before_first(s, c);
    assert forall|i: int| 0 <= i < head.len() implies head[i] != c by {
        assert(head[i] == s[i]);
    }
    lemma_first_index_is(head, c, head.len() as int);
}

/// A sequence without `c`, then `c`, then anything, splits at that `c`.
pub proof fn lemma_split_joined(a: Seq<char>, c: char, b: Seq<char>)
    requires
        !has_char(a, c),
    ensures
        has_char(a + seq![c] + b, c),
        first_index(a + seq![c] + b, c) == a.len(),
        before_first(a + seq![c] + b, c) == a,
        after_first(a + seq![c] + b, c) == b,
{
    let s = a + seq![c] + b;
    lemma_first_index(a, c);
    assert forall|i: int| 0 <= i < a.len() implies s[i] != c by {
        assert(s[i] == a[i]);
    }
    assert(s[a.len() as int] == c);
    lemma_first_index_is(s, c, a.len() as int);
    assert(s.subrange(0, a.len() as int) =~= a);
    assert(s.subrange(a.len() as int + 1, s.len() as int) =~= b);
}

/// Whether two strings hold the same characters.
pub fn str_eq(a: &str, b: &str) -> (r: bool)
    ensures
        r == (a@ == b@),
{
    let n = a.unicode_len();
    if n != b.unicode_len() {
        return false;
    }
    let mut i: usize = 0;
    while i < n
        invariant
            n == a@.len(),
            n == b@.len(),
            i <= n,
            forall|j: int| 0 <= j < i ==> a@[j] == b@[j],
        decreases n - i,
    {
        if a.get_char(i) != b.get_char(i) {
            return false;
        }
        i += 1;
    }
    assert(a@ =~= b@);
    true
}

/// Position of the first `c` in `s`, if there is one.
pub fn find_char(s: &str, c: char) -> (r: Option<usize>)
    ensures
        match r {
            Some(k) => has_char(s@, c) && k == first_index(s@, c),
            None => !has_char(s@, c),
        },
{
    let n = s.unicode_len();
    let mut i: usize = 0;
    while i < n
        invariant
            n == s@.len(),
            i <= n,
            forall|j: int| 0 <= j < i ==> s@[j] != c,
        decreases n - i,
    {
        if s.get_char(i) == c {
            proof {
                lemma_first_index_is(s@, c, i as int);
            }
            return Some(i);
        }
        i += 1;
    }
    proof {
        lemma_first_index_is(s@, c, n as int);
    }
    None
}

/// Splits `s` at its first `c`: what stands before it and what stands behind it.
/// `None` where `s` holds no `c`.
pub fn split_once(s: &str, c: char) -> (r: Option<(String, String)>)
    ensures
        match r {
            Some((head, tail)) => has_char(s@, c) && head@ == before_first(s@, c) && tail@
                == after_first(s@, c),
            None => !has_char(s@, c),
        },
{
    match find_char(s, c) {
        Some(k) => {
            let n = s.unicode_len();
            let head = s.substring_char(0, k);
            let tail = s.substring_char(k + 1, n);
            Some((String::from_str(head), String::from_str(tail)))
        },
        None => None,
    }
}

/// The three strings one after the other.
pub fn join3(a: &str, b: &str, c: &str) -> (r: String)
    ensures
        r@ == a@ + b@ + c@,
{
    let mut out = String::from_str(a);
    out.append(b);
    out.append(c);
    out
}

} // verus!
