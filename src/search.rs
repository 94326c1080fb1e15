//! First-match search over sequences and string comparison.
use vstd::prelude::*;

verus! {

/// Index of the first element of `s` that satisfies `p`, if any.
pub open spec fn first_match<T>(s: Seq<T>, p: spec_fn(T) -> bool) -> Option<int>
    decreases s.len(),
{
    if s.len() == 0 {
        None
    } else if p(s[0]) {
        Some(0)
    } else {
        match first_match(s.drop_first(), p) {
            Some(i) => Some(i + 1),
            None => None,
        }
    }
}

/// Whether an entry of a keyed table has key `k`.
pub open spec fn key_is<V>(k: Seq<char>) -> spec_fn((Seq<char>, V)) -> bool {
    |e: (Seq<char>, V)| e.0 == k
}

/// `first_match` finds exactly the first satisfying index, and finds nothing
/// only where no element satisfies `p`.
pub proof fn lemma_first_match<T>(s: Seq<T>, p: spec_fn(T) -> bool)
    ensures
        match first_match(s, p) {
            Some(i) => 0 <= i < s.len() && p(s[i]) && forall|j: int| 0 <= j < i ==> !p(#[trigger] s[j]),
            None => forall|j: int| 0 <= j < s.len() ==> !p(#[trigger] s[j]),
        },
    decreases s.len(),
{
    if s.len() > 0 && !p(s[0]) {
        lemma_first_match(s.drop_first(), p);
        assert forall|j: int| 1 <= j < s.len() implies s[j] == s.drop_first()[j - 1] by {}
        match first_match(s.drop_first(), p) {
            Some(i) => {
                assert forall|j: int| 0 <= j < i + 1 implies !p(#[trigger] s[j]) by {
                    if j > 0 {
                        assert(s[j] == s.drop_first()[j - 1]);
                    }
                }
            },
            None => {
                assert forall|j: int| 0 <= j < s.len() implies !p(#[trigger] s[j]) by {
                    if j > 0 {
                        assert(s[j] == s.drop_first()[j - 1]);
                    }
                }
            },
        }
    }
}

/// Sequences whose elements agree on `p` position by position have the same
/// first match.
pub proof fn lemma_first_match_same<T>(s1: Seq<T>, s2: Seq<T>, p: spec_fn(T) -> bool)
    requires
        s1.len() == s2.len(),
        forall|j: int| 0 <= j < s1.len() ==> p(#[trigger] s1[j]) == p(s2[j]),
    ensures
        first_match(s1, p) == first_match(s2, p),
{
    lemma_first_match(s1, p);
    lemma_first_match(s2, p);
    match (first_match(s1, p), first_match(s2, p)) {
        (Some(i), Some(k)) => {
            if i < k {
                assert(p(s2[i]));
            } else if k < i {
                assert(p(s1[k]));
            }
        },
        (Some(i), None) => {
            assert(p(s2[i]));
        },
        (None, Some(k)) => {
            assert(p(s1[k]));
        },
        (None, None) => {},
    }
}

/// The first match in `s.push(x)`: the one in `s`, else `x` where it satisfies `p`.
pub proof fn lemma_first_match_push<T>(s: Seq<T>, x: T, p: spec_fn(T) -> bool)
    ensures
        first_match(s.push(x), p) == (match first_match(s, p) {
            Some(i) => Some(i),
            None => if p(x) {
                Some(s.len() as int)
            } else {
                None
            },
        }),
{
    let t = s.push(x);
    lemma_first_match(s, p);
    lemma_first_match(t, p);
    assert forall|j: int| 0 <= j < s.len() implies t[j] == s[j] by {}
    match (first_match(s, p), first_match(t, p)) {
        (Some(i), Some(k)) => {
            if i < k {
                assert(p(t[i]));
            } else if k < i {
                assert(p(s[k]));
            }
        },
        (Some(i), None) => {
            assert(p(t[i]));
        },
        (None, Some(k)) => {
            if k < s.len() {
                assert(p(s[k]));
            }
        },
        (None, None) => {
            assert(!p(t[s.len() as int]));
        },
    }
}

/// Whether two strings hold the same characters.
pub fn str_eq(a: &str, b: &str) -> (r: bool)
    ensures
        r == (a@ == b@),
{
    let x: String = a.to_owned();
    let y: String = b.to_owned();
    x == y
}

} // verus!
