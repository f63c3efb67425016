use vstd::prelude::*;

verus! {

/// Index of the first element of `s` satisfying `p`.
pub open spec fn first_index<T>(s: Seq<T>, p: spec_fn(T) -> bool) -> Option<int>
    decreases s.len(),
{
    if s.len() == 0 {
        None
    } else if p(s[0]) {
        Some(0)
    } else {
        match first_index(s.drop_first(), p) {
            Some(i) => Some(i + 1),
            None => None,
        }
    }
}

/// A found index is in range, satisfies `p`, and no earlier element does;
/// a missing one means no element satisfies `p`.
pub proof fn lemma_first_index<T>(s: Seq<T>, p: spec_fn(T) -> bool)
    ensures
        first_index(s, p) matches Some(i) ==> 0 <= i < s.len() && p(s[i]) && forall|j: int|
            0 <= j < i ==> !p(#[trigger] s[j]),
        first_index(s, p) is None ==> forall|j: int| 0 <= j < s.len() ==> !p(#[trigger] s[j]),
    decreases s.len(),
{
    if s.len() > 0 && !p(s[0]) {
        lemma_first_index(s.drop_first(), p);
        assert forall|j: int| 1 <= j < s.len() implies s[j] == s.drop_first()[j - 1] by {}
    }
}

/// The first index is the unique in-range index that satisfies `p` with no
/// earlier element satisfying it.
pub proof fn lemma_first_index_is<T>(s: Seq<T>, p: spec_fn(T) -> bool, i: int)
    requires
        0 <= i < s.len(),
        p(s[i]),
        forall|j: int| 0 <= j < i ==> !p(#[trigger] s[j]),
    ensures
        first_index(s, p) == Some(i),
    decreases s.len(),
{
    if i > 0 {
        assert(!p(s[0]));
        let t = s.drop_first();
        assert forall|j: int| 0 <= j < i - 1 implies !p(#[trigger] t[j]) by {
            assert(t[j] == s[j + 1]);
        }
        lemma_first_index_is(t, p, i - 1);
    }
}

/// No element satisfies `p`: there is no first index.
pub proof fn lemma_first_index_none<T>(s: Seq<T>, p: spec_fn(T) -> bool)
    requires
        forall|j: int| 0 <= j < s.len() ==> !p(#[trigger] s[j]),
    ensures
        first_index(s, p) is None,
    decreases s.len(),
{
    if s.len() > 0 {
        let t = s.drop_first();
        assert forall|j: int| 0 <= j < t.len() implies !p(#[trigger] t[j]) by {
            assert(t[j] == s[j + 1]);
        }
        lemma_first_index_none(t, p);
    }
}

/// Updating an element that does not satisfy `p` into one that still does
/// not, or any element after the first index, keeps the first index.
pub proof fn lemma_first_index_update<T>(s: Seq<T>, p: spec_fn(T) -> bool, k: int, v: T)
    requires
        0 <= k < s.len(),
        p(s[k]) == p(v),
        first_index(s, p) matches Some(i) ==> i <= k || !p(s[k]),
    ensures
        first_index(s.update(k, v), p) == first_index(s, p),
{
    lemma_first_index(s, p);
    let t = s.update(k, v);
    match first_index(s, p) {
        Some(i) => {
            assert forall|j: int| 0 <= j < i implies !p(#[trigger] t[j]) by {
                if j == k {
                } else {
                    assert(t[j] == s[j]);
                }
            }
            if i == k {
                lemma_first_index_is(t, p, i);
            } else {
                assert(t[i] == s[i]);
                lemma_first_index_is(t, p, i);
            }
        },
        None => {
            assert forall|j: int| 0 <= j < t.len() implies !p(#[trigger] t[j]) by {
                if j != k {
                    assert(t[j] == s[j]);
                }
            }
            lemma_first_index_none(t, p);
        },
    }
}

/// Appending an element keeps an existing first index; otherwise the first
/// index is the new element when it satisfies `p`.
pub proof fn lemma_first_index_push<T>(s: Seq<T>, p: spec_fn(T) -> bool, v: T)
    ensures
        first_index(s.push(v), p) == (match first_index(s, p) {
            Some(i) => Some(i),
            None => if p(v) { Some(s.len() as int) } else { None },
        }),
{
    lemma_first_index(s, p);
    let t = s.push(v);
    match first_index(s, p) {
        Some(i) => {
            assert forall|j: int| 0 <= j < i implies !p(#[trigger] t[j]) by {
                assert(t[j] == s[j]);
            }
            assert(t[i] == s[i]);
            lemma_first_index_is(t, p, i);
        },
        None => {
            if p(v) {
                assert forall|j: int| 0 <= j < s.len() implies !p(#[trigger] t[j]) by {
                    assert(t[j] == s[j]);
                }
                lemma_first_index_is(t, p, s.len() as int);
            } else {
                assert forall|j: int| 0 <= j < t.len() implies !p(#[trigger] t[j]) by {
                    if j < s.len() {
                        assert(t[j] == s[j]);
                    }
                }
                lemma_first_index_none(t, p);
            }
        },
    }
}

} // verus!
