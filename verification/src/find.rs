//! The first position in a list that has a property.
use vstd::prelude::*;

verus! {

/// The least `k` in `0..n` with `p(k)`, if there is one.
pub open spec fn first_index(n: nat, p: spec_fn(int) -> bool) -> Option<int> {
    if exists|k: int| 0 <= k < n && #[trigger] p(k) && forall|j: int| 0 <= j < k ==> !#[trigger] p(j) {
        Some(choose|k: int| 0 <= k < n && #[trigger] p(k) && forall|j: int| 0 <= j < k ==> !#[trigger] p(j))
    } else {
        None
    }
}

pub proof fn lemma_first_index_found(n: nat, p: spec_fn(int) -> bool, k: int)
    requires
        0 <= k < n,
        p(k),
        forall|j: int| 0 <= j < k ==> !#[trigger] p(j),
    ensures
        first_index(n, p) == Some(k),
{
    assert(exists|k: int| 0 <= k < n && #[trigger] p(k) && forall|j: int| 0 <= j < k ==> !#[trigger] p(j));
    let c = choose|k: int| 0 <= k < n && #[trigger] p(k) && forall|j: int| 0 <= j < k ==> !#[trigger] p(j);
    if c < k {
        assert(!p(c));
    }
    if k < c {
        assert(!p(k));
    }
}

pub proof fn lemma_first_index_none(n: nat, p: spec_fn(int) -> bool)
    requires
        forall|k: int| 0 <= k < n ==> !#[trigger] p(k),
    ensures
        first_index(n, p) is None,
{
}

pub proof fn lemma_first_index_props(n: nat, p: spec_fn(int) -> bool)
    ensures
        first_index(n, p) matches Some(k) ==> 0 <= k < n && p(k) && forall|j: int|
            0 <= j < k ==> !#[trigger] p(j),
        first_index(n, p) is None ==> forall|k: int| 0 <= k < n ==> !#[trigger] p(k),
{
    if first_index(n, p) is None {
        assert forall|k: int| 0 <= k < n implies !#[trigger] p(k) by {
            if p(k) {
                lemma_least_exists(n, p, k);
            }
        }
    }
}

proof fn lemma_least_exists(n: nat, p: spec_fn(int) -> bool, k: int)
    requires
        0 <= k < n,
        p(k),
    ensures
        exists|m: int| 0 <= m < n && #[trigger] p(m) && forall|j: int| 0 <= j < m ==> !#[trigger] p(j),
    decreases k,
{
    if exists|j: int| 0 <= j < k && #[trigger] p(j) {
        let j = choose|j: int| 0 <= j < k && #[trigger] p(j);
        lemma_least_exists(n, p, j);
    } else {
        assert(forall|j: int| 0 <= j < k ==> !#[trigger] p(j));
    }
}

} // verus!
