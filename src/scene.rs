use vstd::prelude::*;

verus! {

/// Among the first `n` candidates, `i` is the hit that a scan keeps: it is a
/// hit, no hit is nearer, and every hit listed before it is strictly farther.
/// Candidates are hit distances along one ray, `None` where a shape is missed.
pub open spec fn nearest_among(hits: Seq<Option<u64>>, n: int, i: int) -> bool {
    &&& 0 <= i < n <= hits.len()
    &&& hits[i] is Some
    &&& forall|j: int| 0 <= j < n && #[trigger] hits[j] is Some ==> hits[i].unwrap() <= hits[j].unwrap()
    &&& forall|j: int| 0 <= j < i && #[trigger] hits[j] is Some ==> hits[i].unwrap() < hits[j].unwrap()
}

/// `i` is the nearest hit of the whole list.
pub open spec fn is_nearest(hits: Seq<Option<u64>>, i: int) -> bool {
    nearest_among(hits, hits.len() as int, i)
}

/// Scans the candidates of every shape of a scene in order and returns the
/// index of the nearest hit; a later shape replaces the one kept only when
/// it is strictly nearer. `None` when every shape is missed.
pub fn nearest(hits: &Vec<Option<u64>>) -> (r: Option<usize>)
    ensures
        match r {
            Some(i) => is_nearest(hits@, i as int),
            None => forall|j: int| 0 <= j < hits@.len() ==> #[trigger] hits@[j] is None,
        },
{
    let mut best: Option<usize> = None;
    let mut closest: u64 = 0;
    let mut i: usize = 0;
    while i < hits.len()
        invariant
            0 <= i <= hits@.len(),
            match best {
                Some(b) => nearest_among(hits@, i as int, b as int) && closest == hits@[b as int].unwrap(),
                None => forall|j: int| 0 <= j < i ==> #[trigger] hits@[j] is None,
            },
        decreases hits@.len() - i,
    {
        if let Some(t) = hits[i] {
            let replace = match best {
                Some(_) => t < closest,
                None => true,
            };
            if replace {
                best = Some(i);
                closest = t;
            }
        }
        i = i + 1;
    }
    best
}

/// The nearest hit, where there is one, is a single index.
pub proof fn lemma_nearest_unique(hits: Seq<Option<u64>>, i: int, k: int)
    requires
        is_nearest(hits, i),
        is_nearest(hits, k),
    ensures
        i == k,
{
    if i < k {
        assert(hits[i] is Some);
    } else if k < i {
        assert(hits[k] is Some);
    }
}

/// Of two shapes hit at different distances along one ray, the nearer one is
/// selected whichever of the two is listed first.
pub proof fn lemma_nearer_wins_in_any_order(near: u64, far: u64)
    requires
        near < far,
    ensures
        forall|i: int| is_nearest(seq![Some(near), Some(far)], i) <==> i == 0,
        forall|i: int| is_nearest(seq![Some(far), Some(near)], i) <==> i == 1,
{
    let s1 = seq![Some(near), Some(far)];
    let s2 = seq![Some(far), Some(near)];
    assert(s1[0] is Some && s1[1] is Some);
    assert(s2[0] is Some && s2[1] is Some);
    assert(is_nearest(s1, 0));
    assert(is_nearest(s2, 1));
    assert forall|i: int| is_nearest(s1, i) implies i == 0 by {
        lemma_nearest_unique(s1, i, 0);
    }
    assert forall|i: int| is_nearest(s2, i) implies i == 1 by {
        lemma_nearest_unique(s2, i, 1);
    }
}

} // verus!
