use vstd::prelude::*;

verus! {

/// Position of an `f32` bit pattern in the total order of `f32::total_cmp`:
/// non-negative patterns keep their value, negative ones count down from -1
/// as their magnitude grows.
pub open spec fn total_order_key(bits: u32) -> int {
    if bits < 0x8000_0000 {
        bits as int
    } else {
        -1 - (bits - 0x8000_0000)
    }
}

/// The total-order key of a hit distance given by its bit pattern.
pub fn distance_key(bits: u32) -> (r: i32)
    ensures
        r as int == total_order_key(bits),
{
    if bits < 0x8000_0000 {
        bits as i32
    } else {
        -1 - ((bits - 0x8000_0000) as i32)
    }
}

/// Shape `i` reported a hit, no other hit is nearer, and every earlier hit
/// is strictly farther: `i` is the first of the nearest hits.
pub open spec fn is_nearest(hits: Seq<Option<u32>>, i: int) -> bool {
    &&& 0 <= i < hits.len()
    &&& hits[i] is Some
    &&& forall|j: int|
        0 <= j < hits.len() && #[trigger] hits[j] is Some ==> total_order_key(hits[i]->0)
            <= total_order_key(hits[j]->0)
    &&& forall|j: int|
        0 <= j < i && #[trigger] hits[j] is Some ==> total_order_key(hits[i]->0)
            < total_order_key(hits[j]->0)
}

/// Given, for each shape of a scene, the bit pattern of its hit distance or
/// `None`, the index of the nearest hit (the first one among equals), or
/// `None` when no shape was hit.
pub fn nearest_hit(hits: &[Option<u32>]) -> (r: Option<usize>)
    ensures
        r is None <==> forall|j: int| 0 <= j < hits@.len() ==> #[trigger] hits@[j] is None,
        r matches Some(i) ==> is_nearest(hits@, i as int),
{
    let mut best: Option<(usize, i32)> = None;
    let mut k: usize = 0;
    while k < hits.len()
        invariant
            k <= hits@.len(),
            best is None ==> forall|j: int| 0 <= j < k ==> #[trigger] hits@[j] is None,
            best matches Some(b) ==> b.0 < k && is_nearest(hits@.take(k as int), b.0 as int)
                && b.1 as int == total_order_key(hits@[b.0 as int]->0),
        decreases hits@.len() - k,
    {
        if let Some(bits) = hits[k] {
            let key = distance_key(bits);
            match best {
                None => {
                    best = Some((k, key));
                },
                Some((_, best_key)) => {
                    if key < best_key {
                        best = Some((k, key));
                    }
                },
            }
        }
        proof {
            let s = hits@.take(k + 1);
            assert(s =~= hits@.take(k as int).push(hits@[k as int]));
        }
        k = k + 1;
    }
    assert(hits@.take(k as int) =~= hits@);
    match best {
        None => None,
        Some((i, _)) => Some(i),
    }
}

/// The nearest of two hits in a scene where every other shape missed is the
/// one at the smaller distance.
pub proof fn lemma_nearer_of_two(hits: Seq<Option<u32>>, a: int, b: int, r: int)
    requires
        0 <= a < b < hits.len(),
        hits[a] is Some,
        hits[b] is Some,
        forall|j: int| 0 <= j < hits.len() && j != a && j != b ==> #[trigger] hits[j] is None,
        is_nearest(hits, r),
    ensures
        total_order_key(hits[a]->0) <= total_order_key(hits[b]->0) ==> r == a,
        total_order_key(hits[b]->0) < total_order_key(hits[a]->0) ==> r == b,
{
    if r != a && r != b {
        assert(hits[r] is None);
    }
}

/// Which root of a sphere's quadratic becomes the hit.
#[derive(Debug, Clone, Copy, PartialEq, Eq, Structural)]
pub enum RootChoice {
    /// No root is a hit.
    Miss,
    /// The nearer root, where the ray enters the sphere.
    Near,
    /// The farther root, where the ray leaves the sphere.
    Far,
}

/// Picks the hit of a ray and a sphere: none when the discriminant is
/// negative, else the near root when it lies within the bounds, else the
/// far root when it does, else none.
pub fn choose_root(discriminant_negative: bool, near_in_bounds: bool, far_in_bounds: bool) -> (r:
    RootChoice)
    ensures
        r == RootChoice::Near <==> !discriminant_negative && near_in_bounds,
        r == RootChoice::Far <==> !discriminant_negative && !near_in_bounds && far_in_bounds,
        r == RootChoice::Miss <==> discriminant_negative || (!near_in_bounds && !far_in_bounds),
{
    if discriminant_negative {
        RootChoice::Miss
    } else if near_in_bounds {
        RootChoice::Near
    } else if far_in_bounds {
        RootChoice::Far
    } else {
        RootChoice::Miss
    }
}

} // verus!
