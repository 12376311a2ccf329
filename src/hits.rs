use vstd::prelude::*;

verus! {

/// Whether entry `i` of `keys` is a hit that no other hit beats: no hit lies
/// nearer, and no hit at the same distance comes later in the list (the
/// later of two equally near primitives wins).
pub open spec fn is_nearest(keys: Seq<Option<u32>>, i: int) -> bool {
    &&& 0 <= i < keys.len()
    &&& keys[i] is Some
    &&& forall|j: int|
        0 <= j < keys.len() && (#[trigger] keys[j]) is Some ==> keys[i]->0 <= keys[j]->0
    &&& forall|j: int|
        i < j < keys.len() && (#[trigger] keys[j]) is Some ==> keys[i]->0 < keys[j]->0
}

/// Whether some entry of `keys` is a hit.
pub open spec fn any_hit(keys: Seq<Option<u32>>) -> bool {
    exists|j: int| 0 <= j < keys.len() && (#[trigger] keys[j]) is Some
}

/// Picks, among the hits of a scene's primitives along one ray, the one
/// nearest to the ray's origin.
///
/// Entry `i` of `keys` is the hit of primitive `i` within the searched range,
/// or `None` where it has none. A hit is given by an integer key that orders
/// hits as their distances along the ray do. The scan keeps the nearest hit
/// seen so far and takes a later one that is at least as near.
pub fn nearest_hit(keys: &Vec<Option<u32>>) -> (r: Option<usize>)
    ensures
        r is None <==> !any_hit(keys@),
        r matches Some(i) ==> is_nearest(keys@, i as int),
{
    let mut best: Option<usize> = None;
    let mut closest: u32 = 0;
    let mut i: usize = 0;
    while i < keys.len()
        invariant
            0 <= i <= keys@.len(),
            best is None <==> forall|j: int| 0 <= j < i ==> (#[trigger] keys@[j]) is None,
            best matches Some(b) ==> {
                &&& b < i
                &&& keys@[b as int] == Some(closest)
                &&& forall|j: int|
                    0 <= j < i && (#[trigger] keys@[j]) is Some ==> closest <= keys@[j]->0
                &&& forall|j: int|
                    b < j < i && (#[trigger] keys@[j]) is Some ==> closest < keys@[j]->0
            },
        decreases keys@.len() - i,
    {
        if let Some(t) = keys[i] {
            if best.is_none() || t <= closest {
                best = Some(i);
                closest = t;
            }
        }
        i = i + 1;
    }
    proof {
        if best is None {
            assert forall|j: int| 0 <= j < keys@.len() implies !(#[trigger] keys@[j] is Some) by {}
        } else {
            let b = best->0 as int;
            assert(keys@[b] is Some);
        }
    }
    best
}

} // verus!
