//! The nearest surface that a ray meets, among all surfaces of a scene.

use vstd::prelude::*;
use crate::distance::Distance;
use crate::hit::{Hit, Roots, lemma_crossing_narrowed};

verus! {

/// `hit` is the nearest meeting among the first `n` surfaces: no surface is
/// met where it is none; otherwise it is a surface's own crossing, no surface
/// is crossed nearer, and no earlier surface is crossed at the same distance.
pub open spec fn is_nearest_of_first(
    surfaces: Seq<Roots>,
    n: int,
    t_min: Distance,
    t_max: Distance,
    hit: Option<Hit>,
) -> bool {
    match hit {
        None => forall|i: int| 0 <= i < n ==> (#[trigger] surfaces[i]).crossing(t_min, t_max) is None,
        Some(h) => {
            &&& 0 <= h.surface < n
            &&& surfaces[h.surface as int].crossing(t_min, t_max) == Some(h.t)
            &&& forall|i: int|
                0 <= i < n ==> ((#[trigger] surfaces[i]).crossing(t_min, t_max) matches Some(t)
                    ==> h.t.rank <= t.rank)
            &&& forall|i: int|
                0 <= i < h.surface ==> (#[trigger] surfaces[i]).crossing(t_min, t_max) != Some(h.t)
        },
    }
}

/// `hit` is the nearest meeting of the ray with the scene between `t_min`
/// and `t_max`; among surfaces crossed at the same distance, the first.
pub open spec fn is_nearest(surfaces: Seq<Roots>, t_min: Distance, t_max: Distance, hit: Option<Hit>) -> bool {
    is_nearest_of_first(surfaces, surfaces.len() as int, t_min, t_max, hit)
}

/// Finds the nearest meeting of a ray with the scene in one pass.
///
/// `surfaces` holds, for each surface in the scene's order, the roots of its
/// intersection equation for the ray. Each surface is tested up to the
/// nearest meeting found before it, so a later surface replaces an earlier
/// one only where it is strictly nearer.
pub fn nearest_hit(surfaces: &Vec<Roots>, t_min: Distance, t_max: Distance) -> (hit: Option<Hit>)
    ensures
        is_nearest(surfaces@, t_min, t_max, hit),
{
    let mut hit: Option<Hit> = None;
    let mut closest_so_far = t_max;
    let mut i: usize = 0;
    while i < surfaces.len()
        invariant
            i <= surfaces.len(),
            closest_so_far.rank <= t_max.rank,
            is_nearest_of_first(surfaces@, i as int, t_min, t_max, hit),
            hit matches Some(h) ==> closest_so_far == h.t,
            hit is None ==> closest_so_far == t_max,
        decreases surfaces.len() - i,
    {
        proof {
            lemma_crossing_narrowed(surfaces@[i as int], t_min, closest_so_far, t_max);
        }
        match surfaces[i].is_hit_by(t_min, closest_so_far) {
            None => {},
            Some(t) => {
                closest_so_far = t;
                hit = Some(Hit { t, surface: i });
            },
        }
        i += 1;
    }
    hit
}

/// The nearest meeting is unique: two answers for one scene are the same.
pub proof fn lemma_nearest_is_unique(
    surfaces: Seq<Roots>,
    t_min: Distance,
    t_max: Distance,
    a: Option<Hit>,
    b: Option<Hit>,
)
    requires
        is_nearest(surfaces, t_min, t_max, a),
        is_nearest(surfaces, t_min, t_max, b),
    ensures
        a == b,
{
    if a is Some && b is Some {
        let h = a->Some_0;
        let g = b->Some_0;
        assert(h.t.rank <= g.t.rank);
        assert(g.t.rank <= h.t.rank);
        assert(h.t == g.t);
        if h.surface < g.surface {
            assert(surfaces[h.surface as int].crossing(t_min, t_max) != Some(g.t));
        } else if g.surface < h.surface {
            assert(surfaces[g.surface as int].crossing(t_min, t_max) != Some(h.t));
        }
    } else if a is Some {
        assert(surfaces[a->Some_0.surface as int].crossing(t_min, t_max) is None);
    } else if b is Some {
        assert(surfaces[b->Some_0.surface as int].crossing(t_min, t_max) is None);
    }
}

/// The distance of the nearest meeting does not depend on the order in
/// which the scene lists its surfaces: two lists of the same surfaces give
/// a meeting at the same distance, or none both.
pub proof fn lemma_nearest_ignores_order(
    first: Seq<Roots>,
    second: Seq<Roots>,
    t_min: Distance,
    t_max: Distance,
    a: Option<Hit>,
    b: Option<Hit>,
)
    requires
        first.to_multiset() == second.to_multiset(),
        is_nearest(first, t_min, t_max, a),
        is_nearest(second, t_min, t_max, b),
    ensures
        a is None <==> b is None,
        a is Some ==> a->Some_0.t == b->Some_0.t,
{
    first.to_multiset_ensures();
    second.to_multiset_ensures();
    if a is Some {
        let h = a->Some_0;
        let r = first[h.surface as int];
        assert(first.contains(r));
        assert(first.to_multiset().count(r) > 0);
        assert(second.to_multiset().count(r) > 0);
        assert(second.contains(r));
        let j = choose|j: int| 0 <= j < second.len() && second[j] == r;
        assert(second[j].crossing(t_min, t_max) == Some(h.t));
        assert(b is Some);
        assert(b->Some_0.t.rank <= h.t.rank);
    }
    if b is Some {
        let g = b->Some_0;
        let r = second[g.surface as int];
        assert(second.contains(r));
        assert(second.to_multiset().count(r) > 0);
        assert(first.to_multiset().count(r) > 0);
        assert(first.contains(r));
        let j = choose|j: int| 0 <= j < first.len() && first[j] == r;
        assert(first[j].crossing(t_min, t_max) == Some(g.t));
        assert(a is Some);
        assert(a->Some_0.t.rank <= g.t.rank);
    }
}

} // verus!
