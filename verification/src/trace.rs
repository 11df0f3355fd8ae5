//! How far a light path is followed: the rule that ends the recursion.

use vstd::prelude::*;
use crate::material::Material;

verus! {

/// What the renderer does with a ray once it knows whether the ray met a
/// surface.
#[derive(Clone, Copy, Debug, PartialEq, Eq, Structural)]
pub enum Verdict {
    /// The ray met nothing: it carries the background.
    Background,
    /// The ray met a surface at the depth limit: it carries no light.
    Black,
    /// The ray met a surface above the depth limit: the surface's material
    /// decides whether and where the path goes on, one level deeper.
    Scatter,
}

/// The verdict on a ray at `depth` under the limit `max_depth`.
pub open spec fn verdict_of(hit: bool, depth: nat, max_depth: nat) -> Verdict {
    if !hit {
        Verdict::Background
    } else if depth < max_depth {
        Verdict::Scatter
    } else {
        Verdict::Black
    }
}

/// Decides what becomes of a ray at `depth`. A miss is the background at any
/// depth; a material is consulted only below the limit.
pub fn verdict(hit: bool, depth: u32, max_depth: u32) -> (v: Verdict)
    ensures
        v == verdict_of(hit, depth as nat, max_depth as nat),
        v is Scatter ==> depth < u32::MAX,
{
    if !hit {
        Verdict::Background
    } else if depth < max_depth {
        Verdict::Scatter
    } else {
        Verdict::Black
    }
}

/// The light that a path carries back to the camera.
pub enum Outcome {
    /// None.
    Black,
    /// The background seen by the ray that follows `bounces` scatterings,
    /// dimmed by the attenuation of each of them.
    Sky { bounces: nat },
}

/// The outcome of following a path from its ray at `depth` on.
///
/// A path is the list of the surfaces that its rays would meet if nothing
/// cut it short, each by its material and what is known of the meeting:
/// `path[k]` is met by the ray that follows `k` scatterings, and the ray
/// after the last meets nothing.
pub open spec fn outcome_from(path: Seq<Material>, depth: nat, max_depth: nat) -> Outcome
    decreases path.len() - depth,
{
    match verdict_of(depth < path.len(), depth, max_depth) {
        Verdict::Background => Outcome::Sky { bounces: depth },
        Verdict::Black => Outcome::Black,
        Verdict::Scatter => if path[depth as int].bounce() is Some {
            outcome_from(path, depth + 1, max_depth)
        } else {
            Outcome::Black
        },
    }
}

/// The outcome of a whole path, followed from the camera.
pub open spec fn outcome(path: Seq<Material>, max_depth: nat) -> Outcome {
    outcome_from(path, 0, max_depth)
}

/// A path reaches the background when every surface on it scatters and the
/// depth limit covers them all; otherwise it carries no light.
pub open spec fn reaches_sky(path: Seq<Material>, max_depth: nat) -> bool {
    path.len() <= max_depth && forall|k: int| 0 <= k < path.len() ==> (#[trigger] path[k]).bounce() is Some
}

/// A path that is scattered at every surface above `depth`, and is not cut
/// off there, comes out from `depth` on as it does from the camera.
proof fn lemma_outcome_from(path: Seq<Material>, depth: nat, max_depth: nat)
    requires
        depth <= path.len(),
        depth <= max_depth,
        forall|k: int| 0 <= k < depth ==> (#[trigger] path[k]).bounce() is Some,
    ensures
        outcome_from(path, depth, max_depth) == if reaches_sky(path, max_depth) {
            Outcome::Sky { bounces: path.len() }
        } else {
            Outcome::Black
        },
    decreases path.len() - depth,
{
    if depth < path.len() && depth < max_depth && path[depth as int].bounce() is Some {
        lemma_outcome_from(path, depth + 1, max_depth);
    }
}

/// What a path carries back: the background after all its scatterings if it
/// reaches the sky, and nothing if a material absorbs it or the depth limit
/// cuts it off.
pub proof fn lemma_outcome(path: Seq<Material>, max_depth: nat)
    ensures
        outcome(path, max_depth) == if reaches_sky(path, max_depth) {
            Outcome::Sky { bounces: path.len() }
        } else {
            Outcome::Black
        },
{
    lemma_outcome_from(path, 0, max_depth);
}

/// Raising the depth limit beyond the point where a path stops meeting
/// surfaces changes nothing.
pub proof fn lemma_depth_saturates(path: Seq<Material>, limit: nat, higher: nat)
    requires
        path.len() <= limit <= higher,
    ensures
        outcome(path, higher) == outcome(path, limit),
{
    lemma_outcome(path, limit);
    lemma_outcome(path, higher);
}

/// A path that still meets a surface at the depth limit carries no light.
pub proof fn lemma_cut_off_is_black(path: Seq<Material>, max_depth: nat)
    requires
        path.len() > max_depth,
    ensures
        outcome(path, max_depth) == Outcome::Black,
{
    lemma_outcome(path, max_depth);
}

/// A path on which a material absorbs the ray carries no light, whatever
/// the depth limit.
pub proof fn lemma_absorbed_is_black(path: Seq<Material>, k: int, max_depth: nat)
    requires
        0 <= k < path.len(),
        path[k].bounce() is None,
    ensures
        outcome(path, max_depth) == Outcome::Black,
{
    lemma_outcome(path, max_depth);
}

} // verus!
