//! What a ray cast reports, and what a shot along it does.

use vstd::prelude::*;

verus! {

/// The object that a ray meets, as far as the rules read it.
#[derive(Clone, Copy, Debug, PartialEq, Eq)]
pub struct Collider {
    /// The object offers a `damage` method.
    pub takes_damage: bool,
}

/// The outcome of one ray cast.
#[derive(Clone, Copy, Debug, PartialEq, Eq)]
pub struct RayReport {
    /// The ray meets something.
    pub colliding: bool,
    /// The object met, if the engine still holds one.
    pub collider: Option<Collider>,
}

/// What one shot of the player does.
#[derive(Clone, Copy, Debug, PartialEq, Eq)]
pub enum ShotOutcome {
    /// The ray met nothing: no damage, no impact mark.
    Miss,
    /// The ray met an object: an impact mark is left at the point of
    /// collision, and the object is damaged if `damage` is set.
    Impact { damage: bool },
}

impl RayReport {
    /// The ray meets an object that can be damaged.
    pub open spec fn meets_target(self) -> bool {
        self.colliding && self.collider == Some(Collider { takes_damage: true })
    }

    /// A colliding ray that names no collider cannot be resolved as a shot.
    pub open spec fn names_collider(self) -> bool {
        self.colliding ==> self.collider is Some
    }

    /// The outcome of a shot along this ray.
    pub open spec fn shot_outcome(self) -> ShotOutcome {
        if self.colliding {
            ShotOutcome::Impact { damage: self.meets_target() }
        } else {
            ShotOutcome::Miss
        }
    }
}

/// Resolves one shot of the player's weapon along a ray.
///
/// A ray that meets nothing is a miss. Otherwise the shot leaves an impact
/// mark, and damages the object met if that object takes damage.
pub fn resolve_shot(report: &RayReport) -> (outcome: ShotOutcome)
    requires
        report.names_collider(),
    ensures
        outcome == report.shot_outcome(),
{
    if !report.colliding {
        return ShotOutcome::Miss;
    }
    match report.collider {
        Some(collider) => ShotOutcome::Impact { damage: collider.takes_damage },
        None => ShotOutcome::Miss,
    }
}

/// Decides whether an enemy's periodic attack along a ray lands: it does when
/// the ray meets an object that takes damage. A colliding ray without a
/// collider is no attack.
pub fn attack_lands(report: &RayReport) -> (lands: bool)
    ensures
        lands == report.meets_target(),
{
    if !report.colliding {
        return false;
    }
    match report.collider {
        Some(collider) => collider.takes_damage,
        None => false,
    }
}

} // verus!
