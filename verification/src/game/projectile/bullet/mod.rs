use vstd::prelude::*;

pub mod standard;

verus! {

/// A kind of projectile.
pub trait Bullet {
    /// Hook that runs when the projectile deals its damage.
    fn damage(&self);

    /// Whether the projectile falls to the ground instead of flying on.
    fn should_drop(&self) -> bool;
}

} // verus!
