use vstd::prelude::*;

pub mod baby;

verus! {

/// A kind of enemy.
pub trait Enemy {
    /// Hook that runs when an enemy of this kind is to appear.
    fn spawn();
}

} // verus!
