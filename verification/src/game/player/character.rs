use vstd::prelude::*;
use std::collections::HashSet;

use crate::game::handle::BodyHandle;
use crate::game::input::KEY_A;
use crate::game::input::KEY_D;
use crate::game::input::KEY_S;
use crate::game::input::KEY_W;
use crate::game::sync::SyncOrder;

verus! {

broadcast use vstd::std_specs::hash::group_hash_axioms;

/// Change of velocity, along either axis, that one pressed movement key
/// gives the player per update.
pub const MOVE_STRENGTH: i32 = 5;

/// A change of velocity to apply to a body. `y` grows downwards.
#[derive(Clone, Copy, Debug, PartialEq, Eq, Structural)]
pub struct Impulse {
    pub body_handle: BodyHandle,
    pub x: i32,
    pub y: i32,
}

/// The player: one body in the simulation and one sprite in the scene.
#[derive(Clone, Copy, Debug, PartialEq, Eq, Structural)]
pub struct Character {
    pub body_handle: BodyHandle,
    pub sprite_uuid: u128,
}

impl Character {
    pub fn new(body_handle: BodyHandle, sprite_uuid: u128) -> (character: Character)
        ensures
            character == (Character { body_handle, sprite_uuid }),
    {
        Character { body_handle, sprite_uuid }
    }

    pub open spec fn spec_move_left(self) -> Impulse {
        Impulse { body_handle: self.body_handle, x: (-MOVE_STRENGTH) as i32, y: 0 }
    }

    pub open spec fn spec_move_right(self) -> Impulse {
        Impulse { body_handle: self.body_handle, x: MOVE_STRENGTH, y: 0 }
    }

    pub open spec fn spec_move_down(self) -> Impulse {
        Impulse { body_handle: self.body_handle, x: 0, y: MOVE_STRENGTH }
    }

    pub open spec fn spec_move_up(self) -> Impulse {
        Impulse { body_handle: self.body_handle, x: 0, y: (-MOVE_STRENGTH) as i32 }
    }

    /// The impulses that the pressed keys give the player: up, left,
    /// right, down, in this order, one for each of the four movement keys
    /// that is pressed.
    pub open spec fn spec_impulses(self, keys: Set<u32>) -> Seq<Impulse> {
        (if keys.contains(KEY_W) {
            seq![self.spec_move_up()]
        } else {
            seq![]
        }) + (if keys.contains(KEY_A) {
            seq![self.spec_move_left()]
        } else {
            seq![]
        }) + (if keys.contains(KEY_D) {
            seq![self.spec_move_right()]
        } else {
            seq![]
        }) + (if keys.contains(KEY_S) {
            seq![self.spec_move_down()]
        } else {
            seq![]
        })
    }

    /// The order that brings the player's sprite up to date. The sprite
    /// turns with the body.
    pub open spec fn spec_sync(self) -> SyncOrder {
        SyncOrder { sprite_uuid: self.sprite_uuid, body_handle: self.body_handle, rotate: true }
    }

    /// What an update asks for the player: the impulses of the pressed
    /// movement keys, to be applied first, then the sync of the sprite.
    pub fn update(&self, keys_pressed: &HashSet<u32>) -> (plan: (Vec<Impulse>, SyncOrder))
        ensures
            plan.0@ == self.spec_impulses(keys_pressed@),
            plan.1 == self.spec_sync(),
    {
        let mut impulses: Vec<Impulse> = Vec::new();
        if keys_pressed.contains(&KEY_W) {
            impulses.push(self.move_up());
        }
        if keys_pressed.contains(&KEY_A) {
            impulses.push(self.move_left());
        }
        if keys_pressed.contains(&KEY_D) {
            impulses.push(self.move_right());
        }
        if keys_pressed.contains(&KEY_S) {
            impulses.push(self.move_down());
        }
        assert(impulses@ =~= self.spec_impulses(keys_pressed@));
        (impulses, self.sync())
    }

    pub fn sync(&self) -> (order: SyncOrder)
        ensures
            order == self.spec_sync(),
    {
        SyncOrder { sprite_uuid: self.sprite_uuid, body_handle: self.body_handle, rotate: true }
    }

    fn move_left(&self) -> (impulse: Impulse)
        ensures
            impulse == self.spec_move_left(),
    {
        Impulse { body_handle: self.body_handle, x: -MOVE_STRENGTH, y: 0 }
    }

    fn move_right(&self) -> (impulse: Impulse)
        ensures
            impulse == self.spec_move_right(),
    {
        Impulse { body_handle: self.body_handle, x: MOVE_STRENGTH, y: 0 }
    }

    fn move_down(&self) -> (impulse: Impulse)
        ensures
            impulse == self.spec_move_down(),
    {
        Impulse { body_handle: self.body_handle, x: 0, y: MOVE_STRENGTH }
    }

    fn move_up(&self) -> (impulse: Impulse)
        ensures
            impulse == self.spec_move_up(),
    {
        Impulse { body_handle: self.body_handle, x: 0, y: -MOVE_STRENGTH }
    }
}

} // verus!
