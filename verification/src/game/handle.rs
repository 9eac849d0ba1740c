use vstd::prelude::*;

verus! {

/// Number of values that the generation part of a handle can take.
pub const GENERATION_SPAN: u128 = 0x1_0000_0000_0000_0000;

/// Names one slot of the simulation's body storage: the slot's index and
/// the generation of the body that lives in it.
#[derive(Clone, Copy, Debug, PartialEq, Eq, Structural, Hash)]
pub struct BodyHandle {
    pub index: usize,
    pub generation: u64,
}

/// Names one slot of the simulation's collider storage.
#[derive(Clone, Copy, Debug, PartialEq, Eq, Structural, Hash)]
pub struct ColliderHandle {
    pub index: usize,
    pub generation: u64,
}

impl BodyHandle {
    /// The handle as one number: the index in the high half, the generation
    /// in the low half.
    pub open spec fn spec_key(self) -> u128 {
        (self.index as int * GENERATION_SPAN as int + self.generation as int) as u128
    }

    pub fn new(index: usize, generation: u64) -> (handle: BodyHandle)
        ensures
            handle == (BodyHandle { index, generation }),
    {
        BodyHandle { index, generation }
    }

    /// The number under which the side table files this handle.
    pub fn key(&self) -> (k: u128)
        ensures
            k == self.spec_key(),
    {
        let high: u128 = self.index as u128;
        let low: u128 = self.generation as u128;
        high * GENERATION_SPAN + low
    }
}

impl ColliderHandle {
    pub fn new(index: usize, generation: u64) -> (handle: ColliderHandle)
        ensures
            handle == (ColliderHandle { index, generation }),
    {
        ColliderHandle { index, generation }
    }
}

/// Two handles are filed under the same number only if they are the same
/// handle.
pub proof fn lemma_key_is_injective(a: BodyHandle, b: BodyHandle)
    ensures
        a.spec_key() == b.spec_key() <==> a == b,
{
    let span: int = GENERATION_SPAN as int;
    let ka: int = a.index as int * span + a.generation as int;
    let kb: int = b.index as int * span + b.generation as int;
    assert(0 <= ka < 0x1_0000_0000_0000_0000_0000_0000_0000_0000);
    assert(0 <= kb < 0x1_0000_0000_0000_0000_0000_0000_0000_0000);
    if ka == kb {
        assert(a.index == b.index);
        assert(a.generation == b.generation);
    }
}

} // verus!
