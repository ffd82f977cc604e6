//! Plain packet value types shared with the protocol layer.

use vstd::prelude::*;

verus! {

/// A variable-length 32-bit integer as the wire format carries it.
#[derive(Clone, Copy, PartialEq, Eq, Structural, Debug)]
pub struct VarInt(pub i32);

/// Tells clients which entities ride a vehicle.
#[derive(Clone, PartialEq, Debug)]
pub struct EntityPassengersSetS2c {
    /// Vehicle's entity id
    pub entity_id: VarInt,
    pub passengers: Vec<VarInt>,
}

impl EntityPassengersSetS2c {
    pub fn new(entity_id: VarInt, passengers: Vec<VarInt>) -> (r: EntityPassengersSetS2c)
        ensures
            r.entity_id == entity_id,
            r.passengers == passengers,
    {
        EntityPassengersSetS2c { entity_id, passengers }
    }
}

} // verus!
