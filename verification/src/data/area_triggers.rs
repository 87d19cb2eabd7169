//! Area triggers: places in the world that do something when a character
//! enters them, known by their id.

use crate::data::location::WorldZoneLocation;
use std::collections::HashMap;
use vstd::prelude::*;

verus! {

broadcast use vstd::std_specs::hash::group_hash_axioms;

/// What an area trigger does.
#[derive(PartialEq, Eq, Structural, Clone, Copy, Debug)]
pub enum AreaTriggerPurpose {
    /// It teleports to a place.
    Teleport(WorldZoneLocation),
    /// It marks a resting area.
    RestedArea,
    /// Nothing known.
    Unknown,
}

/// The extent of a box-shaped trigger; sizes and yaw are the bit patterns
/// of their 32-bit floats.
#[derive(PartialEq, Eq, Structural, Clone, Copy, Debug)]
pub struct AreaTriggerBox {
    pub size_x_bits: u32,
    pub size_y_bits: u32,
    pub size_z_bits: u32,
    pub orientation_bits: u32,
}

/// The shape of a trigger: a sphere of a radius (as float bits), or a box.
#[derive(PartialEq, Eq, Structural, Clone, Copy, Debug)]
pub enum AreaTriggerShape {
    Sphere(u32),
    Box(AreaTriggerBox),
}

/// An area trigger: where it is, its shape and what it does. Coordinates
/// are the bit patterns of their 32-bit floats.
#[derive(PartialEq, Eq, Structural, Clone, Copy, Debug)]
pub struct AreaTrigger {
    pub id: u32,
    pub map_id: u32,
    pub x_bits: u32,
    pub y_bits: u32,
    pub z_bits: u32,
    pub shape: AreaTriggerShape,
    pub purpose: AreaTriggerPurpose,
}

/// The known area triggers, by id.
pub struct AreaTriggers {
    triggers: HashMap<u32, AreaTrigger>,
}

impl View for AreaTriggers {
    type V = Map<u32, AreaTrigger>;

    closed spec fn view(&self) -> Map<u32, AreaTrigger> {
        self.triggers@
    }
}

impl AreaTriggers {
    /// No triggers.
    pub fn new() -> (r: Self)
        ensures
            r@ == Map::<u32, AreaTrigger>::empty(),
    {
        AreaTriggers { triggers: HashMap::new() }
    }

    /// Makes `trigger` known under its id, in place of any trigger with the
    /// same id.
    pub fn insert(&mut self, trigger: AreaTrigger)
        ensures
            final(self)@ == old(self)@.insert(trigger.id, trigger),
    {
        self.triggers.insert(trigger.id, trigger);
    }

    /// The trigger with id `key`, if it is known.
    pub fn get_area_trigger(&self, key: u32) -> (r: Option<&AreaTrigger>)
        ensures
            r is Some <==> self@.contains_key(key),
            r matches Some(t) ==> self@[key] == *t,
    {
        self.triggers.get(&key)
    }
}

} // verus!
