//! A place in the world: a position with facing, a zone and a map.

use crate::data::movement_info::PositionAndOrientation;
use vstd::prelude::*;

verus! {

/// A place in the world. Coordinates and facing are carried as the bit
/// patterns of their 32-bit floats.
#[derive(PartialEq, Eq, Structural, Clone, Copy, Debug, Default)]
pub struct WorldZoneLocation {
    pub x_bits: u32,
    pub y_bits: u32,
    pub z_bits: u32,
    pub o_bits: u32,
    pub zone: u32,
    pub map: u32,
}

impl WorldZoneLocation {
    /// The position and facing of this place, without its zone and map.
    pub open spec fn position(self) -> PositionAndOrientation {
        PositionAndOrientation {
            x_bits: self.x_bits,
            y_bits: self.y_bits,
            z_bits: self.z_bits,
            o_bits: self.o_bits,
        }
    }
}

impl From<WorldZoneLocation> for PositionAndOrientation {
    fn from(wzl: WorldZoneLocation) -> (r: PositionAndOrientation) {
        PositionAndOrientation {
            x_bits: wzl.x_bits,
            y_bits: wzl.y_bits,
            z_bits: wzl.z_bits,
            o_bits: wzl.o_bits,
        }
    }
}

impl vstd::std_specs::convert::FromSpecImpl<WorldZoneLocation> for PositionAndOrientation {
    open spec fn obeys_from_spec() -> bool {
        true
    }

    open spec fn from_spec(wzl: WorldZoneLocation) -> PositionAndOrientation {
        wzl.position()
    }
}

} // verus!
