//! Protocol constants: update-field indices, flags, and slot numbers.

pub mod cinematic;
pub mod inventory;
pub mod social;
pub mod stand_state;
pub mod unit_fields;
pub mod unit_flags;
pub mod updates;
