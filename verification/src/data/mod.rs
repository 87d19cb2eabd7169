//! Character data records.

pub mod action_bar;
pub mod area_triggers;
pub mod location;
pub mod movement_info;
pub mod packed_time;
pub mod tutorial_flags;

pub use action_bar::{ActionBar, ActionButton};
pub use location::WorldZoneLocation;
pub use movement_info::{MovementFlags, MovementInfo, PositionAndOrientation};
pub use packed_time::PackedTime;
pub use tutorial_flags::TutorialFlags;
