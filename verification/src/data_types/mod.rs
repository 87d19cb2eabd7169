//! The byte-level forms of character data that the client exchanges.

pub mod action_bar;
pub mod packed_time;
pub mod tutorial_flags;

pub use action_bar::ActionBar;
pub use packed_time::{read_packed_time, write_packed_time, PackedTime};
pub use tutorial_flags::TutorialFlags;
