//! A character's state: what it wears, and the state machines of its
//! session.

pub mod character_inventory;
pub mod character_fields;
pub mod character_first_login;
pub mod character_items;
pub mod character_manager;
pub mod character_name;
pub mod character_cinematic;
pub mod character_rested;
pub mod character_database;
pub mod character_range;
pub mod character_values;
