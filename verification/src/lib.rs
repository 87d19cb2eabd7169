//! World server game logic: object identifiers, wire encodings of the
//! protocol's small records, character inventory and the state machines that
//! drive a character's session.

pub mod wire;
pub mod auth;
pub mod guid;
pub mod game_enums;
pub mod constants;
pub mod data;
pub mod data_types;
pub mod character;
pub mod handlers;
pub mod client;
pub mod client_manager;
pub mod connection;
