//! The decisions behind the server's answers to client messages.

pub mod account_data_handler;
pub mod character_handler;
pub mod equipment_handler;
pub mod login_handler;
pub mod movement_handler;
pub mod social_handler;
pub mod spell_handler;
