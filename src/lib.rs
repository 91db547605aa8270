//! A directory of chat users' locations: the location model, its stored
//! form, the upsert store contract, and the command handlers around them.

pub mod commands;
pub mod decimal;
pub mod directory;
pub mod error;
pub mod geocoding;
pub mod json;
pub mod location;
pub mod memory;
pub mod remote;
