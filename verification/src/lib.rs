//! Decisions and text of a Discord starboard bot, kept apart from the network and
//! the database so that each rule can be stated and proved.
pub mod commands;
pub mod discord;
pub mod events;
pub mod starboard;
pub mod text;

