//! What the bot's slash commands decide and answer.
pub mod configuration;
pub mod self_role;
pub mod test;
pub mod unturned;
