//! The starboard: counting a message's stars and keeping its entry on the board in step.
pub mod emotes;
pub mod gazers;
pub mod laws;
pub mod post;
pub mod run;
