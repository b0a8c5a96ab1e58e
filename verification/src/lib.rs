//! The decisions of a Telegram bot that cuts screenshots down to the picture.
//!
//! Everything the bot decides or computes is here, with its contract: which
//! messages it works on, what a file is, which frame of a clip to look at, what
//! is cut out of it, under which name and in which shape the result goes back,
//! and what is said when nothing comes of it. Talking to Telegram, to the file
//! system and to ffmpeg is left to the caller.

pub mod clip;
pub mod command;
pub mod delivery;
pub mod ffmpeg;
pub mod format;
pub mod job;
pub mod laws;
pub mod media;
pub mod naming;
pub mod picture;
pub mod reading;
pub mod scratch;
pub mod startup;
pub mod still;
pub mod text;
