//! The decisions of a Linux desktop service: which server process to keep
//! running for which session, how to read what the system's tools print, and
//! what to hand to them.

pub mod audio;
pub mod cursor;
pub mod desktop;
pub mod display;
pub mod environment;
pub mod input;
pub mod pass;
pub mod pattern;
pub mod process;
pub mod replies;
pub mod service;
pub mod sessions;
pub mod supervision;
pub mod text;
