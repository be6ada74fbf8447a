//! Verified core of ssh-paste.
mod text;
pub mod sh;
pub mod config;
pub mod clipboard;
pub mod serve;
pub mod ssh;
pub mod send;
pub mod setup;
pub mod setup_flow;
