//! Command dispatch and device-session management for an interactive shell
//! that controls Bluetooth cameras.
//!
//! The library decides; the program around it performs the radio work and
//! the terminal output. Every handler is a transition: it reads the arguments
//! and the device registry, hands back the lines it wants printed, and either
//! finishes or names the one piece of radio work it is waiting for.

pub mod text;
pub mod line;
pub mod controller;
pub mod command;
pub mod session;
pub mod commands;
pub mod dispatch;
pub mod style;
pub mod laws;
