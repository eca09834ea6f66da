//! The editing core of a small keyboard-driven terminal text editor.
//!
//! The crate holds the text buffer with its cursor arithmetic, the kill ring,
//! the message log, the key dispatcher and the session that executes
//! commands. Terminal and file access are left to the program around it:
//! the session tells its caller which file to read or write, or that a path
//! has to be asked for, and takes the outcome back as a plain value.

pub mod actions;
pub mod frame;
pub mod handler;
pub mod keys;
pub mod killring;
pub mod laws;
pub mod mini;
pub mod modeline;
pub mod text;
pub mod trusted;
pub mod window;
