//! The decision logic of a utility that keeps the Windows taskbar hidden.
//!
//! The library decides; the program around it performs the Windows calls.
//! It covers the command line (which command a user asked for and what to do
//! about it), the window messages by which a command reaches the running
//! instance, the AppBar state that is enforced and later restored, the scan
//! that picks the taskbar windows owned by Explorer, the reaction of the
//! running instance to each command, and the choice and decoding of the tray
//! icon.
//!
//! The program is built for 64-bit Windows (x64 and ARM64) only; the
//! contracts of the trusted items over the `ico` crate rest on that.

pub mod platform;
pub mod ipc;
pub mod text;
pub mod cli;
pub mod appbar;
pub mod controller;
pub mod taskbars;
pub mod icon;
pub mod instance;
