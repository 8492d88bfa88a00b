//! The decisions of the `mosaic` terminal multiplexer.
//!
//! A mosaic session is a handful of threads that talk over channels: one owns
//! the terminals, one owns the screen, one listens on a socket and one waits
//! for the session to end. This crate holds what those threads decide. Spawning
//! a terminal, drawing and reading the socket are left to the program around it.

pub mod channels;
pub mod decimal;
pub mod dispatch_laws;
pub mod ending_laws;
pub mod errors;
pub mod file_path;
pub mod instructions;
pub mod ipc;
pub mod ipc_server;
pub mod laws;
pub mod lifecycle;
pub mod little_endian;
pub mod message_laws;
pub mod opts;
pub mod panes;
pub mod pty;
pub mod screen;

pub use channels::SenderWithContext;
pub use instructions::AppInstruction;
pub use opts::Opt;
