//! A "watch with diff" library: the verified core of a tool that runs a shell
//! command at a fixed interval and highlights, byte by byte, what changed in
//! its output since the previous run.
//!
//! Running the command, parsing arguments, clearing the terminal and sleeping
//! are I/O and live with the binary that drives this library.

pub mod diff;
pub mod digest;
pub mod text;
pub mod watch;
