//! Host side of the `os::*` WebAssembly ABI: guest-memory access, the host
//! functions' argument checks and return codes, key encoding, line editing,
//! the decisions of the program runner and the shell's `run` command.

pub mod guest;
pub mod host;
pub mod keyboard;
pub mod prog;
pub mod runner;
pub mod state;
