//! The host functions a guest imports, grouped by import module.

use vstd::prelude::*;

pub mod fs;
pub mod io;
pub mod proc;
pub mod screen;
pub mod time;

verus! {

/// Signal raised by `os::io::yield_now`: the runner yields to the executor,
/// then resumes the program with no values.
#[derive(Clone, Copy, Debug, PartialEq, Eq, Structural)]
pub struct WaitYield;

/// Signal raised by `os::io::read_key`: the runner waits for a key, then
/// resumes the program with the key's code.
#[derive(Clone, Copy, Debug, PartialEq, Eq, Structural)]
pub struct WaitKey;

/// Signal raised by `os::proc::exit`: the runner stops the program and
/// reports the exit code recorded in the host state.
#[derive(Clone, Copy, Debug, PartialEq, Eq, Structural)]
pub struct Exit;

impl WaitYield {
    /// How the signal describes itself.
    pub fn message(&self) -> (r: &'static str)
        ensures
            r@ == "yield to executor"@,
    {
        "yield to executor"
    }
}

impl WaitKey {
    /// How the signal describes itself.
    pub fn message(&self) -> (r: &'static str)
        ensures
            r@ == "wait for key"@,
    {
        "wait for key"
    }
}

impl Exit {
    /// How the signal describes itself.
    pub fn message(&self) -> (r: &'static str)
        ensures
            r@ == "exit"@,
    {
        "exit"
    }
}

/// A group of host functions under one wasm import module.
pub trait HostModule {
    /// The wasm import module name, such as `"os::io"`.
    fn namespace(&self) -> &'static str;
}

} // verus!
