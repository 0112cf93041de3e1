//! The state a running guest program shares with its host functions.

use vstd::prelude::*;

verus! {

/// Per-program host state: the program's arguments, and the exit code that
/// `os::proc::exit` records before it stops the program.
pub struct HostState {
    pub exit_code: Option<i32>,
    pub args: Vec<String>,
}

impl HostState {
    /// The state of a program that has just been started with `args`.
    pub fn new(args: Vec<String>) -> (r: HostState)
        ensures
            r.exit_code is None,
            r.args@ == args@,
    {
        HostState { exit_code: None, args }
    }

    /// The program's result: the code it passed to `os::proc::exit`, or 0
    /// when it never called it.
    pub fn exit_status(&self) -> (r: i32)
        ensures
            r == exit_status_of(self.exit_code),
    {
        match self.exit_code {
            Some(code) => code,
            None => 0,
        }
    }
}

/// A program's result given the exit code it recorded, if any.
pub open spec fn exit_status_of(exit_code: Option<i32>) -> i32 {
    match exit_code {
        Some(code) => code,
        None => 0,
    }
}

} // verus!
