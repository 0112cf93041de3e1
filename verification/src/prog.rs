//! The shell's `run` command.

use vstd::prelude::*;
use vstd::string::StringExecFns;

verus! {

/// The `run <filename> [args...]` shell command.
pub struct RunCommand;

/// What the command does with its arguments.
pub enum Launch {
    /// No file name: show the usage line.
    Usage,
    /// Load `path` and run it with the remaining arguments.
    Load { path: String, prog_args: Vec<String> },
}

/// How a run ended, as the command reports it.
pub enum RunReport<E> {
    /// The program finished with exit status 0.
    Completed,
    /// The program finished with a non-zero exit status.
    ExitedWith(i32),
    /// The run failed.
    Failed(E),
}

impl RunCommand {
    /// The command's name.
    pub fn name(&self) -> (r: &'static str)
        ensures
            r@ == "run"@,
    {
        "run"
    }

    /// The command's one-line description.
    pub fn description(&self) -> (r: &'static str)
        ensures
            r@ == "Run a program"@,
    {
        "Run a program"
    }

    /// The usage line shown when no file name is given.
    pub fn usage(&self) -> (r: &'static str)
        ensures
            r@ == "Usage: run <filename>"@,
    {
        "Usage: run <filename>"
    }

    /// Reads the command's arguments: the first is the program's file, the
    /// rest are handed to the program.
    pub fn launch(&self, args: &Vec<String>) -> (r: Launch)
        ensures
            args@.len() == 0 ==> r is Usage,
            args@.len() > 0 ==> (r matches Launch::Load { path, prog_args } && path@ == args@[0]@
                && prog_args@ == args@.subrange(1, args@.len() as int)),
    {
        if args.len() == 0 {
            return Launch::Usage;
        }
        let path = args[0].clone();
        let mut prog_args: Vec<String> = Vec::new();
        let mut i: usize = 1;
        while i < args.len()
            invariant
                1 <= i <= args@.len(),
                prog_args@ == args@.subrange(1, i as int),
            decreases args@.len() - i,
        {
            prog_args.push(args[i].clone());
            assert(prog_args@ =~= args@.subrange(1, i + 1));
            i = i + 1;
        }
        Launch::Load { path, prog_args }
    }

    /// How the command reports a finished run.
    pub fn report<E>(&self, result: Result<i32, E>) -> (r: RunReport<E>)
        ensures
            result == Ok::<i32, E>(0) ==> r is Completed,
            forall|code: i32| result == Ok::<i32, E>(code) && code != 0 ==> r == RunReport::<E>::ExitedWith(code),
            result matches Err(e) ==> r == RunReport::<E>::Failed(e),
    {
        match result {
            Ok(code) => if code == 0 { RunReport::Completed } else { RunReport::ExitedWith(code) },
            Err(e) => RunReport::Failed(e),
        }
    }
}

/// The decimal digits of a natural number, without leading zeros.
pub open spec fn digits(n: nat) -> Seq<char>
    decreases n,
{
    if n < 10 {
        seq![(48 + n) as char]
    } else {
        digits(n / 10).push((48 + n % 10) as char)
    }
}

/// The decimal text of an integer: its digits, after a `-` when negative.
pub open spec fn decimal(n: int) -> Seq<char> {
    if n < 0 { seq!['-'] + digits((-n) as nat) } else { digits(n as nat) }
}

/// `i32::to_string` (the integer's `Display`): claimed to give its decimal
/// text.
#[verifier::external_body]
fn i32_to_string(n: i32) -> (r: String)
    ensures
        r@ == decimal(n as int),
{
    n.to_string()
}

impl RunCommand {
    /// The line shown when the program's file cannot be read.
    pub fn read_failed(&self, path: &str) -> (r: String)
        ensures
            r@ == "Failed to read "@ + path@,
    {
        let mut msg = "Failed to read ".to_owned();
        msg.append(path);
        msg
    }
}

impl RunReport<String> {
    /// The line shown when the run has ended; a failure is given by its
    /// error text.
    pub fn message(&self) -> (r: String)
        ensures
            *self is Completed ==> r@ == "Program completed"@,
            forall|code: i32| *self == RunReport::<String>::ExitedWith(code)
                ==> r@ == "Program exited with code "@ + decimal(code as int),
            forall|text: String| *self == RunReport::<String>::Failed(text)
                ==> r@ == "Error during program execution: "@ + text@,
    {
        match self {
            RunReport::Completed => "Program completed".to_owned(),
            RunReport::ExitedWith(code) => {
                let mut msg = "Program exited with code ".to_owned();
                let digits = i32_to_string(*code);
                msg.append(digits.as_str());
                msg
            },
            RunReport::Failed(text) => {
                let mut msg = "Error during program execution: ".to_owned();
                msg.append(text.as_str());
                msg
            },
        }
    }
}

} // verus!
