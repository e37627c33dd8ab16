//! Child processes, described as plain values: what to run, how its output
//! is treated, and how running it ended. The application spawns the
//! process; the library decides what it is and what its ending means.

use vstd::prelude::*;

verus! {

/// What becomes of a child's standard output and error.
#[derive(Debug, Clone, Copy, PartialEq, Eq, Structural)]
pub enum OutputMode {
    /// The child writes to this program's terminal.
    Inherited,
    /// Both streams go to pipes that are not read; the child is spawned and
    /// then waited for.
    Piped,
    /// Both streams are captured while the child runs to completion; its
    /// standard error is then printed.
    PipedEchoStderr,
}

/// A program to run with its arguments.
pub struct ProcessSpec {
    pub program: String,
    pub args: Vec<String>,
    pub output: OutputMode,
}

/// How running a child process ended.
pub enum ProcessOutcome {
    /// The process could not be started; the error's text.
    SpawnFailed(String),
    /// Waiting for the process failed; the error's text.
    WaitFailed(String),
    /// The process ran and exited, successfully or not; `status` is the
    /// exit status as text.
    Exited { success: bool, status: String },
}

/// The texts of a sequence of strings.
pub open spec fn texts(v: Seq<String>) -> Seq<Seq<char>> {
    v.map_values(|s: String| s@)
}

/// The arguments of `p`, as texts.
pub open spec fn arg_texts(p: ProcessSpec) -> Seq<Seq<char>> {
    texts(p.args@)
}

} // verus!
