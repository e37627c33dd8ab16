//! Running with administrator rights: finding out whether this process has
//! them, and otherwise re-running this program through `sudo` or `doas`.

use vstd::prelude::*;
use crate::process::{arg_texts, texts, OutputMode, ProcessOutcome, ProcessSpec};

verus! {

/// The tool that grants administrator rights.
#[derive(Debug, Clone, Copy, PartialEq, Eq, Structural)]
pub enum Privilager {
    Sudo,
    Doas,
}

/// Failure while re-running this program with administrator rights.
#[derive(Debug)]
pub enum RunningError {
    Spawning(String),
    BadStatus(String),
}

/// Whether a process runs as the administrator or as a normal user.
#[derive(Debug, Clone, Copy, PartialEq, Eq, Structural)]
pub enum RunningAs {
    Root,
    User,
}

/// Calls `is_sudo::check`, which reports whether the effective user of this
/// process is root, and carries its two variants over one for one. What it
/// returns depends on how the process was started, so nothing is stated of
/// it.
#[verifier::external_body]
fn running_as() -> RunningAs {
    match is_sudo::check() {
        is_sudo::RunningAs::Root => RunningAs::Root,
        is_sudo::RunningAs::User => RunningAs::User,
    }
}

/// Whether running as `r` means having administrator rights.
pub fn is_root(r: RunningAs) -> (b: bool)
    ensures
        b <==> r == RunningAs::Root,
{
    match r {
        RunningAs::Root => true,
        RunningAs::User => false,
    }
}

/// Whether this process runs with administrator rights. The answer depends
/// on how the process was started; it is `is_root` of what the system
/// reports.
pub fn am_sudo() -> bool {
    let running = running_as();
    is_root(running)
}

/// The command line of this program: its arguments, with the first one
/// replaced by the absolute path of the executable when that is known.
pub fn find_this_program(args: Vec<String>, current_exe: Option<String>) -> (r: Vec<String>)
    requires
        current_exe is Some ==> args.len() > 0,
    ensures
        current_exe is None ==> r@ == args@,
        current_exe is Some ==> r@ == args@.update(0, current_exe->Some_0),
{
    let mut args = args;
    if let Some(absolute_path) = current_exe {
        args.set(0, absolute_path);
    }
    args
}

/// The words that come before a program run through `privilager`.
pub open spec fn privilege_prefix(privilager: Privilager) -> Seq<Seq<char>> {
    match privilager {
        Privilager::Sudo => seq!["sudo"@, "-E"@],
        Privilager::Doas => seq!["doas"@],
    }
}

/// Runs `program` (a command line) through `privilager`, by way of
/// `/usr/bin/env`: `sudo -E` keeps the environment, `doas` does not take
/// that option.
pub fn add_sudo(privilager: Privilager, program: Vec<String>) -> (p: ProcessSpec)
    ensures
        p.program@ == "/usr/bin/env"@,
        arg_texts(p) == privilege_prefix(privilager) + texts(program@),
        p.output == OutputMode::Inherited,
{
    let mut args: Vec<String> = match privilager {
        Privilager::Sudo => vec![String::from_str("sudo"), String::from_str("-E")],
        Privilager::Doas => vec![String::from_str("doas")],
    };
    let ghost prefix = args@;
    let mut program = program;
    let ghost prog = program@;
    args.append(&mut program);
    let p = ProcessSpec { program: String::from_str("/usr/bin/env"), args, output: OutputMode::Inherited };
    assert(texts(prefix) =~= privilege_prefix(privilager));
    assert(texts(prefix + prog) =~= texts(prefix) + texts(prog));
    p
}

/// The process that runs this program again through `privilager`, given
/// this program's arguments and, where known, the absolute path of its
/// executable.
pub fn this_program(privilager: Privilager, args: Vec<String>, current_exe: Option<String>) -> (p:
    ProcessSpec)
    requires
        current_exe is Some ==> args.len() > 0,
    ensures
        p.program@ == "/usr/bin/env"@,
        current_exe is None ==> arg_texts(p) == privilege_prefix(privilager) + texts(args@),
        current_exe is Some ==> arg_texts(p) == privilege_prefix(privilager) + texts(
            args@.update(0, current_exe->Some_0),
        ),
        p.output == OutputMode::Inherited,
{
    add_sudo(privilager, find_this_program(args, current_exe))
}

/// What re-running this program came to: a failure to start it or to wait
/// for it is an error with the error's text, and so is an exit with a
/// failure status, with the status's text; a successful exit is success.
pub fn this_program_finished(outcome: ProcessOutcome) -> (r: Result<(), RunningError>)
    ensures
        outcome matches ProcessOutcome::SpawnFailed(e) ==> r matches Err(RunningError::Spawning(m))
            && m == e,
        outcome matches ProcessOutcome::WaitFailed(e) ==> r matches Err(RunningError::BadStatus(m))
            && m == e,
        outcome matches ProcessOutcome::Exited { success, .. } ==> (success <==> r is Ok),
        outcome matches ProcessOutcome::Exited { success, status } ==> (!success ==> (r matches Err(
            RunningError::BadStatus(m),
        ) && m == status)),
{
    match outcome {
        ProcessOutcome::SpawnFailed(e) => Err(RunningError::Spawning(e)),
        ProcessOutcome::WaitFailed(e) => Err(RunningError::BadStatus(e)),
        ProcessOutcome::Exited { success, status } => {
            if success {
                Ok(())
            } else {
                Err(RunningError::BadStatus(status))
            }
        },
    }
}

/// Re-running this program keeps its command line: after the words of the
/// privilege tool comes the executable's absolute path, then the program's
/// own arguments after the first, unchanged and in order.
pub proof fn law_rerun_keeps_arguments(privilager: Privilager, args: Seq<String>, exe: String)
    requires
        args.len() > 0,
    ensures
        ({
            let line = privilege_prefix(privilager) + texts(args.update(0, exe));
            let k = privilege_prefix(privilager).len();
            &&& line.len() == k + args.len()
            &&& line[k as int] == exe@
            &&& line.skip(k + 1int) == texts(args).skip(1)
        }),
{
    let line = privilege_prefix(privilager) + texts(args.update(0, exe));
    let k = privilege_prefix(privilager).len();
    assert(line.skip(k + 1int) =~= texts(args).skip(1));
}

} // verus!
