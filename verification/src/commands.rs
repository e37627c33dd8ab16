//! The two Nix commands the tool runs: updating the flake's inputs and
//! rebuilding the system from the flake.

use vstd::prelude::*;
use crate::config::{Config, GetInfoErr};
use crate::process::{arg_texts, OutputMode, ProcessOutcome, ProcessSpec};

verus! {

/// Which Nix command to run.
#[derive(Debug, Clone, Copy, PartialEq, Eq, Structural)]
pub enum CommandOption {
    /// Build the flake and switch the system to it.
    Swtich,
    /// Update the flake's inputs.
    Update,
}

/// Failure while running a Nix command.
#[derive(Debug)]
pub enum CommandRepoErr {
    NoConfigCouldBeMade(GetInfoErr),
    /// The flake path could not be turned into text; paths are held as
    /// text here, so this is never produced.
    ErrorInMakingString,
    ErrorRunningCommad(String),
    ErrorWhileWaiting(String),
    NonZeroStatus,
}

/// The program that command `c` runs.
pub open spec fn command_program(c: CommandOption) -> Seq<char> {
    match c {
        CommandOption::Swtich => "nixos-rebuild"@,
        CommandOption::Update => "nix"@,
    }
}

/// The arguments of command `c` for the flake at `flake`.
pub open spec fn command_args(flake: Seq<char>, c: CommandOption) -> Seq<Seq<char>> {
    match c {
        CommandOption::Swtich => seq!["switch"@, "--flake"@, flake + "#"@],
        CommandOption::Update => seq!["flake"@, "update"@, flake],
    }
}

/// How command `c` treats its output.
pub open spec fn command_output(c: CommandOption) -> OutputMode {
    match c {
        CommandOption::Swtich => OutputMode::PipedEchoStderr,
        CommandOption::Update => OutputMode::Piped,
    }
}

/// The process that command `c` runs for configuration `conf`:
/// `nixos-rebuild switch --flake <flake>#`, whose standard error is shown
/// once it has finished, or `nix flake update <flake>`, whose output is not
/// shown.
pub fn command_for(conf: &Config, c: CommandOption) -> (p: ProcessSpec)
    ensures
        p.program@ == command_program(c),
        arg_texts(p) == command_args(conf@.nix_flake_path, c),
        p.output == command_output(c),
{
    let flake = conf.get_nix_flake_path();
    match c {
        CommandOption::Swtich => {
            let target = flake.concat("#");
            let args = vec![String::from_str("switch"), String::from_str("--flake"), target];
            let p = ProcessSpec {
                program: String::from_str("nixos-rebuild"),
                args,
                output: OutputMode::PipedEchoStderr,
            };
            assert(arg_texts(p) =~= command_args(conf@.nix_flake_path, c));
            p
        },
        CommandOption::Update => {
            let args = vec![String::from_str("flake"), String::from_str("update"), flake];
            let p = ProcessSpec {
                program: String::from_str("nix"),
                args,
                output: OutputMode::Piped,
            };
            assert(arg_texts(p) =~= command_args(conf@.nix_flake_path, c));
            p
        },
    }
}

/// What running a Nix command came to: a failure to start it or to wait
/// for it, with the error's text, or an exit that is an error unless it was
/// successful.
pub fn command_result(outcome: ProcessOutcome) -> (r: Result<(), CommandRepoErr>)
    ensures
        outcome matches ProcessOutcome::SpawnFailed(e) ==> r matches Err(
            CommandRepoErr::ErrorRunningCommad(m),
        ) && m == e,
        outcome matches ProcessOutcome::WaitFailed(e) ==> r matches Err(
            CommandRepoErr::ErrorWhileWaiting(m),
        ) && m == e,
        outcome matches ProcessOutcome::Exited { success, .. } ==> (success <==> r is Ok) && (!success
            ==> r matches Err(CommandRepoErr::NonZeroStatus)),
{
    match outcome {
        ProcessOutcome::SpawnFailed(e) => Err(CommandRepoErr::ErrorRunningCommad(e)),
        ProcessOutcome::WaitFailed(e) => Err(CommandRepoErr::ErrorWhileWaiting(e)),
        ProcessOutcome::Exited { success, .. } => {
            if success {
                Ok(())
            } else {
                Err(CommandRepoErr::NonZeroStatus)
            }
        },
    }
}

} // verus!
