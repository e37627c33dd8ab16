use flakeup::commands::{command_for, command_result, CommandOption, CommandRepoErr};
use flakeup::config::Config;
use flakeup::process::{OutputMode, ProcessOutcome};

fn conf() -> Config {
    let mut c = Config::build(Ok("/home/u".to_string())).unwrap();
    c.set_nix_flake_path(Ok("/home/u".to_string()), "dofi".to_string(), true).unwrap();
    c
}

#[test]
fn switch_command() {
    let p = command_for(&conf(), CommandOption::Swtich);
    assert_eq!(p.program, "nixos-rebuild");
    assert_eq!(p.args, vec!["switch", "--flake", "/home/u/dofi#"]);
    assert_eq!(p.output, OutputMode::PipedEchoStderr);
}

#[test]
fn update_command() {
    let p = command_for(&conf(), CommandOption::Update);
    assert_eq!(p.program, "nix");
    assert_eq!(p.args, vec!["flake", "update", "/home/u/dofi"]);
    assert_eq!(p.output, OutputMode::Piped);
}

#[test]
fn command_results() {
    assert!(command_result(ProcessOutcome::Exited { success: true, status: "exit status: 0".to_string() }).is_ok());
    assert!(matches!(
        command_result(ProcessOutcome::Exited { success: false, status: "exit status: 1".to_string() }),
        Err(CommandRepoErr::NonZeroStatus)
    ));
    match command_result(ProcessOutcome::SpawnFailed("no such file".to_string())) {
        Err(CommandRepoErr::ErrorRunningCommad(m)) => assert_eq!(m, "no such file"),
        other => panic!("unexpected: {:?}", other),
    }
    match command_result(ProcessOutcome::WaitFailed("interrupted".to_string())) {
        Err(CommandRepoErr::ErrorWhileWaiting(m)) => assert_eq!(m, "interrupted"),
        other => panic!("unexpected: {:?}", other),
    }
}
