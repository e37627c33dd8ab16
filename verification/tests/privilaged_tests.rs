use flakeup::privilaged::{
    add_sudo, am_sudo, find_this_program, is_root, this_program, this_program_finished, Privilager,
    RunningAs, RunningError,
};
use flakeup::process::{OutputMode, ProcessOutcome};

fn strings(v: &[&str]) -> Vec<String> {
    v.iter().map(|s| s.to_string()).collect()
}

#[test]
fn find_this_program_replaces_first_argument() {
    let args = strings(&["prog", "-x", "y"]);
    assert_eq!(
        find_this_program(args.clone(), Some("/usr/bin/prog".to_string())),
        strings(&["/usr/bin/prog", "-x", "y"])
    );
    assert_eq!(find_this_program(args.clone(), None), args);
    assert_eq!(find_this_program(Vec::new(), None), Vec::<String>::new());
}

#[test]
fn add_sudo_prefixes() {
    let p = add_sudo(Privilager::Sudo, strings(&["/bin/p", "a"]));
    assert_eq!(p.program, "/usr/bin/env");
    assert_eq!(p.args, strings(&["sudo", "-E", "/bin/p", "a"]));
    assert_eq!(p.output, OutputMode::Inherited);
    let q = add_sudo(Privilager::Doas, strings(&["/bin/p"]));
    assert_eq!(q.args, strings(&["doas", "/bin/p"]));
}

#[test]
fn this_program_reruns_with_absolute_path() {
    let p = this_program(Privilager::Sudo, strings(&["p", "--flag"]), Some("/opt/p".to_string()));
    assert_eq!(p.program, "/usr/bin/env");
    assert_eq!(p.args, strings(&["sudo", "-E", "/opt/p", "--flag"]));
    let q = this_program(Privilager::Doas, strings(&["p"]), None);
    assert_eq!(q.args, strings(&["doas", "p"]));
}

#[test]
fn this_program_outcomes() {
    assert!(this_program_finished(ProcessOutcome::Exited {
        success: true,
        status: "exit status: 0".to_string()
    })
    .is_ok());
    match this_program_finished(ProcessOutcome::SpawnFailed("e1".to_string())) {
        Err(RunningError::Spawning(m)) => assert_eq!(m, "e1"),
        other => panic!("unexpected: {:?}", other),
    }
    match this_program_finished(ProcessOutcome::WaitFailed("e2".to_string())) {
        Err(RunningError::BadStatus(m)) => assert_eq!(m, "e2"),
        other => panic!("unexpected: {:?}", other),
    }
}

#[test]
fn failed_rerun_is_bad_status() {
    match this_program_finished(ProcessOutcome::Exited {
        success: false,
        status: "exit status: 1".to_string(),
    }) {
        Err(RunningError::BadStatus(m)) => assert_eq!(m, "exit status: 1"),
        other => panic!("unexpected: {:?}", other),
    }
}

#[test]
fn root_check() {
    assert!(is_root(RunningAs::Root));
    assert!(!is_root(RunningAs::User));
    let expected = is_sudo::check() == is_sudo::RunningAs::Root;
    assert_eq!(am_sudo(), expected);
}
