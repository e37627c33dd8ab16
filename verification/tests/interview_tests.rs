use flakeup::config::{ConfigBuildErr, FindHomeErr, GetInfoErr, SetNixPathErr};
use flakeup::interview::{check_flake_dir, prompt_for, Interview, Prompt, Question};

fn confirm(q: Question) -> (String, bool) {
    match prompt_for(q) {
        Prompt::Confirm { message, default } => (message, default),
        Prompt::Text { .. } => panic!("expected a confirmation for {:?}", q),
    }
}

fn text(q: Question) -> (String, String, bool) {
    match prompt_for(q) {
        Prompt::Text { message, default_text, must_be_directory } => {
            (message, default_text, must_be_directory)
        }
        Prompt::Confirm { .. } => panic!("expected a text question for {:?}", q),
    }
}

#[test]
fn prompts() {
    assert_eq!(confirm(Question::UpdateFlake), ("Update Flake?".to_string(), false));
    assert_eq!(confirm(Question::Switch), ("Switch?".to_string(), true));
    assert_eq!(confirm(Question::UseProxy), ("use proxy?".to_string(), false));
    assert_eq!(text(Question::ProxyPort), ("Port:".to_string(), "1080".to_string(), false));
    assert_eq!(text(Question::FlakePath), ("Flake Path:".to_string(), "dofi".to_string(), true));
    assert_eq!(confirm(Question::Commit), ("Commit?".to_string(), true));
    assert_eq!(
        text(Question::CommitMessage),
        ("commit message:".to_string(), "feat(): make quick daily changes".to_string(), false)
    );
    assert_eq!(confirm(Question::Push), ("push?".to_string(), true));
}

#[test]
fn flake_dir_check() {
    assert_eq!(check_flake_dir("/home/u/dofi", true), None);
    assert_eq!(
        check_flake_dir("/home/u/nope", false),
        Some("file does not exist: /home/u/nope".to_string())
    );
}

#[test]
fn all_questions_answered() {
    let mut iv = Interview::start(Ok("/home/u".to_string())).unwrap();
    let mut asked = Vec::new();
    while let Some(q) = iv.pending() {
        asked.push(q);
        match q {
            Question::UpdateFlake => iv.answer_confirm(true),
            Question::Switch => iv.answer_confirm(false),
            Question::UseProxy => iv.answer_confirm(true),
            Question::ProxyPort => iv.answer_port("8080"),
            Question::FlakePath => iv
                .answer_flake_path(Ok("/home/u".to_string()), "dofi".to_string(), true)
                .unwrap(),
            Question::Commit => iv.answer_confirm(true),
            Question::CommitMessage => iv.answer_commit_message("fix: x"),
            Question::Push => iv.answer_confirm(false),
        }
    }
    assert_eq!(
        asked,
        vec![
            Question::UpdateFlake,
            Question::Switch,
            Question::UseProxy,
            Question::ProxyPort,
            Question::FlakePath,
            Question::Commit,
            Question::CommitMessage,
            Question::Push
        ]
    );
    let c = iv.finish();
    assert!(c.get_should_flake_update());
    assert!(!c.get_should_switch());
    assert!(c.get_should_proxy());
    assert_eq!(c.get_proxy_port(), 8080);
    assert_eq!(c.get_nix_flake_path(), "/home/u/dofi");
    assert!(c.get_should_commit());
    assert_eq!(c.get_commit_message(), "fix: x");
    assert!(!c.get_should_push());
}

#[test]
fn declined_questions_keep_defaults() {
    let mut iv = Interview::start(Ok("/home/u".to_string())).unwrap();
    let mut asked = Vec::new();
    while let Some(q) = iv.pending() {
        asked.push(q);
        match q {
            Question::FlakePath => iv
                .answer_flake_path(Ok("/home/u".to_string()), "willow".to_string(), true)
                .unwrap(),
            Question::UseProxy | Question::Commit => iv.answer_confirm(false),
            Question::ProxyPort | Question::CommitMessage => panic!("not asked when declined"),
            _ => iv.answer_confirm(true),
        }
    }
    assert_eq!(asked.len(), 6);
    let c = iv.finish();
    assert!(!c.get_should_proxy());
    assert_eq!(c.get_proxy_port(), 1080);
    assert!(!c.get_should_commit());
    assert_eq!(c.get_commit_message(), "feat(): make daily changes");
    assert!(c.get_should_push());
}

#[test]
fn start_without_home() {
    match Interview::start(Err(FindHomeErr::CouldNotFindHome)) {
        Err(GetInfoErr::BuildErr(ConfigBuildErr::HomeErr(FindHomeErr::CouldNotFindHome))) => (),
        Err(e) => panic!("unexpected: {:?}", e),
        Ok(_) => panic!("expected an error"),
    }
}

#[test]
fn missing_flake_path_is_an_error_and_keeps_the_question() {
    let mut iv = Interview::start(Ok("/home/u".to_string())).unwrap();
    iv.answer_confirm(false);
    iv.answer_confirm(true);
    iv.answer_confirm(false);
    assert_eq!(iv.pending(), Some(Question::FlakePath));
    match iv.answer_flake_path(Ok("/home/u".to_string()), "nope".to_string(), false) {
        Err(GetInfoErr::NixPathErr(SetNixPathErr::PathNotFound(p))) => assert_eq!(p, "/home/u/nope"),
        other => panic!("unexpected: {:?}", other),
    }
    assert_eq!(iv.pending(), Some(Question::FlakePath));
    match iv.answer_flake_path(Err(FindHomeErr::CouldNotFindHome), "dofi".to_string(), true) {
        Err(GetInfoErr::NixPathErr(SetNixPathErr::HomePathErr(FindHomeErr::CouldNotFindHome))) => (),
        other => panic!("unexpected: {:?}", other),
    }
}
