use flakeup::config::{get_home, Config, ConfigBuildErr, EnvVarError, FindHomeErr, SetNixPathErr};

fn home_config() -> Config {
    Config::build(Ok("/home/u".to_string())).unwrap()
}

#[test]
fn build_gives_the_defaults() {
    let c = home_config();
    assert!(!c.get_should_flake_update());
    assert!(c.get_should_switch());
    assert!(!c.get_should_proxy());
    assert_eq!(c.get_proxy_port(), 1080);
    assert_eq!(c.get_nix_flake_path(), "/home/u/willow");
    assert!(c.get_should_commit());
    assert_eq!(c.get_commit_message(), "feat(): make daily changes");
    assert!(c.get_should_push());
}

#[test]
fn build_with_trailing_separator_in_home() {
    let c = Config::build(Ok("/home/u/".to_string())).unwrap();
    assert_eq!(c.get_nix_flake_path(), "/home/u/willow");
}

#[test]
fn build_fails_without_home() {
    match Config::build(Err(FindHomeErr::CouldNotFindHome)) {
        Err(ConfigBuildErr::HomeErr(FindHomeErr::CouldNotFindHome)) => (),
        other => panic!("unexpected: {:?}", other),
    }
}

#[test]
fn get_home_cases() {
    assert_eq!(get_home(Ok("/root".to_string()), true).unwrap(), "/root");
    assert!(matches!(get_home(Ok("/nowhere".to_string()), false), Err(FindHomeErr::CouldNotFindHome)));
    assert!(matches!(
        get_home(Err(EnvVarError::NotPresent), true),
        Err(FindHomeErr::NoHomeVar(EnvVarError::NotPresent))
    ));
    match get_home(Err(EnvVarError::NotUnicode(vec![0x61, 0xff, 0x62])), false) {
        Err(FindHomeErr::NoHomeVar(EnvVarError::NotUnicode(b))) => assert_eq!(b, vec![0x61, 0xff, 0x62]),
        other => panic!("unexpected: {:?}", other),
    }
}

#[test]
fn setters_change_one_field_each() {
    let mut c = home_config();
    c.set_flake_update(true);
    assert!(c.get_should_flake_update());
    c.set_should_switch(false);
    assert!(!c.get_should_switch());
    c.set_should_proxy(true);
    assert!(c.get_should_proxy());
    c.set_proxy_port(8080);
    assert_eq!(c.get_proxy_port(), 8080);
    c.set_should_commit(false);
    assert!(!c.get_should_commit());
    c.set_commit_message("fix: things");
    assert_eq!(c.get_commit_message(), "fix: things");
    c.set_should_push(false);
    assert!(!c.get_should_push());
    assert_eq!(c.get_nix_flake_path(), "/home/u/willow");
}

#[test]
fn setters_chain() {
    let mut c = home_config();
    c.set_should_push(false).set_should_commit(false).set_proxy_port(1);
    assert!(!c.get_should_push());
    assert!(!c.get_should_commit());
    assert_eq!(c.get_proxy_port(), 1);
    assert!(c.get_should_switch());
}

#[test]
fn law_read_after_write_on_values() {
    let mut c = home_config();
    c.set_commit_message("first");
    c.set_commit_message("second");
    assert_eq!(c.get_commit_message(), "second");
    c.set_should_push(true).set_should_push(false);
    assert!(!c.get_should_push());
}

#[test]
fn set_nix_flake_path_existing() {
    let mut c = home_config();
    assert!(c.set_nix_flake_path(Ok("/home/u".to_string()), "dofi".to_string(), true).is_ok());
    assert_eq!(c.get_nix_flake_path(), "/home/u/dofi");
}

#[test]
fn set_nix_flake_path_absolute_name() {
    let mut c = home_config();
    assert!(c.set_nix_flake_path(Ok("/home/u".to_string()), "/etc/nixos".to_string(), true).is_ok());
    assert_eq!(c.get_nix_flake_path(), "/etc/nixos");
}

#[test]
fn set_nix_flake_path_missing_keeps_config() {
    let mut c = home_config();
    match c.set_nix_flake_path(Ok("/home/u".to_string()), "nope".to_string(), false) {
        Err(SetNixPathErr::PathNotFound(p)) => assert_eq!(p, "/home/u/nope"),
        other => panic!("unexpected: {:?}", other),
    }
    assert_eq!(c.get_nix_flake_path(), "/home/u/willow");
}

#[test]
fn set_nix_flake_path_without_home() {
    let mut c = home_config();
    match c.set_nix_flake_path(Err(FindHomeErr::CouldNotFindHome), "dofi".to_string(), true) {
        Err(SetNixPathErr::HomePathErr(FindHomeErr::CouldNotFindHome)) => (),
        other => panic!("unexpected: {:?}", other),
    }
    assert_eq!(c.get_nix_flake_path(), "/home/u/willow");
}

#[test]
fn config_clones() {
    let c = home_config();
    let d = c.clone();
    assert_eq!(d.get_nix_flake_path(), c.get_nix_flake_path());
}
