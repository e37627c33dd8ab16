use flakeup::config::Config;
use flakeup::git::{AddAllErr, PushErr, RunErr};
use flakeup::tasks::{commit_failure_is_fatal, planned_tasks, Task};

#[test]
fn default_plan() {
    let c = Config::build(Ok("/h".to_string())).unwrap();
    assert_eq!(planned_tasks(&c), vec![Task::Switch, Task::Commit, Task::Push]);
}

#[test]
fn full_and_empty_plans() {
    let mut c = Config::build(Ok("/h".to_string())).unwrap();
    c.set_flake_update(true);
    assert_eq!(planned_tasks(&c), vec![Task::UpdateFlake, Task::Switch, Task::Commit, Task::Push]);
    c.set_flake_update(false).set_should_switch(false).set_should_commit(false).set_should_push(false);
    assert_eq!(planned_tasks(&c), Vec::<Task>::new());
    c.set_should_push(true).set_flake_update(true);
    assert_eq!(planned_tasks(&c), vec![Task::UpdateFlake, Task::Push]);
}

#[test]
fn nothing_to_commit_is_not_fatal() {
    assert!(!commit_failure_is_fatal(&RunErr::AddAllErr(AddAllErr::NoFileChange)));
    assert!(commit_failure_is_fatal(&RunErr::AddAllErr(AddAllErr::NoLastCommit)));
    assert!(commit_failure_is_fatal(&RunErr::AddAllErr(AddAllErr::CouldNotRepoHeadName)));
    assert!(commit_failure_is_fatal(&RunErr::PushErr(PushErr::ConversionErr)));
}
