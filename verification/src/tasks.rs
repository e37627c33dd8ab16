//! What a run does once the user has chosen: which steps, in which order,
//! and which failures end it.

use vstd::prelude::*;
use crate::config::{Config, ConfigView};
use crate::git::{AddAllErr, RunErr};

verus! {

/// A step of a run.
#[derive(Debug, Clone, Copy, PartialEq, Eq, Structural)]
pub enum Task {
    /// Update the flake's inputs.
    UpdateFlake,
    /// Build the flake and switch the system to it.
    Switch,
    /// Stage and commit the flake repository.
    Commit,
    /// Push the flake repository.
    Push,
}

/// `t` alone when `chosen`, else nothing.
pub open spec fn if_chosen(chosen: bool, t: Task) -> Seq<Task> {
    if chosen {
        seq![t]
    } else {
        seq![]
    }
}

/// The steps of a run for configuration `c`, in the order they are taken.
pub open spec fn planned(c: ConfigView) -> Seq<Task> {
    if_chosen(c.should_flake_update, Task::UpdateFlake) + if_chosen(c.should_switch, Task::Switch) + if_chosen(
        c.should_commit,
        Task::Commit,
    ) + if_chosen(c.should_push, Task::Push)
}

/// The steps a run takes: updating, switching, committing and pushing, each
/// when chosen, in that order.
pub fn planned_tasks(conf: &Config) -> (v: Vec<Task>)
    ensures
        v@ == planned(conf@),
{
    let mut v: Vec<Task> = Vec::new();
    if conf.get_should_flake_update() {
        v.push(Task::UpdateFlake);
    }
    if conf.get_should_switch() {
        v.push(Task::Switch);
    }
    if conf.get_should_commit() {
        v.push(Task::Commit);
    }
    if conf.get_should_push() {
        v.push(Task::Push);
    }
    assert(v@ =~= planned(conf@));
    v
}

/// Whether a failed commit ends the run: finding nothing to commit does
/// not; the run goes on to push.
pub fn commit_failure_is_fatal(e: &RunErr) -> (b: bool)
    ensures
        b <==> !(e matches RunErr::AddAllErr(AddAllErr::NoFileChange)),
{
    match e {
        RunErr::AddAllErr(AddAllErr::NoFileChange) => false,
        _ => true,
    }
}

/// The place of a step in a run.
pub open spec fn rank(t: Task) -> int {
    match t {
        Task::UpdateFlake => 0,
        Task::Switch => 1,
        Task::Commit => 2,
        Task::Push => 3,
    }
}

/// Whether configuration `c` chooses step `t`.
pub open spec fn chosen(c: ConfigView, t: Task) -> bool {
    match t {
        Task::UpdateFlake => c.should_flake_update,
        Task::Switch => c.should_switch,
        Task::Commit => c.should_commit,
        Task::Push => c.should_push,
    }
}

proof fn lemma_concat_contains(x: Seq<Task>, y: Seq<Task>, t: Task)
    ensures
        (x + y).contains(t) <==> x.contains(t) || y.contains(t),
{
    if x.contains(t) {
        let i = choose|i: int| 0 <= i < x.len() && x[i] == t;
        assert((x + y)[i] == t);
    }
    if y.contains(t) {
        let i = choose|i: int| 0 <= i < y.len() && y[i] == t;
        assert((x + y)[x.len() + i] == t);
    }
    if (x + y).contains(t) {
        let i = choose|i: int| 0 <= i < (x + y).len() && (x + y)[i] == t;
        if i < x.len() {
            assert(x[i] == t);
        } else {
            assert(y[i - x.len()] == t);
        }
    }
}

proof fn lemma_when_contains(b: bool, t: Task, u: Task)
    ensures
        if_chosen(b, t).contains(u) <==> b && t == u,
{
    if b {
        assert(if_chosen(b, t)[0] == t);
    }
}

/// A run takes exactly the chosen steps, each once, and always in the
/// order update, switch, commit, push.
pub proof fn law_plan_order(c: ConfigView)
    ensures
        forall|i: int, j: int|
            0 <= i < j < planned(c).len() ==> rank(#[trigger] planned(c)[i]) < rank(
                #[trigger] planned(c)[j],
            ),
        forall|t: Task| planned(c).contains(t) <==> chosen(c, t),
{
    let p = planned(c);
    assert forall|i: int, j: int| 0 <= i < j < p.len() implies rank(#[trigger] p[i]) < rank(
        #[trigger] p[j],
    ) by {
        assert(p.len() <= 4);
    }
    assert forall|t: Task| p.contains(t) <==> chosen(c, t) by {
        let w0 = if_chosen(c.should_flake_update, Task::UpdateFlake);
        let w1 = if_chosen(c.should_switch, Task::Switch);
        let w2 = if_chosen(c.should_commit, Task::Commit);
        let w3 = if_chosen(c.should_push, Task::Push);
        lemma_concat_contains(w0, w1, t);
        lemma_concat_contains(w0 + w1, w2, t);
        lemma_concat_contains(w0 + w1 + w2, w3, t);
        lemma_when_contains(c.should_flake_update, Task::UpdateFlake, t);
        lemma_when_contains(c.should_switch, Task::Switch, t);
        lemma_when_contains(c.should_commit, Task::Commit, t);
        lemma_when_contains(c.should_push, Task::Push, t);
    }
}

} // verus!
