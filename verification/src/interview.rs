//! The questions put to the user before a run, as a state machine: the
//! library says which question comes next and what each answer changes;
//! the application asks them.

use vstd::prelude::*;
use crate::config::{
    Config, ConfigView, FindHomeErr, GetInfoErr, SetNixPathErr, default_commit_message, default_config,
    default_proxy_port,
};
use crate::paths::joined;
use crate::port::{parse_port, port_value};

verus! {

/// A question put to the user.
#[derive(Debug, Clone, Copy, PartialEq, Eq, Structural)]
pub enum Question {
    UpdateFlake,
    Switch,
    UseProxy,
    ProxyPort,
    FlakePath,
    Commit,
    CommitMessage,
    Push,
}

/// How a question is put: as a yes/no confirmation or as a line of text,
/// with the answer offered by default. A text answer to `must_be_directory`
/// is accepted only when it names a directory below the home directory.
pub enum Prompt {
    Confirm { message: String, default: bool },
    Text { message: String, default_text: String, must_be_directory: bool },
}

/// An answer, as a mathematical value: a confirmation, a port, the flake
/// path already joined onto the home directory, or a commit message.
pub enum AnswerView {
    Confirm(bool),
    Port(u64),
    FlakePath(Seq<char>),
    Message(Seq<char>),
}

/// Where the questions stand: the configuration gathered so far and the
/// question still to be answered, if any.
pub struct InterviewView {
    pub config: ConfigView,
    pub pending: Option<Question>,
}

/// The questions being put, with the configuration they fill in.
pub struct Interview {
    config: Config,
    pending: Option<Question>,
}

impl View for Interview {
    type V = InterviewView;

    closed spec fn view(&self) -> InterviewView {
        InterviewView { config: self.config@, pending: self.pending }
    }
}

/// Whether `q` is answered yes or no.
pub open spec fn is_confirm(q: Question) -> bool {
    match q {
        Question::ProxyPort | Question::FlakePath | Question::CommitMessage => false,
        _ => true,
    }
}

/// The text shown for `q`.
pub open spec fn question_message(q: Question) -> Seq<char> {
    match q {
        Question::UpdateFlake => "Update Flake?"@,
        Question::Switch => "Switch?"@,
        Question::UseProxy => "use proxy?"@,
        Question::ProxyPort => "Port:"@,
        Question::FlakePath => "Flake Path:"@,
        Question::Commit => "Commit?"@,
        Question::CommitMessage => "commit message:"@,
        Question::Push => "push?"@,
    }
}

/// The answer offered by default to a yes/no question.
pub open spec fn confirm_default(q: Question) -> bool {
    match q {
        Question::UpdateFlake | Question::UseProxy => false,
        _ => true,
    }
}

/// The answer offered by default to a text question.
pub open spec fn text_default(q: Question) -> Seq<char> {
    match q {
        Question::ProxyPort => "1080"@,
        Question::FlakePath => "dofi"@,
        _ => "feat(): make quick daily changes"@,
    }
}

/// The question that follows `q` when it was answered `yes` (for a text
/// question, `yes` does not matter). The port is asked only after choosing
/// a proxy, the commit message only after choosing to commit.
pub open spec fn next_question(q: Question, yes: bool) -> Option<Question> {
    match q {
        Question::UpdateFlake => Some(Question::Switch),
        Question::Switch => Some(Question::UseProxy),
        Question::UseProxy => if yes {
            Some(Question::ProxyPort)
        } else {
            Some(Question::FlakePath)
        },
        Question::ProxyPort => Some(Question::FlakePath),
        Question::FlakePath => Some(Question::Commit),
        Question::Commit => if yes {
            Some(Question::CommitMessage)
        } else {
            Some(Question::Push)
        },
        Question::CommitMessage => Some(Question::Push),
        Question::Push => None,
    }
}

/// The configuration after answering the yes/no question `q` with `yes`.
pub open spec fn apply_confirm(c: ConfigView, q: Question, yes: bool) -> ConfigView {
    match q {
        Question::UpdateFlake => ConfigView { should_flake_update: yes, ..c },
        Question::Switch => ConfigView { should_switch: yes, ..c },
        Question::UseProxy => ConfigView { should_proxy: yes, ..c },
        Question::Commit => ConfigView { should_commit: yes, ..c },
        Question::Push => ConfigView { should_push: yes, ..c },
        _ => c,
    }
}

/// Where the questions stand after answer `a`. An answer of the wrong kind
/// for the pending question, or one given when nothing is pending, changes
/// nothing.
pub open spec fn step(s: InterviewView, a: AnswerView) -> InterviewView {
    match s.pending {
        None => s,
        Some(q) => match a {
            AnswerView::Confirm(yes) => if is_confirm(q) {
                InterviewView { config: apply_confirm(s.config, q, yes), pending: next_question(q, yes) }
            } else {
                s
            },
            AnswerView::Port(port) => if q == Question::ProxyPort {
                InterviewView {
                    config: ConfigView { proxy_port: port, ..s.config },
                    pending: next_question(q, true),
                }
            } else {
                s
            },
            AnswerView::FlakePath(path) => if q == Question::FlakePath {
                InterviewView {
                    config: ConfigView { nix_flake_path: path, ..s.config },
                    pending: next_question(q, true),
                }
            } else {
                s
            },
            AnswerView::Message(m) => if q == Question::CommitMessage {
                InterviewView {
                    config: ConfigView { commit_message: m, ..s.config },
                    pending: next_question(q, true),
                }
            } else {
                s
            },
        },
    }
}

/// Where the questions stand before any answer, for the home directory `home`.
pub open spec fn start_view(home: Seq<char>) -> InterviewView {
    InterviewView { config: default_config(home), pending: Some(Question::UpdateFlake) }
}

/// How question `q` is put.
pub fn prompt_for(q: Question) -> (p: Prompt)
    ensures
        is_confirm(q) ==> (p matches Prompt::Confirm { message, default } && message@
            == question_message(q) && default == confirm_default(q)),
        !is_confirm(q) ==> (p matches Prompt::Text { message, default_text, must_be_directory }
            && message@ == question_message(q) && default_text@ == text_default(q) && (
        must_be_directory <==> q == Question::FlakePath)),
{
    match q {
        Question::UpdateFlake => Prompt::Confirm {
            message: String::from_str("Update Flake?"),
            default: false,
        },
        Question::Switch => Prompt::Confirm { message: String::from_str("Switch?"), default: true },
        Question::UseProxy => Prompt::Confirm {
            message: String::from_str("use proxy?"),
            default: false,
        },
        Question::ProxyPort => Prompt::Text {
            message: String::from_str("Port:"),
            default_text: String::from_str("1080"),
            must_be_directory: false,
        },
        Question::FlakePath => Prompt::Text {
            message: String::from_str("Flake Path:"),
            default_text: String::from_str("dofi"),
            must_be_directory: true,
        },
        Question::Commit => Prompt::Confirm { message: String::from_str("Commit?"), default: true },
        Question::CommitMessage => Prompt::Text {
            message: String::from_str("commit message:"),
            default_text: String::from_str("feat(): make quick daily changes"),
            must_be_directory: false,
        },
        Question::Push => Prompt::Confirm { message: String::from_str("push?"), default: true },
    }
}

/// Whether a typed flake path is accepted, given the directory it names
/// below the home directory and whether that is a directory: `None` when
/// it is, else the message shown to the user.
pub fn check_flake_dir(candidate: &str, is_dir: bool) -> (r: Option<String>)
    ensures
        is_dir ==> r is None,
        !is_dir ==> (r matches Some(m) && m@ == "file does not exist: "@ + candidate@),
{
    if is_dir {
        None
    } else {
        Some(String::from_str("file does not exist: ").concat(candidate))
    }
}

impl Interview {
    /// Starts the questions from the default configuration, given the
    /// outcome of looking up the home directory.
    pub fn start(home: Result<String, FindHomeErr>) -> (r: Result<Self, GetInfoErr>)
        ensures
            home is Err ==> (r matches Err(GetInfoErr::BuildErr(
                crate::config::ConfigBuildErr::HomeErr(e),
            )) && e == home->Err_0),
            home is Ok ==> (r matches Ok(iv) && iv@ == start_view(home->Ok_0@)),
    {
        match Config::build(home) {
            Ok(config) => Ok(Interview { config, pending: Some(Question::UpdateFlake) }),
            Err(e) => Err(GetInfoErr::BuildErr(e)),
        }
    }

    /// The question still to be answered, if any.
    pub fn pending(&self) -> (q: Option<Question>)
        ensures
            q == self@.pending,
    {
        self.pending
    }

    /// Answers the pending yes/no question.
    pub fn answer_confirm(&mut self, yes: bool)
        requires
            old(self)@.pending matches Some(q) && is_confirm(q),
        ensures
            final(self)@ == step(old(self)@, AnswerView::Confirm(yes)),
    {
        let q = self.pending.unwrap();
        match q {
            Question::UpdateFlake => {
                self.config.set_flake_update(yes);
                self.pending = Some(Question::Switch);
            },
            Question::Switch => {
                self.config.set_should_switch(yes);
                self.pending = Some(Question::UseProxy);
            },
            Question::UseProxy => {
                self.config.set_should_proxy(yes);
                self.pending = if yes {
                    Some(Question::ProxyPort)
                } else {
                    Some(Question::FlakePath)
                };
            },
            Question::Commit => {
                self.config.set_should_commit(yes);
                self.pending = if yes {
                    Some(Question::CommitMessage)
                } else {
                    Some(Question::Push)
                };
            },
            _ => {
                self.config.set_should_push(yes);
                self.pending = None;
            },
        }
    }

    /// Answers the port question with the typed `text`, which must read as
    /// a port number.
    pub fn answer_port(&mut self, text: &str)
        requires
            old(self)@.pending == Some(Question::ProxyPort),
            port_value(text@) is Ok,
        ensures
            final(self)@ == step(old(self)@, AnswerView::Port(port_value(text@)->Ok_0)),
    {
        let port: u64 = match parse_port(text) {
            Ok(p) => p,
            Err(_) => vstd::pervasive::unreached(),
        };
        self.config.set_proxy_port(port);
        self.pending = Some(Question::FlakePath);
    }

    /// Answers the flake path question with `path_name`, given the outcome
    /// of looking up the home directory and whether `path_name` joined onto
    /// it exists. On an error the questions stand where they were.
    pub fn answer_flake_path(
        &mut self,
        home: Result<String, FindHomeErr>,
        path_name: String,
        path_exists: bool,
    ) -> (r: Result<(), GetInfoErr>)
        requires
            old(self)@.pending == Some(Question::FlakePath),
        ensures
            home is Err ==> (r matches Err(GetInfoErr::NixPathErr(SetNixPathErr::HomePathErr(e)))
                && e == home->Err_0),
            home is Ok && !path_exists ==> (r matches Err(
                GetInfoErr::NixPathErr(SetNixPathErr::PathNotFound(p)),
            ) && p@ == joined(home->Ok_0@, path_name@)),
            home is Ok && path_exists ==> r is Ok,
            r is Ok ==> final(self)@ == step(
                old(self)@,
                AnswerView::FlakePath(joined(home->Ok_0@, path_name@)),
            ),
            r is Err ==> final(self)@ == old(self)@,
    {
        match self.config.set_nix_flake_path(home, path_name, path_exists) {
            Ok(()) => {
                self.pending = Some(Question::Commit);
                Ok(())
            },
            Err(e) => Err(GetInfoErr::NixPathErr(e)),
        }
    }

    /// Answers the commit message question.
    pub fn answer_commit_message(&mut self, message: &str)
        requires
            old(self)@.pending == Some(Question::CommitMessage),
        ensures
            final(self)@ == step(old(self)@, AnswerView::Message(message@)),
    {
        self.config.set_commit_message(message);
        self.pending = Some(Question::Push);
    }

    /// The configuration gathered, once every question is answered.
    pub fn finish(self) -> (c: Config)
        requires
            self@.pending is None,
        ensures
            c@ == self@.config,
    {
        self.config
    }
}

/// Where the questions stand after the answers `answers`, given in turn.
pub open spec fn run_answers(s: InterviewView, answers: Seq<AnswerView>) -> InterviewView
    decreases answers.len(),
{
    if answers.len() == 0 {
        s
    } else {
        run_answers(step(s, answers[0]), answers.drop_first())
    }
}

/// The answers of a complete run, in the order the questions come: the
/// port only after choosing a proxy, the commit message only after
/// choosing to commit.
pub open spec fn answers_in_order(
    update: bool,
    switch: bool,
    proxy: bool,
    port: u64,
    flake_path: Seq<char>,
    commit: bool,
    message: Seq<char>,
    push: bool,
) -> Seq<AnswerView> {
    seq![AnswerView::Confirm(update), AnswerView::Confirm(switch), AnswerView::Confirm(proxy)] + (
    if proxy {
        seq![AnswerView::Port(port)]
    } else {
        seq![]
    }) + seq![AnswerView::FlakePath(flake_path), AnswerView::Confirm(commit)] + (if commit {
        seq![AnswerView::Message(message)]
    } else {
        seq![]
    }) + seq![AnswerView::Confirm(push)]
}

proof fn lemma_run_cons(s: InterviewView, a: AnswerView, rest: Seq<AnswerView>)
    ensures
        run_answers(s, seq![a] + rest) == run_answers(step(s, a), rest),
{
    let all = seq![a] + rest;
    assert(all.len() > 0);
    assert(all[0] == a);
    assert(all.drop_first() =~= rest);
}

/// Answering every question in turn leaves each answer in its place: the
/// choices as given, the port and the commit message when they were asked
/// for and their defaults (port 1080, the default message) when they were
/// not, and the flake path answered. No question is left pending.
pub proof fn law_answers_fill_the_configuration(
    home: Seq<char>,
    update: bool,
    switch: bool,
    proxy: bool,
    port: u64,
    flake_path: Seq<char>,
    commit: bool,
    message: Seq<char>,
    push: bool,
)
    ensures
        run_answers(
            start_view(home),
            answers_in_order(update, switch, proxy, port, flake_path, commit, message, push),
        ) == (InterviewView {
            config: ConfigView {
                should_flake_update: update,
                should_switch: switch,
                should_proxy: proxy,
                proxy_port: if proxy {
                    port
                } else {
                    default_proxy_port()
                },
                nix_flake_path: flake_path,
                should_commit: commit,
                commit_message: if commit {
                    message
                } else {
                    default_commit_message()
                },
                should_push: push,
            },
            pending: None,
        }),
{
    let tail = seq![AnswerView::Confirm(push)];
    let t1 = (if commit {
        seq![AnswerView::Message(message)]
    } else {
        seq![]
    }) + tail;
    let t2 = seq![AnswerView::FlakePath(flake_path), AnswerView::Confirm(commit)] + t1;
    let t3 = (if proxy {
        seq![AnswerView::Port(port)]
    } else {
        seq![]
    }) + t2;
    let all = answers_in_order(update, switch, proxy, port, flake_path, commit, message, push);
    assert(all =~= seq![AnswerView::Confirm(update)] + (seq![AnswerView::Confirm(switch)] + (
    seq![AnswerView::Confirm(proxy)] + t3)));
    let s0 = start_view(home);
    lemma_run_cons(s0, AnswerView::Confirm(update), seq![AnswerView::Confirm(switch)] + (seq![
        AnswerView::Confirm(proxy),
    ] + t3));
    let s1 = step(s0, AnswerView::Confirm(update));
    lemma_run_cons(s1, AnswerView::Confirm(switch), seq![AnswerView::Confirm(proxy)] + t3);
    let s2 = step(s1, AnswerView::Confirm(switch));
    lemma_run_cons(s2, AnswerView::Confirm(proxy), t3);
    let s3 = step(s2, AnswerView::Confirm(proxy));
    let s4 = if proxy {
        lemma_run_cons(s3, AnswerView::Port(port), t2);
        step(s3, AnswerView::Port(port))
    } else {
        assert(t3 =~= t2);
        s3
    };
    assert(run_answers(s0, all) == run_answers(s4, t2));
    assert(t2 =~= seq![AnswerView::FlakePath(flake_path)] + (seq![AnswerView::Confirm(commit)] + t1));
    lemma_run_cons(s4, AnswerView::FlakePath(flake_path), seq![AnswerView::Confirm(commit)] + t1);
    let s5 = step(s4, AnswerView::FlakePath(flake_path));
    lemma_run_cons(s5, AnswerView::Confirm(commit), t1);
    let s6 = step(s5, AnswerView::Confirm(commit));
    let s7 = if commit {
        lemma_run_cons(s6, AnswerView::Message(message), tail);
        step(s6, AnswerView::Message(message))
    } else {
        assert(t1 =~= tail);
        s6
    };
    assert(run_answers(s0, all) == run_answers(s7, tail));
    assert(tail =~= seq![AnswerView::Confirm(push)] + Seq::<AnswerView>::empty());
    lemma_run_cons(s7, AnswerView::Confirm(push), Seq::<AnswerView>::empty());
}

/// How many answers at most remain once `q` is pending, `q`'s included.
pub open spec fn answers_left(q: Question) -> nat {
    match q {
        Question::UpdateFlake => 8,
        Question::Switch => 7,
        Question::UseProxy => 6,
        Question::ProxyPort => 5,
        Question::FlakePath => 4,
        Question::Commit => 3,
        Question::CommitMessage => 2,
        Question::Push => 1,
    }
}

/// The questions always come to an end: each answer leaves fewer answers
/// to give, and no run asks more than eight questions.
pub proof fn law_questions_end(q: Question, yes: bool)
    ensures
        answers_left(q) <= 8,
        next_question(q, yes) matches Some(n) ==> answers_left(n) < answers_left(q),
        next_question(q, yes) is None ==> q == Question::Push,
{
}

} // verus!
