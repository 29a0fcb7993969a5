use vstd::prelude::*;
use vstd::string::*;

use crate::process::RawOutput;
use crate::text::{
    decode_lossy, is_yes, is_yes_answer, list2, list3, lossy_text, owned, strip_prefix_repeated,
    strip_repeated, texts, trim, trimmed,
};

verus! {

/// Where a git synchronisation stands.
#[derive(Clone, Copy, Debug, PartialEq, Eq, Structural)]
pub enum GitPhase {
    /// Asking git for the branch that is checked out.
    CurrentBranch,
    /// Fetching that branch from `origin`; a failure here is only a warning.
    Fetch,
    /// Pulling that branch from `origin`.
    Pull,
    /// Asking whether to rebase against the default branch.
    AskRebase,
    /// Asking git for the default branch of `origin`.
    DefaultBranch,
    /// Asking git whether the work tree has changes.
    Status,
    /// Asking whether to stash those changes.
    AskStash,
    /// Stashing the changes.
    Stash,
    /// Rebasing the configured branch onto the default branch.
    Rebase,
    /// Restoring the stashed changes.
    PopStash,
    /// Finished successfully.
    Done,
    /// Stopped by an error.
    Failed,
}

/// What the caller is to do next.
pub enum GitAction {
    /// Run git with these arguments and report how it ended.
    Run(Vec<String>),
    /// Show this question and report the line typed in answer.
    Ask(String),
    /// Stop: a summary on success, the error message on failure.
    Finish(Result<String, String>),
}

/// What came of the last action.
pub enum GitEvent {
    /// Git ran and ended with this output.
    Exited(RawOutput),
    /// Git could not be started, for this reason.
    SpawnFailed(String),
    /// The line typed in answer to a question.
    Answer(String),
    /// No answer could be read, for this reason.
    ReadFailed(String),
}

/// The synchronisation of a working copy with its remote for one branch.
pub struct GitSync {
    /// The configured branch, rebased onto the default branch.
    pub branch: String,
    /// The branch that is checked out, once known.
    pub current: String,
    /// The default branch of `origin`, once known.
    pub default_branch: String,
    /// Whether local changes were stashed before the rebase.
    pub stashed: bool,
    pub phase: GitPhase,
    /// The summary once done, or the error message once failed.
    pub outcome: String,
}

pub ghost struct GitView {
    pub branch: Seq<char>,
    pub current: Seq<char>,
    pub default_branch: Seq<char>,
    pub stashed: bool,
    pub phase: GitPhase,
    pub outcome: Seq<char>,
}

pub ghost enum ActionView {
    Run(Seq<Seq<char>>),
    Ask(Seq<char>),
    Finish(Result<Seq<char>, Seq<char>>),
}

impl View for GitSync {
    type V = GitView;

    open spec fn view(&self) -> GitView {
        GitView {
            branch: self.branch@,
            current: self.current@,
            default_branch: self.default_branch@,
            stashed: self.stashed,
            phase: self.phase,
            outcome: self.outcome@,
        }
    }
}

impl View for GitAction {
    type V = ActionView;

    open spec fn view(&self) -> ActionView {
        match self {
            GitAction::Run(args) => ActionView::Run(texts(args@)),
            GitAction::Ask(q) => ActionView::Ask(q@),
            GitAction::Finish(Ok(s)) => ActionView::Finish(Ok(s@)),
            GitAction::Finish(Err(s)) => ActionView::Finish(Err(s@)),
        }
    }
}

/// The state a synchronisation of `branch` starts in: with no branch there is
/// nothing to do.
pub open spec fn initial(branch: Seq<char>) -> GitView {
    GitView {
        branch,
        current: Seq::<char>::empty(),
        default_branch: Seq::<char>::empty(),
        stashed: false,
        phase: if branch.len() == 0 { GitPhase::Done } else { GitPhase::CurrentBranch },
        outcome: if branch.len() == 0 { "No branch configured"@ } else { Seq::<char>::empty() },
    }
}

pub open spec fn rebase_question() -> Seq<char> {
    "Do you want to perform a rebase against your default branch? (y/n): "@
}

pub open spec fn stash_question() -> Seq<char> {
    "You have unstaged changes. Would you like to stash them before performing the rebase? (y/n): "@
}

/// What to do in each state.
pub open spec fn planned_action(v: GitView) -> ActionView {
    match v.phase {
        GitPhase::CurrentBranch => ActionView::Run(seq!["rev-parse"@, "--abbrev-ref"@, "HEAD"@]),
        GitPhase::Fetch => ActionView::Run(seq!["fetch"@, "origin"@, v.current]),
        GitPhase::Pull => ActionView::Run(seq!["pull"@, "origin"@, v.current]),
        GitPhase::AskRebase => ActionView::Ask(rebase_question()),
        GitPhase::DefaultBranch => ActionView::Run(seq!["symbolic-ref"@, "refs/remotes/origin/HEAD"@]),
        GitPhase::Status => ActionView::Run(seq!["status"@, "--porcelain"@]),
        GitPhase::AskStash => ActionView::Ask(stash_question()),
        GitPhase::Stash => ActionView::Run(seq!["stash"@, "save"@, "--include-untracked"@]),
        GitPhase::Rebase => ActionView::Run(seq!["rebase"@, v.default_branch, v.branch]),
        GitPhase::PopStash => ActionView::Run(seq!["stash"@, "pop"@]),
        GitPhase::Done => ActionView::Finish(Ok(v.outcome)),
        GitPhase::Failed => ActionView::Finish(Err(v.outcome)),
    }
}

pub open spec fn is_command_phase(p: GitPhase) -> bool {
    !(p == GitPhase::AskRebase || p == GitPhase::AskStash || p == GitPhase::Done || p
        == GitPhase::Failed)
}

/// What an error of a git step is reported with, before its detail.
pub open spec fn failure_prefix_text(p: GitPhase) -> Seq<char> {
    match p {
        GitPhase::CurrentBranch => "Failed to get the current branch: "@,
        GitPhase::Fetch => "Failed to fetch latest changes from the remote repository: "@,
        GitPhase::Pull => "Failed to perform a pull to update the local branch: "@,
        GitPhase::Status => "Failed to check Git status: "@,
        GitPhase::Stash => "Failed to stash changes: "@,
        GitPhase::Rebase => "Failed to perform rebase: "@,
        GitPhase::PopStash => "Failed to pop the stash: "@,
        _ => "Failed to read user input: "@,
    }
}

pub open spec fn stdout_text(o: RawOutput) -> Seq<char> {
    trimmed(lossy_text(o.stdout@))
}

pub open spec fn stderr_text(o: RawOutput) -> Seq<char> {
    trimmed(lossy_text(o.stderr@))
}

pub open spec fn go(v: GitView, p: GitPhase) -> GitView {
    GitView { phase: p, ..v }
}

pub open spec fn stop(v: GitView, p: GitPhase, outcome: Seq<char>) -> GitView {
    GitView { phase: p, outcome, ..v }
}

/// Where a git step that succeeded with output `o` leads.
pub open spec fn on_success(v: GitView, o: RawOutput) -> GitView {
    match v.phase {
        GitPhase::CurrentBranch => GitView { current: stdout_text(o), phase: GitPhase::Fetch, ..v },
        GitPhase::Fetch => go(v, GitPhase::Pull),
        GitPhase::Pull => go(v, GitPhase::AskRebase),
        GitPhase::DefaultBranch => GitView {
            default_branch: trimmed(strip_repeated(lossy_text(o.stdout@), "refs/remotes/origin/"@)),
            phase: GitPhase::Status,
            ..v
        },
        GitPhase::Status => if stdout_text(o).len() > 0 {
            go(v, GitPhase::AskStash)
        } else {
            go(v, GitPhase::Rebase)
        },
        GitPhase::Stash => GitView { stashed: true, phase: GitPhase::Rebase, ..v },
        GitPhase::Rebase => if v.stashed {
            go(v, GitPhase::PopStash)
        } else {
            stop(v, GitPhase::Done, "Rebase completed"@)
        },
        _ => stop(v, GitPhase::Done, "Rebase completed"@),
    }
}

/// Where an answer to a question leads.
pub open spec fn on_answer(v: GitView, yes: bool) -> GitView {
    if v.phase == GitPhase::AskRebase {
        if yes {
            go(v, GitPhase::DefaultBranch)
        } else {
            stop(v, GitPhase::Done, "Rebase skipped"@)
        }
    } else {
        if yes {
            go(v, GitPhase::Stash)
        } else {
            stop(
                v,
                GitPhase::Done,
                "Please commit or stash your changes before performing the rebase."@,
            )
        }
    }
}

/// The state after `e`, and the warning to show, if any. A failed fetch is
/// only a warning; the default branch that cannot be determined is an error
/// without detail; any other failure stops with its detail; an event that does
/// not answer the current action changes nothing.
pub open spec fn after(v: GitView, e: GitEvent) -> (GitView, Option<Seq<char>>) {
    if is_command_phase(v.phase) {
        match e {
            GitEvent::Exited(o) => if o.status.spec_success() {
                (on_success(v, o), None)
            } else if v.phase == GitPhase::Fetch {
                (
                    go(v, GitPhase::Pull),
                    Some("Warning: "@ + failure_prefix_text(v.phase) + stderr_text(o)),
                )
            } else if v.phase == GitPhase::DefaultBranch {
                (stop(v, GitPhase::Failed, "Failed to determine the default branch"@), None)
            } else {
                (stop(v, GitPhase::Failed, failure_prefix_text(v.phase) + stderr_text(o)), None)
            },
            GitEvent::SpawnFailed(r) => if v.phase == GitPhase::DefaultBranch {
                (stop(v, GitPhase::Failed, "Failed to determine the default branch"@), None)
            } else {
                (stop(v, GitPhase::Failed, failure_prefix_text(v.phase) + r@), None)
            },
            _ => (v, None),
        }
    } else if v.phase == GitPhase::AskRebase || v.phase == GitPhase::AskStash {
        match e {
            GitEvent::Answer(line) => (on_answer(v, is_yes_answer(line@)), None),
            GitEvent::ReadFailed(r) => (
                stop(v, GitPhase::Failed, failure_prefix_text(v.phase) + r@),
                None,
            ),
            _ => (v, None),
        }
    } else {
        (v, None)
    }
}

fn failure_prefix(p: GitPhase) -> (r: String)
    ensures
        r@ == failure_prefix_text(p),
{
    match p {
        GitPhase::CurrentBranch => owned("Failed to get the current branch: "),
        GitPhase::Fetch => owned("Failed to fetch latest changes from the remote repository: "),
        GitPhase::Pull => owned("Failed to perform a pull to update the local branch: "),
        GitPhase::Status => owned("Failed to check Git status: "),
        GitPhase::Stash => owned("Failed to stash changes: "),
        GitPhase::Rebase => owned("Failed to perform rebase: "),
        GitPhase::PopStash => owned("Failed to pop the stash: "),
        _ => owned("Failed to read user input: "),
    }
}

impl GitSync {
    /// A synchronisation of `branch`; with no branch it is done at once and
    /// runs nothing.
    pub fn new(branch: &str) -> (r: GitSync)
        ensures
            r@ == initial(branch@),
    {
        let empty = branch.unicode_len() == 0;
        GitSync {
            branch: owned(branch),
            current: String::new(),
            default_branch: String::new(),
            stashed: false,
            phase: if empty { GitPhase::Done } else { GitPhase::CurrentBranch },
            outcome: if empty { owned("No branch configured") } else { String::new() },
        }
    }

    /// Whether the synchronisation has finished, either way.
    pub fn is_finished(&self) -> (r: bool)
        ensures
            r == (self.phase == GitPhase::Done || self.phase == GitPhase::Failed),
    {
        self.phase == GitPhase::Done || self.phase == GitPhase::Failed
    }

    /// What to do next.
    pub fn next_action(&self) -> (r: GitAction)
        ensures
            r@ == planned_action(self@),
    {
        let r = match self.phase {
            GitPhase::CurrentBranch => GitAction::Run(list3("rev-parse", "--abbrev-ref", "HEAD")),
            GitPhase::Fetch => GitAction::Run(list3("fetch", "origin", self.current.as_str())),
            GitPhase::Pull => GitAction::Run(list3("pull", "origin", self.current.as_str())),
            GitPhase::AskRebase => GitAction::Ask(
                owned("Do you want to perform a rebase against your default branch? (y/n): "),
            ),
            GitPhase::DefaultBranch => GitAction::Run(
                list2("symbolic-ref", "refs/remotes/origin/HEAD"),
            ),
            GitPhase::Status => GitAction::Run(list2("status", "--porcelain")),
            GitPhase::AskStash => GitAction::Ask(
                owned(
                    "You have unstaged changes. Would you like to stash them before performing the rebase? (y/n): ",
                ),
            ),
            GitPhase::Stash => GitAction::Run(list3("stash", "save", "--include-untracked")),
            GitPhase::Rebase => GitAction::Run(
                list3("rebase", self.default_branch.as_str(), self.branch.as_str()),
            ),
            GitPhase::PopStash => GitAction::Run(list2("stash", "pop")),
            GitPhase::Done => GitAction::Finish(Ok(self.outcome.clone())),
            GitPhase::Failed => GitAction::Finish(Err(self.outcome.clone())),
        };
        proof {
            assert(r@ =~= planned_action(self@));
        }
        r
    }

    fn fail(&mut self, message: String)
        ensures
            final(self)@ == stop(old(self)@, GitPhase::Failed, message@),
    {
        self.phase = GitPhase::Failed;
        self.outcome = message;
    }

    fn complete(&mut self, message: &str)
        ensures
            final(self)@ == stop(old(self)@, GitPhase::Done, message@),
    {
        self.phase = GitPhase::Done;
        self.outcome = owned(message);
    }

    fn succeed(&mut self, o: &RawOutput)
        requires
            is_command_phase(old(self).phase),
        ensures
            final(self)@ == on_success(old(self)@, *o),
    {
        match self.phase {
            GitPhase::CurrentBranch => {
                let out = decode_lossy(&o.stdout);
                self.current = trim(out.as_str());
                self.phase = GitPhase::Fetch;
            },
            GitPhase::Fetch => {
                self.phase = GitPhase::Pull;
            },
            GitPhase::Pull => {
                self.phase = GitPhase::AskRebase;
            },
            GitPhase::DefaultBranch => {
                let out = decode_lossy(&o.stdout);
                let rest = strip_prefix_repeated(out.as_str(), "refs/remotes/origin/");
                self.default_branch = trim(rest.as_str());
                self.phase = GitPhase::Status;
            },
            GitPhase::Status => {
                let out = decode_lossy(&o.stdout);
                let t = trim(out.as_str());
                if t.as_str().unicode_len() > 0 {
                    self.phase = GitPhase::AskStash;
                } else {
                    self.phase = GitPhase::Rebase;
                }
            },
            GitPhase::Stash => {
                self.stashed = true;
                self.phase = GitPhase::Rebase;
            },
            GitPhase::Rebase => {
                if self.stashed {
                    self.phase = GitPhase::PopStash;
                } else {
                    self.complete("Rebase completed");
                }
            },
            _ => {
                self.complete("Rebase completed");
            },
        }
    }

    /// Takes in what came of the last action, and returns a warning to show,
    /// if any.
    pub fn handle(&mut self, event: GitEvent) -> (warning: Option<String>)
        ensures
            final(self)@ == after(old(self)@, event).0,
            warning is Some <==> after(old(self)@, event).1 is Some,
            warning matches Some(w) ==> after(old(self)@, event).1 == Some(w@),
    {
        if self.phase == GitPhase::AskRebase || self.phase == GitPhase::AskStash {
            match event {
                GitEvent::Answer(line) => {
                    let yes = is_yes(line.as_str());
                    if self.phase == GitPhase::AskRebase {
                        if yes {
                            self.phase = GitPhase::DefaultBranch;
                        } else {
                            self.complete("Rebase skipped");
                        }
                    } else {
                        if yes {
                            self.phase = GitPhase::Stash;
                        } else {
                            self.complete(
                                "Please commit or stash your changes before performing the rebase.",
                            );
                        }
                    }
                },
                GitEvent::ReadFailed(r) => {
                    let mut m = failure_prefix(self.phase);
                    m.append(r.as_str());
                    self.fail(m);
                },
                _ => {},
            }
            return None;
        }
        if self.is_finished() {
            return None;
        }
        match event {
            GitEvent::Exited(o) => {
                if o.status.success() {
                    self.succeed(&o);
                    None
                } else if self.phase == GitPhase::DefaultBranch {
                    self.fail(owned("Failed to determine the default branch"));
                    None
                } else {
                    let err = decode_lossy(&o.stderr);
                    let detail = trim(err.as_str());
                    let mut m = failure_prefix(self.phase);
                    m.append(detail.as_str());
                    if self.phase == GitPhase::Fetch {
                        self.phase = GitPhase::Pull;
                        let mut w = owned("Warning: ");
                        w.append(m.as_str());
                        Some(w)
                    } else {
                        self.fail(m);
                        None
                    }
                }
            },
            GitEvent::SpawnFailed(r) => {
                if self.phase == GitPhase::DefaultBranch {
                    self.fail(owned("Failed to determine the default branch"));
                } else {
                    let mut m = failure_prefix(self.phase);
                    m.append(r.as_str());
                    self.fail(m);
                }
                None
            },
            _ => None,
        }
    }
}

/// With no branch configured, synchronising runs no git command and succeeds
/// at once.
pub proof fn empty_branch_runs_nothing(branch: Seq<char>)
    requires
        branch.len() == 0,
    ensures
        planned_action(initial(branch)) matches ActionView::Finish(Ok(_)),
        forall|e: GitEvent| #[trigger] after(initial(branch), e).0 == initial(branch),
{
}

/// A finished synchronisation stays as it is, whatever is handed to it.
pub proof fn finished_is_final(v: GitView, e: GitEvent)
    requires
        v.phase == GitPhase::Done || v.phase == GitPhase::Failed,
    ensures
        after(v, e) == (v, None::<Seq<char>>),
{
}

} // verus!
