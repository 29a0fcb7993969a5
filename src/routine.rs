use vstd::prelude::*;

use crate::config::{Config, ConfigView};

verus! {

/// One step of the daily routine.
#[derive(Clone, Copy, Debug, PartialEq, Eq, Structural)]
pub enum Stage {
    GitSync,
    LaunchApplications,
    WaitForApplications,
    ShellCommands,
}

/// The stages that a configuration calls for, in the order they run: a stage
/// whose branch or list is empty is left out.
pub open spec fn stages_for(c: ConfigView) -> Seq<Stage> {
    (if c.git_branch.len() > 0 { seq![Stage::GitSync] } else { Seq::<Stage>::empty() })
        + (if c.applications.len() > 0 {
        seq![Stage::LaunchApplications, Stage::WaitForApplications]
    } else {
        Seq::<Stage>::empty()
    }) + (if c.shell_commands.len() > 0 { seq![Stage::ShellCommands] } else { Seq::<Stage>::empty() })
}

/// The stages to run for `config`, in order. The routine runs them one after
/// the other and stops at the first that fails.
pub fn planned_stages(config: &Config) -> (r: Vec<Stage>)
    ensures
        r@ == stages_for(config@),
{
    let mut v: Vec<Stage> = Vec::new();
    if config.git_branch.as_str().unicode_len() > 0 {
        v.push(Stage::GitSync);
    }
    if config.applications.len() > 0 {
        v.push(Stage::LaunchApplications);
        v.push(Stage::WaitForApplications);
    }
    if config.shell_commands.len() > 0 {
        v.push(Stage::ShellCommands);
    }
    assert(v@ =~= stages_for(config@));
    v
}

/// The stage to run next when `done` stages have run and `last_failed` says
/// whether the latest one failed: a failure halts the routine, so no later
/// stage runs; otherwise the stages run in order, each once.
pub fn next_stage(config: &Config, done: usize, last_failed: bool) -> (r: Option<Stage>)
    requires
        done <= stages_for(config@).len(),
    ensures
        last_failed ==> r is None,
        !last_failed && done == stages_for(config@).len() ==> r is None,
        !last_failed && done < stages_for(config@).len() ==> r == Some(
            stages_for(config@)[done as int],
        ),
{
    let stages = planned_stages(config);
    if last_failed || done == stages.len() {
        None
    } else {
        Some(stages[done])
    }
}

} // verus!
