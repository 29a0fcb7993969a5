use vstd::prelude::*;

use crate::config::Config;
use crate::process::{shell_plan, Invocation, Platform, RunError, RunStep};
use crate::text::{list2, owned};

verus! {

/// The invocation that runs `command` through the platform's shell: `cmd /C`
/// on Windows, `sh -c` elsewhere. An empty command is refused, so no process
/// is started for it.
pub fn execute_shell_command(command: &str, platform: Platform) -> (r: Result<Invocation, RunError>)
    ensures
        r is Err <==> command@.len() == 0,
        r matches Err(e) ==> e is InvalidInput,
        r matches Ok(inv) ==> inv@ == shell_plan(command@, platform),
{
    if command.unicode_len() == 0 {
        return Err(RunError::InvalidInput);
    }
    let inv = match platform {
        Platform::Windows => Invocation {
            program: owned("cmd"),
            args: list2("/C", command),
            dir: None,
        },
        _ => Invocation { program: owned("sh"), args: list2("-c", command), dir: None },
    };
    Ok(inv)
}

/// The next step of running the configured shell commands in order, one at a
/// time, when `done` of them have been started and `last` is how the latest
/// one ended. The first failure ends the run with its error, so no later
/// command is started and none is started twice; an empty command ends the run
/// with [`RunError::InvalidInput`] without starting anything; once every
/// command has succeeded the run ends successfully.
pub fn execute_shell_commands(
    config: &Config,
    platform: Platform,
    done: usize,
    last: Option<Result<(), RunError>>,
) -> (r: RunStep)
    requires
        done <= config.shell_commands.len(),
    ensures
        last matches Some(Err(e)) ==> r == RunStep::Stop(Err(e)),
        !(last matches Some(Err(_))) && done == config.shell_commands.len() ==> r
            == RunStep::Stop(Ok(())),
        !(last matches Some(Err(_))) && done < config.shell_commands.len()
            && config.shell_commands@[done as int]@.len() == 0 ==> (r matches RunStep::Stop(
            Err(e),
        ) && e is InvalidInput),
        !(last matches Some(Err(_))) && done < config.shell_commands.len()
            && config.shell_commands@[done as int]@.len() > 0 ==> (r matches RunStep::Start(inv)
            && inv@ == shell_plan(config.shell_commands@[done as int]@, platform)),
{
    if let Some(Err(e)) = last {
        return RunStep::Stop(Err(e));
    }
    if done == config.shell_commands.len() {
        return RunStep::Stop(Ok(()));
    }
    match execute_shell_command(config.shell_commands[done].as_str(), platform) {
        Ok(inv) => RunStep::Start(inv),
        Err(e) => RunStep::Stop(Err(e)),
    }
}

} // verus!
