use vstd::prelude::*;

use crate::config::Config;
use crate::process::{launch_plan, Invocation, Platform, RunError, RunStep};
use crate::text::{list1, list2, owned};

verus! {

/// The invocation that launches `application` the way the platform starts
/// programs: `cmd /C` on Windows, `open` inside the configured application
/// directory on macOS, `sh` elsewhere. An empty name is refused, so no process
/// is started for it.
pub fn launch_application(application: &str, config: &Config, platform: Platform) -> (r: Result<
    Invocation,
    RunError,
>)
    ensures
        r is Err <==> application@.len() == 0,
        r matches Err(e) ==> e is InvalidInput,
        r matches Ok(inv) ==> inv@ == launch_plan(application@, config.app_dir@, platform),
{
    if application.unicode_len() == 0 {
        return Err(RunError::InvalidInput);
    }
    let inv = match platform {
        Platform::Windows => Invocation {
            program: owned("cmd"),
            args: list2("/C", application),
            dir: None,
        },
        Platform::MacOs => Invocation {
            program: owned("open"),
            args: list1(application),
            dir: Some(owned(config.app_dir.as_str())),
        },
        Platform::Other => Invocation { program: owned("sh"), args: list1(application), dir: None },
    };
    Ok(inv)
}

/// The next step of launching `applications` in order, each once the previous
/// launch has returned, when `done` of them have been started and `last` is
/// how the latest one ended. The first failure ends the run with its error, so
/// no later application is launched and none is launched twice; an empty name
/// ends the run with [`RunError::InvalidInput`] without starting anything;
/// once every launch has succeeded the run ends successfully.
pub fn wait_for_applications(
    applications: &[String],
    config: &Config,
    platform: Platform,
    done: usize,
    last: Option<Result<(), RunError>>,
) -> (r: RunStep)
    requires
        done <= applications@.len(),
    ensures
        last matches Some(Err(e)) ==> r == RunStep::Stop(Err(e)),
        !(last matches Some(Err(_))) && done == applications@.len() ==> r == RunStep::Stop(
            Ok(()),
        ),
        !(last matches Some(Err(_))) && done < applications@.len() && applications@[done as int]@.len()
            == 0 ==> (r matches RunStep::Stop(Err(e)) && e is InvalidInput),
        !(last matches Some(Err(_))) && done < applications@.len() && applications@[done as int]@.len()
            > 0 ==> (r matches RunStep::Start(inv) && inv@ == launch_plan(
            applications@[done as int]@,
            config.app_dir@,
            platform,
        )),
{
    if let Some(Err(e)) = last {
        return RunStep::Stop(Err(e));
    }
    if done == applications.len() {
        return RunStep::Stop(Ok(()));
    }
    match launch_application(applications[done].as_str(), config, platform) {
        Ok(inv) => RunStep::Start(inv),
        Err(e) => RunStep::Stop(Err(e)),
    }
}

/// The next step of launching the configured applications, as
/// [`wait_for_applications`] decides it for `config.applications`.
pub fn launch_applications(
    config: &Config,
    platform: Platform,
    done: usize,
    last: Option<Result<(), RunError>>,
) -> (r: RunStep)
    requires
        done <= config.applications.len(),
    ensures
        last matches Some(Err(e)) ==> r == RunStep::Stop(Err(e)),
        !(last matches Some(Err(_))) && done == config.applications.len() ==> r
            == RunStep::Stop(Ok(())),
        !(last matches Some(Err(_))) && done < config.applications.len()
            && config.applications@[done as int]@.len() == 0 ==> (r matches RunStep::Stop(
            Err(e),
        ) && e is InvalidInput),
        !(last matches Some(Err(_))) && done < config.applications.len()
            && config.applications@[done as int]@.len() > 0 ==> (r matches RunStep::Start(inv)
            && inv@ == launch_plan(config.applications@[done as int]@, config.app_dir@, platform)),
{
    wait_for_applications(config.applications.as_slice(), config, platform, done, last)
}

} // verus!
