//! The decisions of a call.
//!
//! A call begins with [`handle_call`]. Each step either finishes the call or asks the host
//! for one action; what came of the action goes back in through [`Call::step`].

use crate::call::{
    Action, Call, Event, FunctionCallError, Launch, MonitorAction, MonitorArgs, Step, ToolPayload,
};
use crate::description::truncate_description;
use crate::host::{
    EffectivePermissions, ExecCommandArgs, ExecCommandRequest, Host, PathConvention,
    ResolvedCommand, SandboxPermissions, Turn, TurnEnvironment,
};
use crate::id::new_monitor_id;
use crate::listing::list_message;
use crate::message::{
    failed_to_start, no_active_monitor, removed, started, stopped, unsupported_payload,
};
use crate::protocol::{
    answers, awaits, begins, chosen_shell, dispatches, executes, fails, given, goes_on,
    goes_on_after_execution, matched_cwd, registers, seed, seeks_command, seeks_permissions,
    spawns_delivery, starts, MONITOR_SEED_MAX_BYTES, MONITOR_YIELD_MS,
};
use crate::text::is_blank;
use crate::tool::{text_output, MonitorHandler};
use vstd::prelude::*;

verus! {

/// Fails a call, and tells the model why.
fn refuse<H: Host>(message: String) -> (step: Step<H>)
    ensures
        fails(step, message@),
{
    Step::Finish(Err(FunctionCallError::RespondToModel(message)))
}

/// Ends a call that went well.
fn answer<H: Host>(message: String) -> (step: Step<H>)
    ensures
        answers(step, message@),
{
    Step::Finish(Ok(text_output(message)))
}

/// Whether text was given, and is more than white space.
fn is_given(text: &Option<String>) -> (yes: bool)
    ensures
        yes == given(*text),
{
    match text {
        Some(text) => !is_blank(text.as_str()),
        None => false,
    }
}

/// Begins a call.
pub fn handle_call<H: Host>(payload: ToolPayload, turn: Turn<H>) -> (step: Step<H>)
    ensures
        begins(payload, turn, step),
{
    match payload {
        ToolPayload::Function { arguments } => Step::Perform {
            call: Call::Parsing { turn },
            action: Action::ParseArguments { arguments },
        },
        ToolPayload::Unsupported => refuse(unsupported_payload()),
    }
}

impl MonitorHandler {
    /// Begins a call.
    pub fn handle<H: Host>(&self, payload: ToolPayload, turn: Turn<H>) -> (step: Step<H>)
        ensures
            begins(payload, turn, step),
    {
        handle_call(payload, turn)
    }
}

/// Begins the operation that the arguments ask for.
pub fn dispatch<H: Host>(turn: Turn<H>, args: MonitorArgs) -> (step: Step<H>)
    ensures
        dispatches(turn, args, step),
{
    match args.action {
        MonitorAction::Start => start(turn, args.command, args.description),
        MonitorAction::Stop => match args.id {
            None => refuse("action=stop requires `id`".to_owned()),
            // Look up the process without pruning yet, terminate it first, then remove the
            // registry entry. Ordering it this way keeps the watcher observable if termination
            // fails, and surfaces that outcome instead of silently dropping it.
            Some(id) => Step::Perform {
                call: Call::FindingProcess { id: id.clone() },
                action: Action::FindProcess { id },
            },
        },
        MonitorAction::List => Step::Perform {
            call: Call::Listing,
            action: Action::ListMonitors,
        },
    }
}

/// Begins the start of a watcher.
pub fn start<H: Host>(
    turn: Turn<H>,
    command: Option<String>,
    description: Option<String>,
) -> (step: Step<H>)
    ensures
        starts(turn, command, description, step),
{
    if !is_given(&command) {
        return refuse("action=start requires a non-empty `command`".to_owned());
    }
    if !is_given(&description) {
        return refuse("action=start requires a non-empty `description`".to_owned());
    }
    // Bound the label so it cannot inflate every notification or the list output.
    let description = truncate_description(description.unwrap());
    Step::Perform {
        call: Call::ResolvingEnvironment { turn, command: command.unwrap(), description },
        action: Action::ResolveEnvironment { requested: None },
    }
}

/// The directory to match granted permissions against. Matching against a different one than
/// the command runs in would let a grant for one directory be applied to a command in another.
pub fn permission_cwd<P>(
    native_cwd: Option<P>,
    convention: Option<PathConvention>,
    native_convention: PathConvention,
    session_cwd: P,
) -> (cwd: P)
    ensures
        cwd == matched_cwd(native_cwd, convention, native_convention, session_cwd),
{
    match (native_cwd, convention) {
        (Some(path), Some(convention)) => if convention == native_convention {
            path
        } else {
            session_cwd
        },
        _ => session_cwd,
    }
}

/// The shell to run a command with.
pub fn choose_shell<S>(environment_shell: Option<S>, user_shell: S) -> (shell: S)
    ensures
        shell == chosen_shell(environment_shell, user_shell),
{
    match environment_shell {
        Some(shell) => shell,
        None => user_shell,
    }
}

/// Goes on with a start once its environment is known. The watcher runs with the sandbox
/// access that the session has been granted, like every other command.
fn prepare<H: Host>(
    turn: Turn<H>,
    command: String,
    description: String,
    env: TurnEnvironment<H>,
) -> (step: Step<H>)
    ensures
        seeks_permissions(turn, command, description, env, step),
{
    let launch = Launch {
        call_id: turn.call_id,
        command,
        description,
        cwd: env.cwd,
        shell_mode: env.shell_mode,
        network: turn.network,
        environment: env.environment,
    };
    let shell = choose_shell(env.shell, turn.user_shell);
    let cwd = permission_cwd(
        env.native_cwd,
        env.convention,
        turn.native_convention,
        turn.session_cwd,
    );
    Step::Perform {
        call: Call::ApplyingPermissions {
            launch,
            shell,
            allow_login_shell: turn.allow_login_shell,
        },
        action: Action::ApplyPermissions {
            environment_id: env.environment_id,
            cwd,
            sandbox_permissions: SandboxPermissions::UseDefault,
            additional_permissions: None,
        },
    }
}

/// Goes on with a start once its permissions are known.
fn resolve<H: Host>(
    launch: Launch<H>,
    shell: H::Shell,
    allow_login_shell: bool,
    granted: EffectivePermissions<H>,
) -> (step: Step<H>)
    ensures
        seeks_command(launch, shell, allow_login_shell, granted, step),
{
    let args = ExecCommandArgs {
        cmd: launch.command.clone(),
        shell: None,
        login: None,
        tty: false,
        yield_time_ms: 0,
        max_output_tokens: None,
        sandbox_permissions: SandboxPermissions::UseDefault,
        additional_permissions: None,
        justification: None,
        prefix_rule: None,
    };
    let shell_mode = launch.shell_mode;
    Step::Perform {
        call: Call::ResolvingCommand { launch, granted },
        action: Action::ResolveCommand { args, shell, shell_mode, allow_login_shell },
    }
}

/// Goes on with a start once a process id is reserved.
fn execute<H: Host>(
    launch: Launch<H>,
    granted: EffectivePermissions<H>,
    resolved: ResolvedCommand<H>,
    process_id: i32,
) -> (step: Step<H>)
    ensures
        executes(launch, granted, resolved, process_id, step),
{
    let request = ExecCommandRequest {
        command: resolved.command,
        shell_type: resolved.shell_type,
        hook_command: launch.command.clone(),
        process_id,
        yield_time_ms: MONITOR_YIELD_MS,
        max_output_tokens: None,
        cwd: launch.cwd.clone(),
        sandbox_cwd: launch.cwd,
        turn_environment: launch.environment,
        shell_mode: launch.shell_mode,
        network: launch.network,
        tty: false,
        sandbox_permissions: granted.sandbox_permissions,
        additional_permissions: granted.additional_permissions,
        additional_permissions_preapproved: granted.permissions_preapproved,
        justification: None,
        prefix_rule: None,
    };
    Step::Perform {
        call: Call::Executing {
            command: launch.command,
            description: launch.description,
            process_id,
        },
        action: Action::Execute { request, call_id: launch.call_id },
    }
}

/// Goes on with a start once the watcher runs, under the given id. Delivery subscribes to the
/// output only once it is spawned; it is seeded with the earliest output so far, so that the
/// first lines are not dropped.
pub fn spawn_delivery<H: Host>(
    command: String,
    description: String,
    process_id: i32,
    raw_output: Vec<u8>,
    id: String,
) -> (step: Step<H>)
    ensures
        spawns_delivery(command, description, process_id, raw_output@, id@, step),
{
    let ghost output = raw_output@;
    let mut kept = raw_output;
    kept.truncate(MONITOR_SEED_MAX_BYTES);
    assert(kept@ =~= seed(output));
    Step::Perform {
        call: Call::Spawning {
            id: id.clone(),
            command,
            description: description.clone(),
            process_id,
        },
        action: Action::SpawnDelivery { process_id, id, description, seed: kept },
    }
}

/// Goes on with a start once the host tried to execute the watcher.
fn after_execution<H: Host>(
    command: String,
    description: String,
    process_id: i32,
    executed: Result<Vec<u8>, String>,
) -> (step: Step<H>)
    ensures
        goes_on_after_execution(command, description, process_id, executed, step),
{
    match executed {
        Ok(raw_output) => {
            let id = new_monitor_id();
            spawn_delivery(command, description, process_id, raw_output, id)
        },
        Err(error) => Step::Perform {
            call: Call::ReleasingProcessId { error: failed_to_start(error.as_str()) },
            action: Action::ReleaseProcessId { process_id },
        },
    }
}

/// Goes on with a start once delivery was to be spawned.
fn register<H: Host>(
    id: String,
    command: String,
    description: String,
    process_id: i32,
    spawned: Option<H::Task>,
) -> (step: Step<H>)
    ensures
        registers(id, command, description, process_id, spawned, step),
{
    match spawned {
        Some(task) => Step::Perform {
            call: Call::Inserting { id: id.clone(), description: description.clone() },
            action: Action::InsertMonitor { id, process_id, description, command, task },
        },
        None => refuse(
            "command exited immediately; a monitor command must keep running and print events".to_owned(),
        ),
    }
}

impl<H: Host> Call<H> {
    /// Whether `event` tells what came of the action that this call asked for.
    pub fn expects(&self, event: &Event<H>) -> (yes: bool)
        ensures
            yes == awaits(*self, *event),
    {
        match (self, event) {
            (Call::Parsing { .. }, Event::ArgumentsParsed(_)) => true,
            (Call::FindingProcess { .. }, Event::ProcessFound(_)) => true,
            (Call::Terminating { .. }, Event::ProcessTerminated(_)) => true,
            (Call::Removing { .. }, Event::MonitorRemoved) => true,
            (Call::Listing, Event::MonitorsListed(_)) => true,
            (Call::ResolvingEnvironment { .. }, Event::EnvironmentResolved(_)) => true,
            (Call::ApplyingPermissions { .. }, Event::PermissionsApplied(_)) => true,
            (Call::ResolvingCommand { .. }, Event::CommandResolved(_)) => true,
            (Call::Allocating { .. }, Event::ProcessIdAllocated(_)) => true,
            (Call::Executing { .. }, Event::Executed(_)) => true,
            (Call::ReleasingProcessId { .. }, Event::ProcessIdReleased) => true,
            (Call::Spawning { .. }, Event::DeliverySpawned(_)) => true,
            (Call::Inserting { .. }, Event::MonitorInserted) => true,
            (Call::ReleasingDelivery { .. }, Event::DeliveryReleased) => true,
            _ => false,
        }
    }

    /// Takes what came of the action that this call asked for, and goes on.
    pub fn step(self, event: Event<H>) -> (step: Step<H>)
        requires
            awaits(self, event),
        ensures
            goes_on(self, event, step),
    {
        match (self, event) {
            (Call::Parsing { turn }, Event::ArgumentsParsed(parsed)) => match parsed {
                Ok(args) => dispatch(turn, args),
                Err(error) => Step::Finish(Err(error)),
            },
            (Call::FindingProcess { id }, Event::ProcessFound(found)) => match found {
                Some(process_id) => Step::Perform {
                    call: Call::Terminating { id },
                    action: Action::TerminateProcess { process_id },
                },
                None => answer(no_active_monitor(id.as_str())),
            },
            (Call::Terminating { id }, Event::ProcessTerminated(terminated)) => Step::Perform {
                call: Call::Removing { id: id.clone(), terminated },
                action: Action::RemoveMonitor { id },
            },
            (Call::Removing { id, terminated }, Event::MonitorRemoved) => if terminated {
                answer(stopped(id.as_str()))
            } else {
                answer(removed(id.as_str()))
            },
            (Call::Listing, Event::MonitorsListed(monitors)) => answer(list_message(&monitors)),
            (
                Call::ResolvingEnvironment { turn, command, description },
                Event::EnvironmentResolved(resolved),
            ) => match resolved {
                Ok(Some(env)) => prepare(turn, command, description, env),
                Ok(None) => refuse("unified exec is unavailable in this session".to_owned()),
                Err(error) => Step::Finish(Err(error)),
            },
            (
                Call::ApplyingPermissions { launch, shell, allow_login_shell },
                Event::PermissionsApplied(granted),
            ) => resolve(launch, shell, allow_login_shell, granted),
            (Call::ResolvingCommand { launch, granted }, Event::CommandResolved(resolved)) => {
                match resolved {
                    Ok(resolved) => Step::Perform {
                        call: Call::Allocating { launch, granted, resolved },
                        action: Action::AllocateProcessId,
                    },
                    Err(message) => Step::Finish(Err(FunctionCallError::RespondToModel(message))),
                }
            },
            (
                Call::Allocating { launch, granted, resolved },
                Event::ProcessIdAllocated(process_id),
            ) => execute(launch, granted, resolved, process_id),
            (
                Call::Executing { command, description, process_id },
                Event::Executed(executed),
            ) => after_execution(command, description, process_id, executed),
            (Call::ReleasingProcessId { error }, Event::ProcessIdReleased) => refuse(error),
            (
                Call::Spawning { id, command, description, process_id },
                Event::DeliverySpawned(spawned),
            ) => register(id, command, description, process_id, spawned),
            (Call::Inserting { id, description }, Event::MonitorInserted) => Step::Perform {
                call: Call::ReleasingDelivery { id, description },
                action: Action::ReleaseDelivery,
            },
            (Call::ReleasingDelivery { id, description }, Event::DeliveryReleased) => answer(
                started(id.as_str(), description.as_str()),
            ),
            _ => vstd::pervasive::unreached(),
        }
    }
}

} // verus!
