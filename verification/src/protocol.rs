//! How a call goes on: for each point that a call can stand at, and for whatever came of
//! the action it asked for, what happens next.

use crate::call::{
    Action, Call, Event, FunctionCallError, Launch, MonitorAction, MonitorArgs, Step, ToolPayload,
};
use crate::description::label;
use crate::host::{
    EffectivePermissions, ExecCommandArgs, ExecCommandRequest, Host, PathConvention,
    ResolvedCommand, SandboxPermissions, Turn, TurnEnvironment,
};
use crate::id::is_monitor_id;
use crate::listing::{dependable_list, list_text};
use crate::message::{
    failed_to_start_text, no_active_monitor_text, removed_text, started_text, stopped_text,
    unsupported_payload_text,
};
use crate::text::blank;
use vstd::prelude::*;

verus! {

/// Time the spawn blocks for initial output before returning. Kept short so the tool call
/// returns quickly while the watcher keeps running in the background.
pub const MONITOR_YIELD_MS: u64 = 250;

/// Byte cap on the initial-yield output kept as the delivery seed, so a fast producer cannot
/// hand a large buffer to the delivery loop before its per-line, flood, and notification caps
/// apply. Keeps the earliest output (a banner, an already-matching line); the live broadcast
/// covers the rest once the delivery loop subscribes.
pub const MONITOR_SEED_MAX_BYTES: usize = 8 * 1024;

/// The call fails, and the model is told `text`.
pub open spec fn fails<H: Host>(step: Step<H>, text: Seq<char>) -> bool {
    step matches Step::Finish(Err(FunctionCallError::RespondToModel(message))) && message@ == text
}

/// The call went well, and answers `text`.
pub open spec fn answers<H: Host>(step: Step<H>, text: Seq<char>) -> bool {
    &&& step matches Step::Finish(Ok(output))
    &&& output.text@ == text
    &&& output.success == Some(true)
}

/// Text was given, and it is more than white space.
pub open spec fn given(text: Option<String>) -> bool {
    text matches Some(text) && !blank(text@)
}

/// How a call begins: a function call has its arguments parsed, any other payload fails.
pub open spec fn begins<H: Host>(payload: ToolPayload, turn: Turn<H>, step: Step<H>) -> bool {
    match payload {
        ToolPayload::Function { arguments } => {
            &&& step matches Step::Perform {
                call: Call::Parsing { turn: kept },
                action: Action::ParseArguments { arguments: parsed },
            }
            &&& kept == turn
            &&& parsed == arguments
        },
        ToolPayload::Unsupported => fails(step, unsupported_payload_text()),
    }
}

/// How a call goes on once its arguments are there.
pub open spec fn dispatches<H: Host>(turn: Turn<H>, args: MonitorArgs, step: Step<H>) -> bool {
    match args.action {
        MonitorAction::Start => starts(turn, args.command, args.description, step),
        MonitorAction::Stop => match args.id {
            None => fails(step, "action=stop requires `id`"@),
            Some(id) => {
                &&& step matches Step::Perform {
                    call: Call::FindingProcess { id: kept },
                    action: Action::FindProcess { id: sought },
                }
                &&& kept@ == id@
                &&& sought@ == id@
            },
        },
        MonitorAction::List => step == (Step::Perform {
            call: Call::<H>::Listing,
            action: Action::<H>::ListMonitors,
        }),
    }
}

/// How a start begins: it takes a command and a description, both more than white space,
/// and cuts the description to a label.
pub open spec fn starts<H: Host>(
    turn: Turn<H>,
    command: Option<String>,
    description: Option<String>,
    step: Step<H>,
) -> bool {
    if !given(command) {
        fails(step, "action=start requires a non-empty `command`"@)
    } else if !given(description) {
        fails(step, "action=start requires a non-empty `description`"@)
    } else {
        &&& step matches Step::Perform {
            call: Call::ResolvingEnvironment {
                turn: kept_turn,
                command: kept_command,
                description: kept_description,
            },
            action: Action::ResolveEnvironment { requested },
        }
        &&& kept_turn == turn
        &&& kept_command == command->0
        &&& kept_description@ == label(description->0@)
        &&& requested is None
    }
}

/// The directory that granted permissions are matched against: the one that the watcher runs
/// in where it is an absolute path written as this machine writes paths, and the session's
/// otherwise. (A foreign drive-style path can look like an absolute path on POSIX.)
pub open spec fn matched_cwd<P>(
    native_cwd: Option<P>,
    convention: Option<PathConvention>,
    native_convention: PathConvention,
    session_cwd: P,
) -> P {
    match native_cwd {
        Some(path) if convention == Some(native_convention) => path,
        _ => session_cwd,
    }
}

/// The shell of the environment, or else the user's.
pub open spec fn chosen_shell<S>(environment_shell: Option<S>, user_shell: S) -> S {
    match environment_shell {
        Some(shell) => shell,
        None => user_shell,
    }
}

/// How a start goes on once its environment is known: the permissions granted to the session
/// are sought, for the default sandbox and with nothing added.
pub open spec fn seeks_permissions<H: Host>(
    turn: Turn<H>,
    command: String,
    description: String,
    env: TurnEnvironment<H>,
    step: Step<H>,
) -> bool {
    &&& step matches Step::Perform {
        call: Call::ApplyingPermissions { launch, shell, allow_login_shell },
        action: Action::ApplyPermissions {
            environment_id,
            cwd,
            sandbox_permissions,
            additional_permissions,
        },
    }
    &&& launch.call_id == turn.call_id
    &&& launch.command == command
    &&& launch.description == description
    &&& launch.cwd == env.cwd
    &&& launch.shell_mode == env.shell_mode
    &&& launch.network == turn.network
    &&& launch.environment == env.environment
    &&& shell == chosen_shell(env.shell, turn.user_shell)
    &&& allow_login_shell == turn.allow_login_shell
    &&& environment_id == env.environment_id
    &&& cwd == matched_cwd(
        env.native_cwd,
        env.convention,
        turn.native_convention,
        turn.session_cwd,
    )
    &&& sandbox_permissions == SandboxPermissions::UseDefault
    &&& additional_permissions is None
}

/// The command line alone, with every other setting of the shell tool left at its default.
pub open spec fn is_plain_command<H: Host>(args: ExecCommandArgs<H>, command: Seq<char>) -> bool {
    &&& args.cmd@ == command
    &&& args.shell is None
    &&& args.login is None
    &&& !args.tty
    &&& args.yield_time_ms == 0
    &&& args.max_output_tokens is None
    &&& args.sandbox_permissions == SandboxPermissions::UseDefault
    &&& args.additional_permissions is None
    &&& args.justification is None
    &&& args.prefix_rule is None
}

/// How a start goes on once its permissions are known: the command is resolved with the
/// chosen shell.
pub open spec fn seeks_command<H: Host>(
    launch: Launch<H>,
    shell: H::Shell,
    allow_login_shell: bool,
    granted: EffectivePermissions<H>,
    step: Step<H>,
) -> bool {
    &&& step matches Step::Perform {
        call: Call::ResolvingCommand { launch: kept_launch, granted: kept_granted },
        action: Action::ResolveCommand {
            args,
            shell: used_shell,
            shell_mode,
            allow_login_shell: login_allowed,
        },
    }
    &&& kept_launch == launch
    &&& kept_granted == granted
    &&& is_plain_command(args, launch.command@)
    &&& used_shell == shell
    &&& shell_mode == launch.shell_mode
    &&& login_allowed == allow_login_shell
}

/// The request that starts a watcher: the resolved command, in the environment's directory,
/// sandboxed there, with the permissions that were granted and no others.
pub open spec fn is_watcher_request<H: Host>(
    request: ExecCommandRequest<H>,
    launch: Launch<H>,
    granted: EffectivePermissions<H>,
    resolved: ResolvedCommand<H>,
    process_id: i32,
) -> bool {
    &&& request.command == resolved.command
    &&& request.shell_type == resolved.shell_type
    &&& request.hook_command@ == launch.command@
    &&& request.process_id == process_id
    &&& request.yield_time_ms == MONITOR_YIELD_MS
    &&& request.max_output_tokens is None
    &&& request.cwd@ == launch.cwd@
    &&& request.sandbox_cwd@ == launch.cwd@
    &&& request.turn_environment == launch.environment
    &&& request.shell_mode == launch.shell_mode
    &&& request.network == launch.network
    &&& !request.tty
    &&& request.sandbox_permissions == granted.sandbox_permissions
    &&& request.additional_permissions == granted.additional_permissions
    &&& request.additional_permissions_preapproved == granted.permissions_preapproved
    &&& request.justification is None
    &&& request.prefix_rule is None
}

/// How a start goes on once a process id is reserved: the watcher is executed.
pub open spec fn executes<H: Host>(
    launch: Launch<H>,
    granted: EffectivePermissions<H>,
    resolved: ResolvedCommand<H>,
    process_id: i32,
    step: Step<H>,
) -> bool {
    &&& step matches Step::Perform {
        call: Call::Executing { command, description, process_id: kept_process_id },
        action: Action::Execute { request, call_id },
    }
    &&& command == launch.command
    &&& description == launch.description
    &&& kept_process_id == process_id
    &&& is_watcher_request(request, launch, granted, resolved, process_id)
    &&& call_id == launch.call_id
}

/// The part of the initial output that delivery is seeded with: its earliest bytes.
pub open spec fn seed(raw_output: Seq<u8>) -> Seq<u8> {
    if raw_output.len() <= MONITOR_SEED_MAX_BYTES {
        raw_output
    } else {
        raw_output.take(MONITOR_SEED_MAX_BYTES as int)
    }
}

/// How a start goes on once the watcher runs: delivery is spawned under `id`.
pub open spec fn spawns_delivery<H: Host>(
    command: String,
    description: String,
    process_id: i32,
    raw_output: Seq<u8>,
    id: Seq<char>,
    step: Step<H>,
) -> bool {
    &&& step matches Step::Perform {
        call: Call::Spawning {
            id: kept_id,
            command: kept_command,
            description: kept_description,
            process_id: kept_process_id,
        },
        action: Action::SpawnDelivery {
            process_id: delivered_process_id,
            id: delivered_id,
            description: delivered_description,
            seed: delivered_seed,
        },
    }
    &&& kept_id@ == id
    &&& kept_command == command
    &&& kept_description@ == description@
    &&& kept_process_id == process_id
    &&& delivered_process_id == process_id
    &&& delivered_id@ == id
    &&& delivered_description@ == description@
    &&& delivered_seed@ == seed(raw_output)
}

/// How a start goes on once the host tried to execute the watcher: where that failed, the
/// process id is given back; otherwise delivery is spawned under a new id.
pub open spec fn goes_on_after_execution<H: Host>(
    command: String,
    description: String,
    process_id: i32,
    executed: Result<Vec<u8>, String>,
    step: Step<H>,
) -> bool {
    match executed {
        Ok(raw_output) => exists|id: Seq<char>|
            is_monitor_id(id) && #[trigger] spawns_delivery(
                command,
                description,
                process_id,
                raw_output@,
                id,
                step,
            ),
        Err(error) => {
            &&& step matches Step::Perform {
                call: Call::ReleasingProcessId { error: kept },
                action: Action::ReleaseProcessId { process_id: released },
            }
            &&& kept@ == failed_to_start_text(error@)
            &&& released == process_id
        },
    }
}

/// How a start goes on once delivery was to be spawned: a watcher that runs is entered into
/// the registry, one that has exited fails the call.
pub open spec fn registers<H: Host>(
    id: String,
    command: String,
    description: String,
    process_id: i32,
    spawned: Option<H::Task>,
    step: Step<H>,
) -> bool {
    match spawned {
        None => fails(
            step,
            "command exited immediately; a monitor command must keep running and print events"@,
        ),
        Some(task) => {
            &&& step matches Step::Perform {
                call: Call::Inserting { id: kept_id, description: kept_description },
                action: Action::InsertMonitor {
                    id: inserted_id,
                    process_id: inserted_process_id,
                    description: inserted_description,
                    command: inserted_command,
                    task: inserted_task,
                },
            }
            &&& kept_id@ == id@
            &&& kept_description@ == description@
            &&& inserted_id@ == id@
            &&& inserted_process_id == process_id
            &&& inserted_description@ == description@
            &&& inserted_command == command
            &&& inserted_task == task
        },
    }
}

/// `event` tells what came of the action that `call` asked for.
pub open spec fn awaits<H: Host>(call: Call<H>, event: Event<H>) -> bool {
    match call {
        Call::Parsing { .. } => event is ArgumentsParsed,
        Call::FindingProcess { .. } => event is ProcessFound,
        Call::Terminating { .. } => event is ProcessTerminated,
        Call::Removing { .. } => event is MonitorRemoved,
        Call::Listing => event is MonitorsListed,
        Call::ResolvingEnvironment { .. } => event is EnvironmentResolved,
        Call::ApplyingPermissions { .. } => event is PermissionsApplied,
        Call::ResolvingCommand { .. } => event is CommandResolved,
        Call::Allocating { .. } => event is ProcessIdAllocated,
        Call::Executing { .. } => event is Executed,
        Call::ReleasingProcessId { .. } => event is ProcessIdReleased,
        Call::Spawning { .. } => event is DeliverySpawned,
        Call::Inserting { .. } => event is MonitorInserted,
        Call::ReleasingDelivery { .. } => event is DeliveryReleased,
    }
}

/// How `call` goes on after `event`.
pub open spec fn goes_on<H: Host>(call: Call<H>, event: Event<H>, step: Step<H>) -> bool {
    match (call, event) {
        (Call::Parsing { turn }, Event::ArgumentsParsed(parsed)) => match parsed {
            Ok(args) => dispatches(turn, args, step),
            Err(error) => step == Step::<H>::Finish(Err(error)),
        },
        (Call::FindingProcess { id }, Event::ProcessFound(found)) => match found {
            Some(process_id) => {
                &&& step matches Step::Perform {
                    call: Call::Terminating { id: kept },
                    action: Action::TerminateProcess { process_id: terminated },
                }
                &&& kept == id
                &&& terminated == process_id
            },
            None => answers(step, no_active_monitor_text(id@)),
        },
        (Call::Terminating { id }, Event::ProcessTerminated(terminated)) => {
            &&& step matches Step::Perform {
                call: Call::Removing { id: kept, terminated: kept_terminated },
                action: Action::RemoveMonitor { id: removed },
            }
            &&& kept@ == id@
            &&& kept_terminated == terminated
            &&& removed@ == id@
        },
        (Call::Removing { id, terminated }, Event::MonitorRemoved) => answers(
            step,
            if terminated {
                stopped_text(id@)
            } else {
                removed_text(id@)
            },
        ),
        (Call::Listing, Event::MonitorsListed(monitors)) => {
            &&& answers(step, list_text(monitors@))
            &&& dependable_list(list_text(monitors@), monitors@)
        },
        (
            Call::ResolvingEnvironment { turn, command, description },
            Event::EnvironmentResolved(resolved),
        ) => match resolved {
            Ok(Some(env)) => seeks_permissions(turn, command, description, env, step),
            Ok(None) => fails(step, "unified exec is unavailable in this session"@),
            Err(error) => step == Step::<H>::Finish(Err(error)),
        },
        (
            Call::ApplyingPermissions { launch, shell, allow_login_shell },
            Event::PermissionsApplied(granted),
        ) => seeks_command(launch, shell, allow_login_shell, granted, step),
        (Call::ResolvingCommand { launch, granted }, Event::CommandResolved(resolved)) => {
            match resolved {
                Ok(resolved) => step == (Step::Perform {
                    call: Call::<H>::Allocating { launch, granted, resolved },
                    action: Action::<H>::AllocateProcessId,
                }),
                Err(message) => step == Step::<H>::Finish(
                    Err(FunctionCallError::RespondToModel(message)),
                ),
            }
        },
        (
            Call::Allocating { launch, granted, resolved },
            Event::ProcessIdAllocated(process_id),
        ) => executes(launch, granted, resolved, process_id, step),
        (
            Call::Executing { command, description, process_id },
            Event::Executed(executed),
        ) => goes_on_after_execution(command, description, process_id, executed, step),
        (Call::ReleasingProcessId { error }, Event::ProcessIdReleased) => fails(step, error@),
        (
            Call::Spawning { id, command, description, process_id },
            Event::DeliverySpawned(spawned),
        ) => registers(id, command, description, process_id, spawned, step),
        (Call::Inserting { id, description }, Event::MonitorInserted) => {
            &&& step matches Step::Perform {
                call: Call::ReleasingDelivery { id: kept_id, description: kept_description },
                action: Action::ReleaseDelivery,
            }
            &&& kept_id == id
            &&& kept_description == description
        },
        (Call::ReleasingDelivery { id, description }, Event::DeliveryReleased) => answers(
            step,
            started_text(id@, description@),
        ),
        _ => false,
    }
}

} // verus!
