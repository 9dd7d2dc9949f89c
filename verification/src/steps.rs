//! What each step of a call does, in terms of what the call was made with and of what the host
//! answered, and of nothing else. Each law holds of all values.

use crate::call::{
    Action, Call, Event, FunctionCallError, Launch, MonitorAction, MonitorArgs, Step, ToolPayload,
};
use crate::description::label_is_longest_fitting_beginning;
use crate::host::{
    EffectivePermissions, Host, PathConvention, ResolvedCommand, SandboxPermissions, Turn,
    TurnEnvironment,
};
use crate::id::is_monitor_id;
use crate::listing::{list_text, MonitorInfo};
use crate::message::unsupported_payload_names_the_tool;
use crate::protocol::{
    awaits, begins, chosen_shell, dispatches, goes_on, matched_cwd, seed, spawns_delivery, starts,
};
use crate::text::blank;
use vstd::prelude::*;
use vstd::utf8::encode_utf8;

verus! {

/// Every function call has its arguments parsed, exactly as they came, with nothing decided
/// yet; every other payload is refused.
pub proof fn every_function_call_is_parsed<H: Host>(
    payload: ToolPayload,
    turn: Turn<H>,
    step: Step<H>,
)
    requires
        begins(payload, turn, step),
    ensures
        match payload {
            ToolPayload::Function { arguments } => step == (Step::Perform {
                call: Call::Parsing { turn },
                action: Action::ParseArguments { arguments },
            }),
            ToolPayload::Unsupported => step matches Step::Finish(
                Err(FunctionCallError::RespondToModel(message)),
            ) && message@ == "monitor handler received unsupported payload"@,
        },
{
    unsupported_payload_names_the_tool();
}

/// Arguments that could be parsed decide the operation.
pub proof fn parsed_arguments_decide_the_operation<H: Host>(
    turn: Turn<H>,
    args: MonitorArgs,
    step: Step<H>,
)
    ensures
        goes_on(Call::Parsing { turn }, Event::ArgumentsParsed(Ok(args)), step) <==> dispatches(
            turn,
            args,
            step,
        ),
{
}

/// Arguments that could not be parsed end the call with the very error.
pub proof fn parse_error_ends_the_call<H: Host>(
    turn: Turn<H>,
    error: FunctionCallError,
    step: Step<H>,
)
    requires
        goes_on(Call::Parsing { turn }, Event::ArgumentsParsed(Err(error)), step),
    ensures
        step == Step::<H>::Finish(Err(error)),
{
}

/// A stop looks up the very id that it was given, whatever it is, and is refused only where none
/// was given. The other arguments do not matter.
pub proof fn stop_looks_up_the_given_id<H: Host>(turn: Turn<H>, args: MonitorArgs, step: Step<H>)
    requires
        args.action == MonitorAction::Stop,
        dispatches(turn, args, step),
    ensures
        match args.id {
            Some(id) => {
                &&& step matches Step::Perform {
                    call: Call::FindingProcess { id: kept },
                    action: Action::FindProcess { id: sought },
                }
                &&& kept@ == id@
                &&& sought@ == id@
            },
            None => step matches Step::Finish(Err(FunctionCallError::RespondToModel(message)))
                && message@ == "action=stop requires `id`"@,
        },
{
}

/// The process that the registry names is to be terminated, and no other; where it names none,
/// the answer says so, and the call is over.
pub proof fn found_process_is_terminated<H: Host>(id: String, found: Option<i32>, step: Step<H>)
    requires
        goes_on(Call::<H>::FindingProcess { id }, Event::ProcessFound(found), step),
    ensures
        match found {
            Some(process_id) => {
                &&& step matches Step::Perform {
                    call: Call::Terminating { id: kept },
                    action: Action::TerminateProcess { process_id: terminated },
                }
                &&& kept@ == id@
                &&& terminated == process_id
            },
            None => {
                &&& step matches Step::Finish(Ok(output))
                &&& output.text@ == "No active monitor with id "@ + id@ + "."@
                &&& output.success == Some(true)
            },
        },
{
}

/// Whether or not the process could be terminated, the monitor is removed, and which of the two
/// it was is kept for the answer.
pub proof fn monitor_is_removed_after_termination<H: Host>(
    id: String,
    terminated: bool,
    step: Step<H>,
)
    requires
        goes_on(Call::<H>::Terminating { id }, Event::ProcessTerminated(terminated), step),
    ensures
        step matches Step::Perform {
            call: Call::Removing { id: kept, terminated: told },
            action: Action::RemoveMonitor { id: removed },
        } && {
            &&& kept@ == id@
            &&& told == terminated
            &&& removed@ == id@
        },
{
}

/// The answer to a stop tells whether the process was terminated, for every id. The answers to
/// the two outcomes differ.
pub proof fn stop_answer_tells_the_outcome<H: Host>(
    id: String,
    terminated: bool,
    step: Step<H>,
    other: Step<H>,
)
    requires
        goes_on(Call::<H>::Removing { id, terminated }, Event::MonitorRemoved, step),
        goes_on(Call::<H>::Removing { id, terminated: !terminated }, Event::MonitorRemoved, other),
    ensures
        step matches Step::Finish(Ok(output)) && {
            &&& output.success == Some(true)
            &&& output.text@ == if terminated {
                "Stopped monitor "@ + id@ + "."@
            } else {
                "Removed monitor "@ + id@
                    + "; its watcher process had already exited or could not be terminated."@
            }
            &&& other matches Step::Finish(Ok(other_output))
            &&& output.text@ != other_output.text@
        },
{
    reveal_strlit("Stopped monitor ");
    reveal_strlit("Removed monitor ");
    let output = step->Finish_0->Ok_0;
    let other_output = other->Finish_0->Ok_0;
    assert(output.text@[0] != other_output.text@[0]);
}

/// A list asks for the monitors, whatever the other arguments.
pub proof fn list_asks_for_the_monitors<H: Host>(turn: Turn<H>, args: MonitorArgs, step: Step<H>)
    requires
        args.action == MonitorAction::List,
        dispatches(turn, args, step),
    ensures
        step == (Step::Perform { call: Call::<H>::Listing, action: Action::<H>::ListMonitors }),
{
}

/// A list is answered with all the monitors that the registry told of.
pub proof fn list_is_answered_with_the_monitors<H: Host>(
    monitors: Vec<MonitorInfo>,
    step: Step<H>,
)
    requires
        goes_on(Call::<H>::Listing, Event::MonitorsListed(monitors), step),
    ensures
        step matches Step::Finish(Ok(output)) && {
            &&& output.text@ == list_text(monitors@)
            &&& output.success == Some(true)
        },
{
}

/// A start has nothing to do with the id that may stand beside its arguments.
pub proof fn start_takes_command_and_description<H: Host>(
    turn: Turn<H>,
    args: MonitorArgs,
    step: Step<H>,
)
    requires
        args.action == MonitorAction::Start,
    ensures
        dispatches(turn, args, step) <==> starts(turn, args.command, args.description, step),
{
}

/// A start is refused only for want of a command or of a description that is more than white
/// space, the command first; every other start goes on, with the command in full and with the
/// longest beginning of the description that takes at most 256 bytes.
pub proof fn start_goes_on_unless_something_is_missing<H: Host>(
    turn: Turn<H>,
    command: Option<String>,
    description: Option<String>,
    step: Step<H>,
    longer: Seq<char>,
)
    requires
        starts(turn, command, description, step),
    ensures
        if command is None || blank(command->0@) {
            step matches Step::Finish(Err(FunctionCallError::RespondToModel(message))) && message@
                == "action=start requires a non-empty `command`"@
        } else if description is None || blank(description->0@) {
            step matches Step::Finish(Err(FunctionCallError::RespondToModel(message))) && message@
                == "action=start requires a non-empty `description`"@
        } else {
            &&& step matches Step::Perform {
                call: Call::ResolvingEnvironment {
                    turn: kept_turn,
                    command: kept_command,
                    description: kept_label,
                },
                action: Action::ResolveEnvironment { requested },
            }
            &&& kept_turn == turn
            &&& kept_command@ == command->0@
            &&& kept_label@.is_prefix_of(description->0@)
            &&& encode_utf8(kept_label@).len() <= 256
            &&& longer.is_prefix_of(description->0@) && encode_utf8(longer).len() <= 256
                ==> longer.len() <= kept_label@.len()
            &&& requested is None
        },
{
    if description is Some {
        label_is_longest_fitting_beginning(description->0@, longer);
    }
}

/// Permissions are matched against the directory that the watcher runs in just if it is a path
/// of this machine, written as this machine writes paths, and against the session's otherwise.
pub proof fn permissions_are_matched_where_commands_run<P>(
    native_cwd: Option<P>,
    convention: Option<PathConvention>,
    native_convention: PathConvention,
    session_cwd: P,
)
    ensures
        native_cwd is Some && convention == Some(native_convention) ==> matched_cwd(
            native_cwd,
            convention,
            native_convention,
            session_cwd,
        ) == native_cwd->0,
        native_cwd is None || convention != Some(native_convention) ==> matched_cwd(
            native_cwd,
            convention,
            native_convention,
            session_cwd,
        ) == session_cwd,
{
}

/// The environment's shell is used where it has one, and the user's only where it has none.
pub proof fn own_shell_comes_first<S>(environment_shell: Option<S>, user_shell: S)
    ensures
        environment_shell is Some ==> chosen_shell(environment_shell, user_shell)
            == environment_shell->0,
        environment_shell is None ==> chosen_shell(environment_shell, user_shell) == user_shell,
{
}

/// With an environment, a start asks for the permissions granted to the session there, beyond
/// the default sandbox and with nothing added, and keeps all that the launch needs; without one
/// it is refused; an error ends it.
pub proof fn environment_decides_where_to_run<H: Host>(
    turn: Turn<H>,
    command: String,
    description: String,
    resolved: Result<Option<TurnEnvironment<H>>, FunctionCallError>,
    step: Step<H>,
)
    requires
        goes_on(
            Call::ResolvingEnvironment { turn, command, description },
            Event::EnvironmentResolved(resolved),
            step,
        ),
    ensures
        match resolved {
            Err(error) => step == Step::<H>::Finish(Err(error)),
            Ok(None) => step matches Step::Finish(Err(FunctionCallError::RespondToModel(message)))
                && message@ == "unified exec is unavailable in this session"@,
            Ok(Some(env)) => step == (Step::Perform {
                call: Call::ApplyingPermissions {
                    launch: Launch::<H> {
                        call_id: turn.call_id,
                        command,
                        description,
                        cwd: env.cwd,
                        shell_mode: env.shell_mode,
                        network: turn.network,
                        environment: env.environment,
                    },
                    shell: if env.shell is Some {
                        env.shell->0
                    } else {
                        turn.user_shell
                    },
                    allow_login_shell: turn.allow_login_shell,
                },
                action: Action::ApplyPermissions {
                    environment_id: env.environment_id,
                    cwd: if env.native_cwd is Some && env.convention == Some(
                        turn.native_convention,
                    ) {
                        env.native_cwd->0
                    } else {
                        turn.session_cwd
                    },
                    sandbox_permissions: SandboxPermissions::UseDefault,
                    additional_permissions: None,
                },
            }),
        },
{
}

/// Once permissions are known, the very command is resolved, with the shell that was chosen and
/// with every other setting at its default. The permissions are kept as they came.
pub proof fn command_is_resolved_as_given<H: Host>(
    launch: Launch<H>,
    shell: H::Shell,
    allow_login_shell: bool,
    granted: EffectivePermissions<H>,
    step: Step<H>,
)
    requires
        goes_on(
            Call::ApplyingPermissions { launch, shell, allow_login_shell },
            Event::PermissionsApplied(granted),
            step,
        ),
    ensures
        step matches Step::Perform {
            call: Call::ResolvingCommand { launch: kept_launch, granted: kept_granted },
            action: Action::ResolveCommand {
                args,
                shell: used_shell,
                shell_mode,
                allow_login_shell: login_allowed,
            },
        } && {
            &&& kept_launch == launch
            &&& kept_granted == granted
            &&& used_shell == shell
            &&& shell_mode == launch.shell_mode
            &&& login_allowed == allow_login_shell
            &&& args.cmd@ == launch.command@
            &&& args.shell is None
            &&& args.login is None
            &&& args.tty == false
            &&& args.yield_time_ms == 0
            &&& args.max_output_tokens is None
            &&& args.sandbox_permissions == SandboxPermissions::UseDefault
            &&& args.additional_permissions is None
            &&& args.justification is None
            &&& args.prefix_rule is None
        },
{
}

/// A resolved command has a process id reserved, and nothing of the launch changes; one that
/// could not be resolved fails the call with the very message.
pub proof fn resolved_command_gets_a_process_id<H: Host>(
    launch: Launch<H>,
    granted: EffectivePermissions<H>,
    resolved: Result<ResolvedCommand<H>, String>,
    step: Step<H>,
)
    requires
        goes_on(
            Call::ResolvingCommand { launch, granted },
            Event::CommandResolved(resolved),
            step,
        ),
    ensures
        match resolved {
            Ok(resolved) => step == (Step::Perform {
                call: Call::Allocating { launch, granted, resolved },
                action: Action::AllocateProcessId,
            }),
            Err(message) => step == Step::<H>::Finish(
                Err(FunctionCallError::RespondToModel(message)),
            ),
        },
{
}

/// The watcher is executed as resolved, under the reserved id, in and sandboxed to the
/// environment's directory, with just the permissions that were granted, without a terminal,
/// and for a quarter of a second before the call goes on.
pub proof fn watcher_is_executed_as_prepared<H: Host>(
    launch: Launch<H>,
    granted: EffectivePermissions<H>,
    resolved: ResolvedCommand<H>,
    process_id: i32,
    step: Step<H>,
)
    requires
        goes_on(
            Call::Allocating { launch, granted, resolved },
            Event::ProcessIdAllocated(process_id),
            step,
        ),
    ensures
        step matches Step::Perform {
            call: Call::Executing { command, description, process_id: kept_process_id },
            action: Action::Execute { request, call_id },
        } && {
            &&& command@ == launch.command@
            &&& description@ == launch.description@
            &&& kept_process_id == process_id
            &&& call_id@ == launch.call_id@
            &&& request.command == resolved.command
            &&& request.shell_type == resolved.shell_type
            &&& request.hook_command@ == launch.command@
            &&& request.process_id == process_id
            &&& request.yield_time_ms == 250
            &&& request.max_output_tokens is None
            &&& request.cwd@ == launch.cwd@
            &&& request.sandbox_cwd@ == launch.cwd@
            &&& request.turn_environment == launch.environment
            &&& request.shell_mode == launch.shell_mode
            &&& request.network == launch.network
            &&& request.tty == false
            &&& request.sandbox_permissions == granted.sandbox_permissions
            &&& request.additional_permissions == granted.additional_permissions
            &&& request.additional_permissions_preapproved == granted.permissions_preapproved
            &&& request.justification is None
            &&& request.prefix_rule is None
        },
{
}

/// The seed is the beginning of the captured output, as long as the output or 8192 bytes,
/// whichever is less: an output of up to 8192 bytes is handed over whole.
pub proof fn seed_is_the_earliest_output(raw_output: Seq<u8>)
    ensures
        seed(raw_output).len() == if raw_output.len() < 8192 {
            raw_output.len()
        } else {
            8192
        },
        seed(raw_output).is_prefix_of(raw_output),
        raw_output.len() <= 8192 ==> seed(raw_output) == raw_output,
{
}

/// Delivery is spawned for the very process, under the very id and with the very label that the
/// call goes on with, and it begins with the earliest output: none of the first 8192 bytes is
/// dropped.
pub proof fn delivery_begins_with_the_earliest_output<H: Host>(
    command: String,
    description: String,
    process_id: i32,
    raw_output: Seq<u8>,
    id: Seq<char>,
    step: Step<H>,
)
    requires
        spawns_delivery(command, description, process_id, raw_output, id, step),
    ensures
        step matches Step::Perform {
            call: Call::Spawning {
                id: kept_id,
                command: kept_command,
                description: kept_description,
                process_id: kept_process_id,
            },
            action: Action::SpawnDelivery {
                process_id: delivered_process_id,
                id: delivered_id,
                description: delivered_description,
                seed: delivered_seed,
            },
        } && {
            &&& kept_id@ == id
            &&& kept_command@ == command@
            &&& kept_description@ == description@
            &&& kept_process_id == process_id
            &&& delivered_process_id == process_id
            &&& delivered_id@ == id
            &&& delivered_description@ == description@
            &&& delivered_seed@.is_prefix_of(raw_output)
            &&& delivered_seed@.len() == if raw_output.len() < 8192 {
                raw_output.len()
            } else {
                8192
            }
        },
{
    seed_is_the_earliest_output(raw_output);
}

/// A watcher that runs has delivery spawned under a new id, from its earliest output on; where
/// it could not be executed, the very process id is given back, and the host's error is kept.
pub proof fn execution_leads_to_delivery_or_release<H: Host>(
    command: String,
    description: String,
    process_id: i32,
    executed: Result<Vec<u8>, String>,
    step: Step<H>,
)
    requires
        goes_on(
            Call::Executing { command, description, process_id },
            Event::Executed(executed),
            step,
        ),
    ensures
        match executed {
            Ok(raw_output) => {
                &&& step matches Step::Perform {
                    call: Call::Spawning {
                        id,
                        command: kept_command,
                        description: kept_description,
                        process_id: kept_process_id,
                    },
                    action: Action::SpawnDelivery {
                        process_id: delivered_process_id,
                        id: delivered_id,
                        description: delivered_description,
                        seed,
                    },
                }
                &&& is_monitor_id(id@)
                &&& delivered_id@ == id@
                &&& kept_command@ == command@
                &&& kept_description@ == description@
                &&& kept_process_id == process_id
                &&& delivered_process_id == process_id
                &&& delivered_description@ == description@
                &&& seed@.is_prefix_of(raw_output@)
                &&& seed@.len() == if raw_output@.len() < 8192 {
                    raw_output@.len()
                } else {
                    8192
                }
            },
            Err(error) => {
                &&& step matches Step::Perform {
                    call: Call::ReleasingProcessId { error: kept },
                    action: Action::ReleaseProcessId { process_id: released },
                }
                &&& kept@ == "failed to start monitor: "@ + error@
                &&& released == process_id
            },
        },
{
    match executed {
        Ok(raw_output) => {
            let id = choose|id: Seq<char>|
                is_monitor_id(id) && #[trigger] spawns_delivery(
                    command,
                    description,
                    process_id,
                    raw_output@,
                    id,
                    step,
                );
            delivery_begins_with_the_earliest_output(
                command,
                description,
                process_id,
                raw_output@,
                id,
                step,
            );
        },
        Err(_) => {},
    }
}

/// Once the process id is given back, the call fails with what was kept.
pub proof fn failure_is_told_after_release<H: Host>(error: String, step: Step<H>)
    requires
        goes_on(Call::<H>::ReleasingProcessId { error }, Event::ProcessIdReleased, step),
    ensures
        step matches Step::Finish(Err(FunctionCallError::RespondToModel(message))) && message@
            == error@,
{
}

/// A watcher whose delivery was spawned is entered into the registry just as it is: id, process,
/// label, command and task; one that had exited fails the call.
pub proof fn spawned_watcher_is_registered_as_it_is<H: Host>(
    id: String,
    command: String,
    description: String,
    process_id: i32,
    spawned: Option<H::Task>,
    step: Step<H>,
)
    requires
        goes_on(
            Call::Spawning { id, command, description, process_id },
            Event::DeliverySpawned(spawned),
            step,
        ),
    ensures
        match spawned {
            Some(task) => {
                &&& step matches Step::Perform {
                    call: Call::Inserting { id: kept_id, description: kept_description },
                    action: Action::InsertMonitor {
                        id: inserted_id,
                        process_id: inserted_process_id,
                        description: inserted_description,
                        command: inserted_command,
                        task: inserted_task,
                    },
                }
                &&& kept_id@ == id@
                &&& kept_description@ == description@
                &&& inserted_id@ == id@
                &&& inserted_process_id == process_id
                &&& inserted_description@ == description@
                &&& inserted_command@ == command@
                &&& inserted_task == task
            },
            None => step matches Step::Finish(Err(FunctionCallError::RespondToModel(message)))
                && message@
                == "command exited immediately; a monitor command must keep running and print events"@,
        },
{
}

/// A registered monitor has its delivery released, and then the answer gives its id and label.
pub proof fn registered_monitor_is_released_and_told<H: Host>(
    id: String,
    description: String,
    next: Step<H>,
    released_id: String,
    released_description: String,
    last: Step<H>,
)
    requires
        goes_on(Call::<H>::Inserting { id, description }, Event::MonitorInserted, next),
        goes_on(
            Call::<H>::ReleasingDelivery {
                id: released_id,
                description: released_description,
            },
            Event::DeliveryReleased,
            last,
        ),
    ensures
        next matches Step::Perform {
            call: Call::ReleasingDelivery { id: kept_id, description: kept_description },
            action: Action::ReleaseDelivery,
        } && kept_id@ == id@ && kept_description@ == description@,
        last matches Step::Finish(Ok(output)) && {
            &&& output.success == Some(true)
            &&& output.text@ == "Started monitor "@ + released_id@ + ": watching \""@
                + released_description@ + "\". Stop it with action=stop, id="@ + released_id@
                + "."@
        },
{
}

/// At each point a call waits for what came of the action it asked for, whatever that was, and
/// for nothing else.
pub proof fn each_action_is_answered_by_its_own_event<H: Host>(call: Call<H>, event: Event<H>)
    ensures
        awaits(call, event) <==> {
            ||| call is Parsing && event is ArgumentsParsed
            ||| call is FindingProcess && event is ProcessFound
            ||| call is Terminating && event is ProcessTerminated
            ||| call is Removing && event is MonitorRemoved
            ||| call is Listing && event is MonitorsListed
            ||| call is ResolvingEnvironment && event is EnvironmentResolved
            ||| call is ApplyingPermissions && event is PermissionsApplied
            ||| call is ResolvingCommand && event is CommandResolved
            ||| call is Allocating && event is ProcessIdAllocated
            ||| call is Executing && event is Executed
            ||| call is ReleasingProcessId && event is ProcessIdReleased
            ||| call is Spawning && event is DeliverySpawned
            ||| call is Inserting && event is MonitorInserted
            ||| call is ReleasingDelivery && event is DeliveryReleased
        },
{
}

} // verus!
