//! What holds of every call, whatever the host answers.

use crate::call::{Action, Call, Event, FunctionCallError, MonitorAction, Step, ToolPayload};
use crate::description::{label, label_is_bounded, MAX_DESCRIPTION_BYTES};
use crate::host::{Host, SandboxPermissions, Turn};
use crate::id::is_monitor_id;
use crate::message::{failed_to_start_text, removed_text, started_text, stopped_text};
use crate::protocol::{
    answers, begins, chosen_shell, fails, given, goes_on, matched_cwd, seed, spawns_delivery,
    MONITOR_SEED_MAX_BYTES, MONITOR_YIELD_MS,
};
use crate::text::blank;
use crate::tool::FunctionToolOutput;
use vstd::prelude::*;
use vstd::utf8::encode_utf8;

verus! {

/// A label that is short enough for every notification to carry it.
pub open spec fn is_short(label: Seq<char>) -> bool {
    encode_utf8(label).len() <= MAX_DESCRIPTION_BYTES
}

/// What is known of a call at each point that it can stand at: a command to watch is more
/// than white space, a label is short, and an id has the form of new ids.
pub open spec fn sound_call<H: Host>(call: Call<H>) -> bool {
    match call {
        Call::ResolvingEnvironment { command, description, .. } => !blank(command@) && is_short(
            description@,
        ),
        Call::ApplyingPermissions { launch, .. } => !blank(launch.command@) && is_short(
            launch.description@,
        ),
        Call::ResolvingCommand { launch, .. } => !blank(launch.command@) && is_short(
            launch.description@,
        ),
        Call::Allocating { launch, .. } => !blank(launch.command@) && is_short(
            launch.description@,
        ),
        Call::Executing { command, description, .. } => !blank(command@) && is_short(description@),
        Call::Spawning { id, command, description, .. } => is_monitor_id(id@) && !blank(command@)
            && is_short(description@),
        Call::Inserting { id, description } => is_monitor_id(id@) && is_short(description@),
        Call::ReleasingDelivery { id, description } => is_monitor_id(id@) && is_short(description@),
        _ => true,
    }
}

/// What is known of each action that the host is asked for.
pub open spec fn sound_action<H: Host>(action: Action<H>) -> bool {
    match action {
        Action::ResolveCommand { args, .. } => !blank(args.cmd@),
        Action::Execute { request, .. } => {
            &&& !blank(request.hook_command@)
            &&& request.cwd@ == request.sandbox_cwd@
            &&& request.yield_time_ms == MONITOR_YIELD_MS
            &&& !request.tty
        },
        Action::SpawnDelivery { id, description, seed, .. } => {
            &&& is_monitor_id(id@)
            &&& is_short(description@)
            &&& seed@.len() <= MONITOR_SEED_MAX_BYTES
        },
        Action::InsertMonitor { id, description, command, .. } => {
            &&& is_monitor_id(id@)
            &&& is_short(description@)
            &&& !blank(command@)
        },
        _ => true,
    }
}

/// A step that leads to such a call by such an action, or finishes.
pub open spec fn sound_step<H: Host>(step: Step<H>) -> bool {
    match step {
        Step::Perform { call, action } => sound_call(call) && sound_action(action),
        Step::Finish(_) => true,
    }
}

/// The step from execution to delivery, with the id that was drawn for it.
proof fn lemma_delivery_step<H: Host>(call: Call<H>, raw_output: Vec<u8>, step: Step<H>)
    requires
        goes_on(call, Event::<H>::Executed(Ok(raw_output)), step),
    ensures
        call is Executing,
        step is Perform,
        step->call is Spawning,
        is_monitor_id(step->call->Spawning_id@),
        spawns_delivery(
            call->Executing_command,
            call->Executing_description,
            call->Executing_process_id,
            raw_output@,
            step->call->Spawning_id@,
            step,
        ),
{
    let id = choose|id: Seq<char>|
        is_monitor_id(id) && #[trigger] spawns_delivery(
            call->Executing_command,
            call->Executing_description,
            call->Executing_process_id,
            raw_output@,
            id,
            step,
        );
    assert(spawns_delivery(
        call->Executing_command,
        call->Executing_description,
        call->Executing_process_id,
        raw_output@,
        id,
        step,
    ));
}

/// Every step of a sound call is sound.
pub proof fn steps_stay_sound<H: Host>(call: Call<H>, event: Event<H>, step: Step<H>)
    requires
        sound_call(call),
        goes_on(call, event, step),
    ensures
        sound_step(step),
{
    match event {
        Event::ArgumentsParsed(Ok(args)) => {
            if given(args.description) {
                label_is_bounded(args.description->0@);
            }
        },
        Event::Executed(Ok(raw_output)) => {
            lemma_delivery_step(call, raw_output, step);
        },
        _ => {},
    }
}

/// A call as far as it went: the points that it stood at, the action that it asked for at
/// each, and what came of every action but the last.
pub open spec fn is_run<H: Host>(
    payload: ToolPayload,
    turn: Turn<H>,
    calls: Seq<Call<H>>,
    actions: Seq<Action<H>>,
    events: Seq<Event<H>>,
) -> bool {
    &&& calls.len() == actions.len()
    &&& calls.len() == events.len() + 1
    &&& begins(payload, turn, (Step::Perform { call: calls[0], action: actions[0] }))
    &&& forall|i: int|
        0 <= i < events.len() ==> goes_on(
            calls[i],
            #[trigger] events[i],
            (Step::Perform { call: calls[i + 1], action: actions[i + 1] }),
        )
}

/// Whatever the arguments and whatever the host answers: a watcher's command is never blank,
/// its label never long, its seed never large, its id always one of the library's own, and it
/// is sandboxed in the directory that it runs in.
pub proof fn run_is_sound<H: Host>(
    payload: ToolPayload,
    turn: Turn<H>,
    calls: Seq<Call<H>>,
    actions: Seq<Action<H>>,
    events: Seq<Event<H>>,
    i: int,
)
    requires
        is_run(payload, turn, calls, actions, events),
        0 <= i < calls.len(),
    ensures
        sound_call(calls[i]),
        sound_action(actions[i]),
    decreases i,
{
    if i > 0 {
        run_is_sound(payload, turn, calls, actions, events, i - 1);
        steps_stay_sound(
            calls[i - 1],
            events[i - 1],
            (Step::Perform { call: calls[i], action: actions[i] }),
        );
    }
}

/// How many actions lie before the one that a call waits for.
pub open spec fn place<H: Host>(call: Call<H>) -> int {
    match call {
        Call::Parsing { .. } => 0,
        Call::FindingProcess { .. } => 1,
        Call::Terminating { .. } => 2,
        Call::Removing { .. } => 3,
        Call::Listing => 1,
        Call::ResolvingEnvironment { .. } => 1,
        Call::ApplyingPermissions { .. } => 2,
        Call::ResolvingCommand { .. } => 3,
        Call::Allocating { .. } => 4,
        Call::Executing { .. } => 5,
        Call::ReleasingProcessId { .. } => 6,
        Call::Spawning { .. } => 6,
        Call::Inserting { .. } => 7,
        Call::ReleasingDelivery { .. } => 8,
    }
}

/// A call never stands at the same point twice, and asks for nine actions at the most.
pub proof fn run_is_short<H: Host>(
    payload: ToolPayload,
    turn: Turn<H>,
    calls: Seq<Call<H>>,
    actions: Seq<Action<H>>,
    events: Seq<Event<H>>,
)
    requires
        is_run(payload, turn, calls, actions, events),
    ensures
        calls.len() <= 9,
        forall|i: int| 0 <= i < calls.len() ==> place(#[trigger] calls[i]) == i,
{
    assert forall|i: int| 0 <= i < calls.len() implies place(#[trigger] calls[i]) == i by {
        lemma_place(payload, turn, calls, actions, events, i);
    }
    assert(place(calls[calls.len() - 1]) == calls.len() - 1);
}

proof fn lemma_place<H: Host>(
    payload: ToolPayload,
    turn: Turn<H>,
    calls: Seq<Call<H>>,
    actions: Seq<Action<H>>,
    events: Seq<Event<H>>,
    i: int,
)
    requires
        is_run(payload, turn, calls, actions, events),
        0 <= i < calls.len(),
    ensures
        place(calls[i]) == i,
    decreases i,
{
    if i > 0 {
        lemma_place(payload, turn, calls, actions, events, i - 1);
        lemma_next_place(
            calls[i - 1],
            events[i - 1],
            (Step::Perform { call: calls[i], action: actions[i] }),
        );
    }
}

proof fn lemma_next_place<H: Host>(call: Call<H>, event: Event<H>, step: Step<H>)
    requires
        goes_on(call, event, step),
        step is Perform,
    ensures
        place(step->call) == place(call) + 1,
{
    match event {
        Event::Executed(Ok(raw_output)) => {
            lemma_delivery_step(call, raw_output, step);
        },
        _ => {},
    }
}

/// The step that led to the action at `i`, in a run that has got there.
proof fn lemma_step_to<H: Host>(
    payload: ToolPayload,
    turn: Turn<H>,
    calls: Seq<Call<H>>,
    actions: Seq<Action<H>>,
    events: Seq<Event<H>>,
    i: int,
)
    requires
        is_run(payload, turn, calls, actions, events),
        0 < i < calls.len(),
    ensures
        goes_on(
            calls[i - 1],
            events[i - 1],
            (Step::Perform { call: calls[i], action: actions[i] }),
        ),
        place(calls[i - 1]) == i - 1,
        place(calls[i]) == i,
{
    run_is_short(payload, turn, calls, actions, events);
    assert(goes_on(
        calls[i - 1],
        events[i - 1],
        (Step::Perform { call: calls[i], action: actions[i] }),
    ));
}

/// A monitor is removed from the registry only once its process was to be terminated: the
/// process that the registry named for that very monitor.
pub proof fn removal_follows_termination<H: Host>(
    payload: ToolPayload,
    turn: Turn<H>,
    calls: Seq<Call<H>>,
    actions: Seq<Action<H>>,
    events: Seq<Event<H>>,
    i: int,
)
    requires
        is_run(payload, turn, calls, actions, events),
        0 <= i < actions.len(),
        actions[i] is RemoveMonitor,
    ensures
        i == 3,
        actions[1] is FindProcess,
        actions[1]->FindProcess_id@ == actions[i]->RemoveMonitor_id@,
        events[1] matches Event::ProcessFound(Some(process_id)) && actions[2] == (
        Action::<H>::TerminateProcess { process_id }),
        events[2] is ProcessTerminated,
{
    lemma_step_to(payload, turn, calls, actions, events, i);
    lemma_step_to(payload, turn, calls, actions, events, 2);
    lemma_step_to(payload, turn, calls, actions, events, 1);
}

/// Once its process was to be terminated, a monitor is removed whether or not that succeeded,
/// and the answer tells which.
pub proof fn removal_is_certain_and_reported<H: Host>(
    id: String,
    terminated: bool,
    next: Step<H>,
    last: Step<H>,
)
    requires
        goes_on(Call::<H>::Terminating { id }, Event::<H>::ProcessTerminated(terminated), next),
        goes_on(next->call, Event::<H>::MonitorRemoved, last),
    ensures
        next is Perform,
        next->action is RemoveMonitor,
        next->action->RemoveMonitor_id@ == id@,
        answers(
            last,
            if terminated {
                stopped_text(id@)
            } else {
                removed_text(id@)
            },
        ),
{
}

/// The delivery task is let go only once its monitor is in the registry, under the id, for the
/// process and with the label that it was spawned with. So it can never take an id off the
/// registry that is not there yet.
pub proof fn delivery_released_after_registration<H: Host>(
    payload: ToolPayload,
    turn: Turn<H>,
    calls: Seq<Call<H>>,
    actions: Seq<Action<H>>,
    events: Seq<Event<H>>,
    i: int,
)
    requires
        is_run(payload, turn, calls, actions, events),
        0 <= i < actions.len(),
        actions[i] is ReleaseDelivery,
    ensures
        i == 8,
        events[7] is MonitorInserted,
        actions[7] is InsertMonitor,
        actions[6] is SpawnDelivery,
        actions[7]->InsertMonitor_id@ == actions[6]->SpawnDelivery_id@,
        actions[7]->InsertMonitor_process_id == actions[6]->SpawnDelivery_process_id,
        actions[7]->InsertMonitor_description@ == actions[6]->SpawnDelivery_description@,
        events[6] matches Event::DeliverySpawned(Some(task)) && task
            == actions[7]->InsertMonitor_task,
{
    lemma_step_to(payload, turn, calls, actions, events, i);
    lemma_step_to(payload, turn, calls, actions, events, 7);
    lemma_spawning_step(payload, turn, calls, actions, events);
}

/// How a run got to the spawning of delivery.
proof fn lemma_spawning_step<H: Host>(
    payload: ToolPayload,
    turn: Turn<H>,
    calls: Seq<Call<H>>,
    actions: Seq<Action<H>>,
    events: Seq<Event<H>>,
)
    requires
        is_run(payload, turn, calls, actions, events),
        calls.len() > 6,
        calls[6] is Spawning,
    ensures
        calls[5] is Executing,
        events[5] matches Event::Executed(Ok(raw_output)) && spawns_delivery(
            calls[5]->Executing_command,
            calls[5]->Executing_description,
            calls[5]->Executing_process_id,
            raw_output@,
            calls[6]->Spawning_id@,
            (Step::Perform { call: calls[6], action: actions[6] }),
        ),
{
    lemma_step_to(payload, turn, calls, actions, events, 6);
    match events[5] {
        Event::Executed(Ok(raw_output)) => {
            lemma_delivery_step(
                calls[5],
                raw_output,
                (Step::Perform { call: calls[6], action: actions[6] }),
            );
        },
        _ => {},
    }
}

/// A process id is given back only where its watcher could not be started.
pub proof fn release_follows_failed_execution<H: Host>(
    payload: ToolPayload,
    turn: Turn<H>,
    calls: Seq<Call<H>>,
    actions: Seq<Action<H>>,
    events: Seq<Event<H>>,
    i: int,
)
    requires
        is_run(payload, turn, calls, actions, events),
        0 <= i < actions.len(),
        actions[i] is ReleaseProcessId,
    ensures
        i == 6,
        actions[5] is Execute,
        actions[5]->request.process_id == actions[i]->ReleaseProcessId_process_id,
        events[5] matches Event::Executed(Err(_)),
{
    lemma_step_to(payload, turn, calls, actions, events, i);
    lemma_step_to(payload, turn, calls, actions, events, 5);
    if calls[6] is Spawning {
        lemma_spawning_step(payload, turn, calls, actions, events);
    }
}

/// Where a watcher could not be started, its process id is given back, and the call fails with
/// the host's error.
pub proof fn failed_execution_is_released_and_reported<H: Host>(
    command: String,
    description: String,
    process_id: i32,
    error: String,
    next: Step<H>,
    last: Step<H>,
)
    requires
        goes_on(
            Call::<H>::Executing { command, description, process_id },
            Event::<H>::Executed(Err(error)),
            next,
        ),
        goes_on(next->call, Event::<H>::ProcessIdReleased, last),
    ensures
        next is Perform,
        next->action == (Action::<H>::ReleaseProcessId { process_id }),
        fails(last, failed_to_start_text(error@)),
{
}

/// A watcher runs what it was asked to run, and it runs with the permissions that were granted
/// for the directory it runs in: nothing less, and nothing more. (Where that directory is no
/// path of this machine, the session's directory takes its place.)
pub proof fn watcher_runs_as_granted<H: Host>(
    payload: ToolPayload,
    turn: Turn<H>,
    calls: Seq<Call<H>>,
    actions: Seq<Action<H>>,
    events: Seq<Event<H>>,
    i: int,
)
    requires
        is_run(payload, turn, calls, actions, events),
        0 <= i < actions.len(),
        actions[i] is Execute,
    ensures
        i == 5,
        ({
            let request = actions[i]->request;
            &&& events[0] matches Event::ArgumentsParsed(Ok(args))
            &&& args.action == MonitorAction::Start
            &&& request.hook_command@ == args.command->0@
            &&& events[1] matches Event::EnvironmentResolved(Ok(Some(env)))
            &&& request.cwd@ == env.cwd@
            &&& request.sandbox_cwd@ == env.cwd@
            &&& request.turn_environment == env.environment
            &&& actions[2] == (Action::<H>::ApplyPermissions {
                environment_id: env.environment_id,
                cwd: matched_cwd(
                    env.native_cwd,
                    env.convention,
                    turn.native_convention,
                    turn.session_cwd,
                ),
                sandbox_permissions: SandboxPermissions::UseDefault,
                additional_permissions: None,
            })
            &&& events[2] matches Event::PermissionsApplied(granted)
            &&& request.sandbox_permissions == granted.sandbox_permissions
            &&& request.additional_permissions == granted.additional_permissions
            &&& request.additional_permissions_preapproved == granted.permissions_preapproved
            &&& actions[3] is ResolveCommand
            &&& actions[3]->args.cmd@ == args.command->0@
            &&& actions[3]->shell == chosen_shell(env.shell, turn.user_shell)
            &&& actions[3]->shell_mode == request.shell_mode
            &&& events[3] matches Event::CommandResolved(Ok(resolved))
            &&& request.command == resolved.command
            &&& request.shell_type == resolved.shell_type
            &&& events[4] == Event::<H>::ProcessIdAllocated(request.process_id)
        }),
{
    lemma_step_to(payload, turn, calls, actions, events, i);
    lemma_step_to(payload, turn, calls, actions, events, 4);
    lemma_step_to(payload, turn, calls, actions, events, 3);
    lemma_step_to(payload, turn, calls, actions, events, 2);
    lemma_step_to(payload, turn, calls, actions, events, 1);
}

/// A monitor is entered into the registry with the command that was asked for, with the label
/// that the description gives, and for the process that runs the command.
pub proof fn monitor_is_registered_as_asked<H: Host>(
    payload: ToolPayload,
    turn: Turn<H>,
    calls: Seq<Call<H>>,
    actions: Seq<Action<H>>,
    events: Seq<Event<H>>,
    i: int,
)
    requires
        is_run(payload, turn, calls, actions, events),
        0 <= i < actions.len(),
        actions[i] is InsertMonitor,
    ensures
        i == 7,
        is_monitor_id(actions[i]->InsertMonitor_id@),
        events[0] matches Event::ArgumentsParsed(Ok(args)) && {
            &&& args.action == MonitorAction::Start
            &&& actions[i]->InsertMonitor_command@ == args.command->0@
            &&& actions[i]->InsertMonitor_description@ == label(args.description->0@)
        },
        actions[5] is Execute,
        actions[5]->request.process_id == actions[i]->InsertMonitor_process_id,
        events[5] matches Event::Executed(Ok(raw_output)) && actions[6]->seed@ == seed(raw_output@),
{
    run_is_sound(payload, turn, calls, actions, events, i);
    lemma_step_to(payload, turn, calls, actions, events, i);
    lemma_spawning_step(payload, turn, calls, actions, events);
    lemma_step_to(payload, turn, calls, actions, events, 5);
    lemma_step_to(payload, turn, calls, actions, events, 4);
    lemma_step_to(payload, turn, calls, actions, events, 3);
    lemma_step_to(payload, turn, calls, actions, events, 2);
    lemma_step_to(payload, turn, calls, actions, events, 1);
}

/// A start that is answered has entered a monitor into the registry, and the answer names that
/// monitor's id, to stop it by, and its label.
pub proof fn started_answer_names_registered_monitor<H: Host>(
    payload: ToolPayload,
    turn: Turn<H>,
    calls: Seq<Call<H>>,
    actions: Seq<Action<H>>,
    events: Seq<Event<H>>,
    event: Event<H>,
    output: FunctionToolOutput,
)
    requires
        is_run(payload, turn, calls, actions, events),
        events.len() > 0,
        events[0] matches Event::ArgumentsParsed(Ok(args)) && args.action == MonitorAction::Start,
        goes_on(calls.last(), event, Step::<H>::Finish(Ok(output))),
    ensures
        calls.len() == 9,
        actions[7] is InsertMonitor,
        output.text@ == started_text(
            actions[7]->InsertMonitor_id@,
            actions[7]->InsertMonitor_description@,
        ),
        output.success == Some(true),
{
    run_is_short(payload, turn, calls, actions, events);
    let n = calls.len() as int;
    lemma_start_stays_a_start(payload, turn, calls, actions, events, n - 1);
    lemma_finish_of_start(calls.last(), event, output);
    lemma_step_to(payload, turn, calls, actions, events, 8);
    lemma_step_to(payload, turn, calls, actions, events, 7);
}

/// A call that fails has entered nothing into the registry.
pub proof fn failed_call_registers_nothing<H: Host>(
    payload: ToolPayload,
    turn: Turn<H>,
    calls: Seq<Call<H>>,
    actions: Seq<Action<H>>,
    events: Seq<Event<H>>,
    event: Event<H>,
    error: FunctionCallError,
    i: int,
)
    requires
        is_run(payload, turn, calls, actions, events),
        goes_on(calls.last(), event, Step::<H>::Finish(Err(error))),
        0 <= i < actions.len(),
    ensures
        !(actions[i] is InsertMonitor),
{
    if actions[i] is InsertMonitor {
        let n = calls.len() as int;
        run_is_short(payload, turn, calls, actions, events);
        monitor_is_registered_as_asked(payload, turn, calls, actions, events, i);
        lemma_step_to(payload, turn, calls, actions, events, 7);
        if n > 8 {
            lemma_step_to(payload, turn, calls, actions, events, 8);
        }
    }
}

/// A point of a start, after its arguments were parsed.
spec fn in_start<H: Host>(call: Call<H>) -> bool {
    !(call is Parsing || call is FindingProcess || call is Terminating || call is Removing || call
        is Listing)
}

proof fn lemma_start_stays_a_start<H: Host>(
    payload: ToolPayload,
    turn: Turn<H>,
    calls: Seq<Call<H>>,
    actions: Seq<Action<H>>,
    events: Seq<Event<H>>,
    i: int,
)
    requires
        is_run(payload, turn, calls, actions, events),
        events[0] matches Event::ArgumentsParsed(Ok(args)) && args.action == MonitorAction::Start,
        0 < i < calls.len(),
    ensures
        in_start(calls[i]),
    decreases i,
{
    lemma_step_to(payload, turn, calls, actions, events, i);
    if i > 1 {
        lemma_start_stays_a_start(payload, turn, calls, actions, events, i - 1);
    }
}

proof fn lemma_finish_of_start<H: Host>(call: Call<H>, event: Event<H>, output: FunctionToolOutput)
    requires
        in_start(call),
        goes_on(call, event, Step::<H>::Finish(Ok(output))),
    ensures
        call is ReleasingDelivery,
{
}

} // verus!
