//! What holds across calls, by way of the registry that they share.
//!
//! The registry belongs to the host. Here it is a map that the actions of all calls change and
//! read, in the order in which the host performs them. The actions of different calls may
//! interleave in any way, and a monitor that ends of itself counts as a removal.

use crate::call::{Action, Call, Event, FunctionCallError, MonitorAction, Step, ToolPayload};
use crate::host::{Host, Turn};
use crate::laws::{
    is_run, monitor_is_registered_as_asked, started_answer_names_registered_monitor,
};
use crate::listing::{list_text, MonitorInfo};
use crate::message::{no_active_monitor_text, removed_text, started_text, stopped_text};
use crate::protocol::{answers, goes_on};
use crate::tool::FunctionToolOutput;
use vstd::prelude::*;

verus! {

/// What the registry holds of one monitor.
pub struct Entry {
    pub process_id: i32,
    pub description: Seq<char>,
    pub command: Seq<char>,
}

/// The registry once `action` is performed on it.
pub open spec fn updated<H: Host>(
    registry: Map<Seq<char>, Entry>,
    action: Action<H>,
) -> Map<Seq<char>, Entry> {
    match action {
        Action::InsertMonitor { id, process_id, description, command, .. } => registry.insert(
            id@,
            Entry { process_id, description: description@, command: command@ },
        ),
        Action::RemoveMonitor { id } => registry.remove(id@),
        _ => registry,
    }
}

/// The registry once all of `actions` are performed on it, in order.
pub open spec fn replayed<H: Host>(
    registry: Map<Seq<char>, Entry>,
    actions: Seq<Action<H>>,
) -> Map<Seq<char>, Entry>
    decreases actions.len(),
{
    if actions.len() == 0 {
        registry
    } else {
        updated(replayed(registry, actions.drop_last()), actions.last())
    }
}

/// `action` enters a monitor under `id`.
pub open spec fn inserts<H: Host>(action: Action<H>, id: Seq<char>) -> bool {
    action matches Action::InsertMonitor { id: inserted, .. } && inserted@ == id
}

/// `action` removes the monitor under `id`.
pub open spec fn removes<H: Host>(action: Action<H>, id: Seq<char>) -> bool {
    action matches Action::RemoveMonitor { id: removed } && removed@ == id
}

/// `listed` tells of each monitor in the registry, and of no others.
pub open spec fn lists(registry: Map<Seq<char>, Entry>, listed: Seq<MonitorInfo>) -> bool {
    &&& forall|i: int| 0 <= i < listed.len() ==> registry.contains_key(#[trigger] listed[i].id@)
    &&& forall|i: int|
        0 <= i < listed.len() ==> {
            let entry = registry[(#[trigger] listed[i]).id@];
            &&& entry.description == listed[i].description@
            &&& entry.command == listed[i].command@
        }
    &&& forall|id: Seq<char>| #[trigger]
        registry.contains_key(id) ==> exists|i: int|
            0 <= i < listed.len() && #[trigger] listed[i].id@ == id
}

/// `event` tells of `action` what the registry holds at the time.
pub open spec fn truthful<H: Host>(
    registry: Map<Seq<char>, Entry>,
    action: Action<H>,
    event: Event<H>,
) -> bool {
    match (action, event) {
        (Action::FindProcess { id }, Event::ProcessFound(found)) => found == (
        if registry.contains_key(id@) {
            Some(registry[id@].process_id)
        } else {
            None
        }),
        (Action::ListMonitors, Event::MonitorsListed(listed)) => lists(registry, listed@),
        _ => true,
    }
}

/// Everything that the host performs, for all calls, from a first registry on.
pub struct History<H: Host> {
    pub first: Map<Seq<char>, Entry>,
    pub performed: Seq<Action<H>>,
}

impl<H: Host> History<H> {
    /// The registry just before the action at `time`.
    pub open spec fn before(self, time: int) -> Map<Seq<char>, Entry> {
        replayed(self.first, self.performed.take(time))
    }

    /// The registry just after the action at `time`.
    pub open spec fn after(self, time: int) -> Map<Seq<char>, Entry> {
        self.before(time + 1)
    }
}

/// A call from its beginning to its end: as in [`is_run`], with what came of the last action
/// and of the call, and with the time at which each action was performed.
pub struct WholeCall<H: Host> {
    pub payload: ToolPayload,
    pub turn: Turn<H>,
    pub calls: Seq<Call<H>>,
    pub actions: Seq<Action<H>>,
    pub events: Seq<Event<H>>,
    pub times: Seq<int>,
    pub result: Result<FunctionToolOutput, FunctionCallError>,
}

impl<H: Host> WholeCall<H> {
    /// The call took place in `history`, and the host answered it truthfully.
    pub open spec fn took_place(self, history: History<H>) -> bool {
        &&& self.calls.len() == self.events.len()
        &&& self.calls.len() == self.times.len()
        &&& is_run(self.payload, self.turn, self.calls, self.actions, self.events.drop_last())
        &&& goes_on(self.calls.last(), self.events.last(), Step::<H>::Finish(self.result))
        &&& forall|i: int, j: int|
            0 <= i < j < self.times.len() ==> #[trigger] self.times[i] < #[trigger] self.times[j]
        &&& forall|i: int|
            0 <= i < self.times.len() ==> {
                let time = #[trigger] self.times[i];
                &&& 0 <= time < history.performed.len()
                &&& history.performed[time] == self.actions[i]
                &&& truthful(history.before(time), self.actions[i], self.events[i])
            }
    }

    /// The call asks for the monitor under `id` to be stopped.
    pub open spec fn asks_to_stop(self, id: Seq<char>) -> bool {
        &&& self.events[0] matches Event::ArgumentsParsed(Ok(args))
        &&& args.action == MonitorAction::Stop
        &&& args.id matches Some(given)
        &&& given@ == id
    }

    /// The call asks for `action`.
    pub open spec fn asks_for(self, action: MonitorAction) -> bool {
        self.events[0] matches Event::ArgumentsParsed(Ok(args)) && args.action == action
    }

    /// The call goes well, and answers `text`.
    pub open spec fn is_answered(self, text: Seq<char>) -> bool {
        answers(Step::<H>::Finish(self.result), text)
    }
}

/// The registry changes by one action at a time.
proof fn lemma_after<H: Host>(history: History<H>, time: int)
    requires
        0 <= time < history.performed.len(),
    ensures
        history.after(time) == updated(history.before(time), history.performed[time]),
{
    assert(history.performed.take(time + 1).drop_last() =~= history.performed.take(time));
}

/// What is not in the registry is not there later either, unless it is entered meanwhile.
proof fn lemma_stays_out<H: Host>(history: History<H>, id: Seq<char>, from: int, to: int)
    requires
        0 <= from <= to <= history.performed.len(),
        !history.before(from).contains_key(id),
        forall|t: int| from <= t < to ==> !inserts(#[trigger] history.performed[t], id),
    ensures
        !history.before(to).contains_key(id),
    decreases to - from,
{
    if from < to {
        lemma_stays_out(history, id, from, to - 1);
        lemma_after(history, to - 1);
        assert(!inserts(history.performed[to - 1], id));
    }
}

/// The steps of a stop, from its arguments to its end: the monitor is looked up and, if it is
/// found, its process is to be terminated and the monitor is removed.
proof fn lemma_course_of_stop<H: Host>(call: WholeCall<H>, history: History<H>, id: Seq<char>)
    requires
        call.took_place(history),
        call.asks_to_stop(id),
    ensures
        call.calls.len() >= 2,
        call.actions[0] is ParseArguments,
        call.actions[1] is FindProcess,
        call.actions[1]->FindProcess_id@ == id,
        !history.before(call.times[1]).contains_key(id) ==> {
            &&& call.calls.len() == 2
            &&& call.is_answered(no_active_monitor_text(id))
        },
        history.before(call.times[1]).contains_key(id) ==> {
            &&& call.calls.len() == 4
            &&& call.actions[2] == (Action::<H>::TerminateProcess {
                process_id: history.before(call.times[1])[id].process_id,
            })
            &&& removes(call.actions[3], id)
            &&& call.events[2] matches Event::ProcessTerminated(terminated)
            &&& call.is_answered(
                if terminated {
                    stopped_text(id)
                } else {
                    removed_text(id)
                },
            )
        },
{
    let n = call.calls.len() as int;
    let led = call.events.drop_last();
    if n > 1 {
        assert(led[0] == call.events[0]);
        let time = call.times[1];
        if n > 2 {
            assert(led[1] == call.events[1]);
            if n > 3 {
                assert(led[2] == call.events[2]);
                if n > 4 {
                    assert(led[3] == call.events[3]);
                }
            }
        }
    }
}

/// Once a stop has been answered, its monitor is out of the registry.
pub proof fn stopped_monitor_is_out<H: Host>(call: WholeCall<H>, history: History<H>, id: Seq<char>)
    requires
        call.took_place(history),
        call.asks_to_stop(id),
    ensures
        call.result is Ok,
        !history.after(call.times.last()).contains_key(id),
{
    lemma_course_of_stop(call, history, id);
    let time = call.times[call.times.len() - 1];
    lemma_after(history, time);
}

/// A second stop of a monitor finds nothing and terminates nothing, unless a monitor was
/// entered under its id meanwhile.
pub proof fn second_stop_finds_nothing<H: Host>(
    history: History<H>,
    id: Seq<char>,
    first: WholeCall<H>,
    second: WholeCall<H>,
)
    requires
        first.took_place(history),
        first.asks_to_stop(id),
        second.took_place(history),
        second.asks_to_stop(id),
        first.times.last() < second.times[1],
        forall|t: int|
            first.times.last() < t < second.times[1] ==> !inserts(
                #[trigger] history.performed[t],
                id,
            ),
    ensures
        second.is_answered(no_active_monitor_text(id)),
        forall|i: int|
            0 <= i < second.actions.len() ==> !(#[trigger] second.actions[i] is TerminateProcess)
                && !(second.actions[i] is RemoveMonitor),
{
    stopped_monitor_is_out(first, history, id);
    lemma_course_of_stop(second, history, id);
    let looked_up = second.times[1];
    let ended = first.times[first.times.len() - 1];
    lemma_stays_out(history, id, ended + 1, looked_up);
}

/// The steps of a list.
proof fn lemma_course_of_list<H: Host>(call: WholeCall<H>, history: History<H>)
    requires
        call.took_place(history),
        call.asks_for(MonitorAction::List),
    ensures
        call.calls.len() == 2,
        call.actions[1] is ListMonitors,
        call.events[1] matches Event::MonitorsListed(listed) && {
            &&& lists(history.before(call.times[1]), listed@)
            &&& call.is_answered(list_text(listed@))
        },
{
    let n = call.calls.len() as int;
    let led = call.events.drop_last();
    if n > 1 {
        assert(led[0] == call.events[0]);
        let time = call.times[1];
        if n > 2 {
            assert(led[1] == call.events[1]);
        }
    }
}

/// A list after a stop has no row for the monitor that was stopped, unless a monitor was
/// entered under its id meanwhile.
pub proof fn list_leaves_out_stopped_monitor<H: Host>(
    history: History<H>,
    id: Seq<char>,
    stopped: WholeCall<H>,
    listing: WholeCall<H>,
)
    requires
        stopped.took_place(history),
        stopped.asks_to_stop(id),
        listing.took_place(history),
        listing.asks_for(MonitorAction::List),
        stopped.times.last() < listing.times[1],
        forall|t: int|
            stopped.times.last() < t < listing.times[1] ==> !inserts(
                #[trigger] history.performed[t],
                id,
            ),
    ensures
        listing.events[1] matches Event::MonitorsListed(listed) && {
            &&& listing.is_answered(list_text(listed@))
            &&& forall|i: int| 0 <= i < listed@.len() ==> (#[trigger] listed@[i]).id@ != id
        },
{
    stopped_monitor_is_out(stopped, history, id);
    lemma_course_of_list(listing, history);
    let read = listing.times[1];
    let ended = stopped.times[stopped.times.len() - 1];
    lemma_stays_out(history, id, ended + 1, read);
}

/// What is entered under a new id stays beside all that is done to other monitors.
proof fn lemma_stays_beside<H: Host>(history: History<H>, id: Seq<char>, entered: int, time: int)
    requires
        0 <= entered < time <= history.performed.len(),
        inserts(history.performed[entered], id),
        !history.before(entered).contains_key(id),
        forall|t: int|
            entered < t < time ==> !inserts(#[trigger] history.performed[t], id) && !removes(
                history.performed[t],
                id,
            ),
    ensures
        ({
            let others = replayed(
                history.before(entered),
                history.performed.subrange(entered + 1, time),
            );
            &&& !others.contains_key(id)
            &&& history.before(time) == others.insert(id, history.after(entered)[id])
        }),
    decreases time - entered,
{
    lemma_after(history, entered);
    let between = history.performed.subrange(entered + 1, time);
    if time == entered + 1 {
        assert(between =~= Seq::<Action<H>>::empty());
        assert(history.before(time) =~= history.before(entered).insert(
            id,
            history.after(entered)[id],
        ));
    } else {
        lemma_stays_beside(history, id, entered, time - 1);
        lemma_after(history, time - 1);
        let action = history.performed[time - 1];
        assert(!inserts(action, id) && !removes(action, id));
        let shorter = history.performed.subrange(entered + 1, time - 1);
        assert(between.drop_last() =~= shorter);
        assert(between.last() == action);
        let others = replayed(history.before(entered), shorter);
        assert(updated(others.insert(id, history.after(entered)[id]), action) =~= updated(
            others,
            action,
        ).insert(id, history.after(entered)[id]));
    }
}

/// A stop undoes a start. Where the id that a start answered with is stopped, and neither
/// another call nor the end of the watcher has touched that id meanwhile, the process to be
/// terminated is the one that the start ran, and the registry is then what all the other
/// actions alone would have made of it: if there were none that change it, what it was just
/// before the start entered its monitor. (The id is taken to have been new, which is left to
/// chance.)
pub proof fn stop_undoes_start<H: Host>(
    history: History<H>,
    started: WholeCall<H>,
    output: FunctionToolOutput,
    stopped: WholeCall<H>,
    id: Seq<char>,
)
    requires
        started.took_place(history),
        started.asks_for(MonitorAction::Start),
        started.result == Ok::<FunctionToolOutput, FunctionCallError>(output),
        inserts(started.actions[7], id),
        !history.before(started.times[7]).contains_key(id),
        stopped.took_place(history),
        stopped.asks_to_stop(id),
        started.times[7] < stopped.times[1],
        forall|t: int|
            started.times[7] < t < stopped.times.last() ==> !inserts(
                #[trigger] history.performed[t],
                id,
            ) && !removes(history.performed[t], id),
    ensures
        output.text@ == started_text(id, started.actions[7]->InsertMonitor_description@),
        started.actions[5] is Execute,
        stopped.actions[2] == (Action::<H>::TerminateProcess {
            process_id: started.actions[5]->request.process_id,
        }),
        removes(stopped.actions[3], id),
        history.after(stopped.times.last()) == replayed(
            history.before(started.times[7]),
            history.performed.subrange(started.times[7] + 1, stopped.times.last()),
        ),
        (forall|t: int|
            started.times[7] < t < stopped.times.last() ==> !(#[trigger] history.performed[
                t
            ] is InsertMonitor) && !(history.performed[t] is RemoveMonitor)) ==> history.after(
            stopped.times.last(),
        ) == history.before(started.times[7]),
{
    let led = started.events.drop_last();
    lemma_start_has_more_than_one_action(started, history);
    assert(led[0] == started.events[0]);
    started_answer_names_registered_monitor(
        started.payload,
        started.turn,
        started.calls,
        started.actions,
        led,
        started.events.last(),
        output,
    );
    monitor_is_registered_as_asked(
        started.payload,
        started.turn,
        started.calls,
        started.actions,
        led,
        7,
    );
    lemma_course_of_stop(stopped, history, id);
    let entered = started.times[7];
    let looked_up = stopped.times[1];
    let ended = stopped.times[stopped.times.len() - 1];
    assert(looked_up <= ended);
    lemma_after(history, entered);
    lemma_stays_beside(history, id, entered, looked_up);
    lemma_stays_beside(history, id, entered, ended);
    lemma_after(history, ended);
    let others = replayed(
        history.before(entered),
        history.performed.subrange(entered + 1, ended),
    );
    assert(others.insert(id, history.after(entered)[id]).remove(id) =~= others);
    if forall|t: int|
        entered < t < ended ==> !(#[trigger] history.performed[t] is InsertMonitor) && !(
        history.performed[t] is RemoveMonitor) {
        let between = history.performed.subrange(entered + 1, ended);
        assert forall|i: int| 0 <= i < between.len() implies !(#[trigger] between[
            i
        ] is InsertMonitor) && !(between[i] is RemoveMonitor) by {
            assert(between[i] == history.performed[entered + 1 + i]);
        }
        lemma_replayed_unchanged(history.before(entered), between);
    }
}

/// A start that is answered took more than the parsing of its arguments.
proof fn lemma_start_has_more_than_one_action<H: Host>(call: WholeCall<H>, history: History<H>)
    requires
        call.took_place(history),
        call.asks_for(MonitorAction::Start),
        call.result is Ok,
    ensures
        call.calls.len() > 1,
{
}

/// Actions that neither enter nor remove a monitor leave the registry as it is.
proof fn lemma_replayed_unchanged<H: Host>(
    registry: Map<Seq<char>, Entry>,
    actions: Seq<Action<H>>,
)
    requires
        forall|i: int|
            0 <= i < actions.len() ==> !(#[trigger] actions[i] is InsertMonitor) && !(
            actions[i] is RemoveMonitor),
    ensures
        replayed(registry, actions) == registry,
    decreases actions.len(),
{
    if actions.len() > 0 {
        let shorter = actions.drop_last();
        assert forall|i: int| 0 <= i < shorter.len() implies !(#[trigger] shorter[
            i
        ] is InsertMonitor) && !(shorter[i] is RemoveMonitor) by {
            assert(shorter[i] == actions[i]);
        }
        lemma_replayed_unchanged(registry, shorter);
        assert(!(actions[actions.len() - 1] is InsertMonitor));
    }
}

} // verus!
