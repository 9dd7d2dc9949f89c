//! The texts that calls answer and fail with.

use crate::tool::MONITOR_TOOL_NAME;
use vstd::prelude::*;

verus! {

pub open spec fn unsupported_payload_text() -> Seq<char> {
    MONITOR_TOOL_NAME@ + " handler received unsupported payload"@
}

pub fn unsupported_payload() -> (out: String)
    ensures
        out@ == unsupported_payload_text(),
{
    let mut out = MONITOR_TOOL_NAME.to_owned();
    out.append(" handler received unsupported payload");
    out
}

pub open spec fn stopped_text(id: Seq<char>) -> Seq<char> {
    "Stopped monitor "@ + id + "."@
}

pub fn stopped(id: &str) -> (out: String)
    ensures
        out@ == stopped_text(id@),
{
    let mut out = "Stopped monitor ".to_owned();
    out.append(id);
    out.append(".");
    out
}

pub open spec fn removed_text(id: Seq<char>) -> Seq<char> {
    "Removed monitor "@ + id
        + "; its watcher process had already exited or could not be terminated."@
}

pub fn removed(id: &str) -> (out: String)
    ensures
        out@ == removed_text(id@),
{
    let mut out = "Removed monitor ".to_owned();
    out.append(id);
    out.append("; its watcher process had already exited or could not be terminated.");
    out
}

pub open spec fn no_active_monitor_text(id: Seq<char>) -> Seq<char> {
    "No active monitor with id "@ + id + "."@
}

pub fn no_active_monitor(id: &str) -> (out: String)
    ensures
        out@ == no_active_monitor_text(id@),
{
    let mut out = "No active monitor with id ".to_owned();
    out.append(id);
    out.append(".");
    out
}

pub open spec fn failed_to_start_text(error: Seq<char>) -> Seq<char> {
    "failed to start monitor: "@ + error
}

pub fn failed_to_start(error: &str) -> (out: String)
    ensures
        out@ == failed_to_start_text(error@),
{
    let mut out = "failed to start monitor: ".to_owned();
    out.append(error);
    out
}

pub open spec fn started_text(id: Seq<char>, description: Seq<char>) -> Seq<char> {
    "Started monitor "@ + id + ": watching \""@ + description
        + "\". Stop it with action=stop, id="@ + id + "."@
}

pub fn started(id: &str, description: &str) -> (out: String)
    ensures
        out@ == started_text(id@, description@),
{
    let mut out = "Started monitor ".to_owned();
    out.append(id);
    out.append(": watching \"");
    out.append(description);
    out.append("\". Stop it with action=stop, id=");
    out.append(id);
    out.append(".");
    out
}

/// The answer to a stop that terminated the process: it names the monitor, whatever its id.
pub proof fn stopped_answer_names_the_monitor(id: Seq<char>)
    ensures
        ({
            let text = stopped_text(id);
            &&& text.len() == 17int + id.len()
            &&& text.subrange(0int, 16int) == "Stopped monitor "@
            &&& text.subrange(16int, 16int + id.len()) == id
            &&& text.subrange(16int + id.len(), 17int + id.len()) == "."@
        }),
{
    reveal_strlit("Stopped monitor ");
    reveal_strlit(".");
    let text = stopped_text(id);
    assert(text.subrange(0int, 16int) =~= "Stopped monitor "@);
    assert(text.subrange(16int, 16int + id.len()) =~= id);
    assert(text.subrange(16int + id.len(), 17int + id.len()) =~= "."@);
}

/// The answer to a stop that could not terminate the process: it names the monitor, whatever its
/// id, and says that the process was not terminated.
pub proof fn removed_answer_tells_of_the_failure(id: Seq<char>)
    ensures
        ({
            let text = removed_text(id);
            &&& text.len() == 84int + id.len()
            &&& text.subrange(0int, 16int) == "Removed monitor "@
            &&& text.subrange(16int, 16int + id.len()) == id
            &&& text.subrange(16int + id.len(), 84int + id.len()) == "; its watcher process had already exited or could not be terminated."@
        }),
{
    reveal_strlit("Removed monitor ");
    reveal_strlit("; its watcher process had already exited or could not be terminated.");
    let text = removed_text(id);
    assert(text.subrange(0int, 16int) =~= "Removed monitor "@);
    assert(text.subrange(16int, 16int + id.len()) =~= id);
    assert(text.subrange(16int + id.len(), 84int + id.len()) =~= "; its watcher process had already exited or could not be terminated."@);
}

/// The answer to a stop that found no monitor: it names the id that was sought, whatever it is.
pub proof fn no_active_monitor_answer_names_the_id(id: Seq<char>)
    ensures
        ({
            let text = no_active_monitor_text(id);
            &&& text.len() == 27int + id.len()
            &&& text.subrange(0int, 26int) == "No active monitor with id "@
            &&& text.subrange(26int, 26int + id.len()) == id
            &&& text.subrange(26int + id.len(), 27int + id.len()) == "."@
        }),
{
    reveal_strlit("No active monitor with id ");
    reveal_strlit(".");
    let text = no_active_monitor_text(id);
    assert(text.subrange(0int, 26int) =~= "No active monitor with id "@);
    assert(text.subrange(26int, 26int + id.len()) =~= id);
    assert(text.subrange(26int + id.len(), 27int + id.len()) =~= "."@);
}

/// The failure of a start whose watcher could not be executed carries the host's error in full.
pub proof fn failure_carries_the_whole_error(error: Seq<char>)
    ensures
        ({
            let text = failed_to_start_text(error);
            &&& text.len() == 25int + error.len()
            &&& text.subrange(0int, 25int) == "failed to start monitor: "@
            &&& text.subrange(25int, 25int + error.len()) == error
        }),
{
    reveal_strlit("failed to start monitor: ");
    let text = failed_to_start_text(error);
    assert(text.subrange(0int, 25int) =~= "failed to start monitor: "@);
    assert(text.subrange(25int, 25int + error.len()) =~= error);
}

/// The answer to a start gives the id, the label in quotes, and the id again to stop it by, all in
/// full.
pub proof fn started_answer_gives_id_and_label(id: Seq<char>, description: Seq<char>)
    ensures
        ({
            let text = started_text(id, description);
            &&& text.len() == 61int + id.len() + description.len() + id.len()
            &&& text.subrange(0int, 16int) == "Started monitor "@
            &&& text.subrange(16int, 16int + id.len()) == id
            &&& text.subrange(16int + id.len(), 28int + id.len()) == ": watching \""@
            &&& text.subrange(28int + id.len(), 28int + id.len() + description.len()) == description
            &&& text.subrange(28int + id.len() + description.len(), 60int + id.len() + description.len()) == "\". Stop it with action=stop, id="@
            &&& text.subrange(60int + id.len() + description.len(), 60int + id.len() + description.len() + id.len()) == id
            &&& text.subrange(60int + id.len() + description.len() + id.len(), 61int + id.len() + description.len() + id.len()) == "."@
        }),
{
    reveal_strlit("Started monitor ");
    reveal_strlit(": watching \"");
    reveal_strlit("\". Stop it with action=stop, id=");
    reveal_strlit(".");
    let text = started_text(id, description);
    assert(text.subrange(0int, 16int) =~= "Started monitor "@);
    assert(text.subrange(16int, 16int + id.len()) =~= id);
    assert(text.subrange(16int + id.len(), 28int + id.len()) =~= ": watching \""@);
    assert(text.subrange(28int + id.len(), 28int + id.len() + description.len()) =~= description);
    assert(text.subrange(28int + id.len() + description.len(), 60int + id.len() + description.len()) =~= "\". Stop it with action=stop, id="@);
    assert(text.subrange(60int + id.len() + description.len(), 60int + id.len() + description.len() + id.len()) =~= id);
    assert(text.subrange(60int + id.len() + description.len() + id.len(), 61int + id.len() + description.len() + id.len()) =~= "."@);
}

/// What came of a stop can be told from its answer: no answer to a successful termination is
/// ever that to a failed one, or to a stop that found no monitor, whatever the ids.
pub proof fn outcomes_of_a_stop_are_told_apart(
    stopped_id: Seq<char>,
    removed_id: Seq<char>,
    unknown_id: Seq<char>,
)
    ensures
        stopped_text(stopped_id) != removed_text(removed_id),
        stopped_text(stopped_id) != no_active_monitor_text(unknown_id),
        removed_text(removed_id) != no_active_monitor_text(unknown_id),
{
    reveal_strlit("Stopped monitor ");
    reveal_strlit("Removed monitor ");
    reveal_strlit("No active monitor with id ");
    assert(stopped_text(stopped_id)[0] == 'S');
    assert(removed_text(removed_id)[0] == 'R');
    assert(no_active_monitor_text(unknown_id)[0] == 'N');
}

/// The refusal of an unsupported payload.
pub proof fn unsupported_payload_names_the_tool()
    ensures
        unsupported_payload_text() == "monitor handler received unsupported payload"@,
{
    reveal_strlit("monitor");
    reveal_strlit(" handler received unsupported payload");
    reveal_strlit("monitor handler received unsupported payload");
    assert(unsupported_payload_text() =~= "monitor handler received unsupported payload"@);
}

} // verus!
