//! The notification that carries a watcher's output to the model.
//!
//! A notification is shown between two markers. What stands between them was printed by a
//! watched command and is not to be trusted: it must not be able to end the notification
//! early, nor to look as if it opened another one.

use crate::description::{label, label_is_bounded, utf8_is_no_shorter};
use crate::text::{
    no_occurrence_across, occurs_at, occurs_in, opens_once, replace_all, replaced,
    replaced_leaves_none, replaced_length, replaced_passes_over, replaced_where_it_stands,
    replaced_without_occurrence,
};
use vstd::prelude::*;

verus! {

/// Opens a notification.
pub const START_MARKER: &'static str = "<monitor_notification>";

/// Closes a notification.
pub const END_MARKER: &'static str = "</monitor_notification>";

/// What an opening marker inside the text is turned into.
pub const NEUTRAL_START: &'static str = "< monitor_notification>";

/// What a closing marker inside the text is turned into.
pub const NEUTRAL_END: &'static str = "</ monitor_notification>";

/// `s` with its closing markers neutralized, and then its opening ones.
pub open spec fn sanitized(s: Seq<char>) -> Seq<char> {
    replaced(replaced(s, END_MARKER@, NEUTRAL_END@), START_MARKER@, NEUTRAL_START@)
}

/// What stands between the markers: the label in brackets, then the output, on lines of
/// their own, both sanitized.
pub open spec fn notification_body(description: Seq<char>, body: Seq<char>) -> Seq<char> {
    "\n["@ + sanitized(description) + "] "@ + sanitized(body) + "\n"@
}

/// `s` with every marker of a notification neutralized.
pub fn sanitize(s: &str) -> (out: String)
    ensures
        out@ == sanitized(s@),
{
    proof {
        reveal_strlit("<monitor_notification>");
        reveal_strlit("</monitor_notification>");
    }
    let ends = replace_all(s, END_MARKER, NEUTRAL_END);
    replace_all(ends.as_str(), START_MARKER, NEUTRAL_START)
}

/// A batch of output lines from a watcher, delivered as a contextual user fragment so that
/// it stays distinguishable from real user input.
#[derive(Debug, Clone, PartialEq)]
pub struct MonitorNotification {
    pub description: String,
    pub body: String,
}

impl MonitorNotification {
    pub fn new(description: &str, body: &str) -> (notification: Self)
        ensures
            notification.description@ == description@,
            notification.body@ == body@,
    {
        MonitorNotification { description: description.to_owned(), body: body.to_owned() }
    }

    /// The role that the fragment is sent under.
    pub fn role(&self) -> (role: &'static str)
        ensures
            role@ == "user"@,
    {
        "user"
    }

    /// The opening and the closing marker.
    pub fn markers(&self) -> (markers: (&'static str, &'static str))
        ensures
            markers.0@ == START_MARKER@,
            markers.1@ == END_MARKER@,
    {
        Self::type_markers()
    }

    /// The opening and the closing marker of every notification.
    pub fn type_markers() -> (markers: (&'static str, &'static str))
        ensures
            markers.0@ == START_MARKER@,
            markers.1@ == END_MARKER@,
    {
        (START_MARKER, END_MARKER)
    }

    /// What stands between the markers. Neither marker stands in it, whatever the label and
    /// the output hold.
    pub fn body(&self) -> (out: String)
        ensures
            out@ == notification_body(self.description@, self.body@),
            !occurs_in(out@, START_MARKER@),
            !occurs_in(out@, END_MARKER@),
    {
        let mut out = "\n[".to_owned();
        out.append(sanitize(self.description.as_str()).as_str());
        out.append("] ");
        out.append(sanitize(self.body.as_str()).as_str());
        out.append("\n");
        proof {
            body_holds_no_marker(self.description@, self.body@);
        }
        out
    }
}

/// The two markers, and what they are neutralized to, all open with the same character and
/// use it once.
proof fn lemma_marker_shape()
    ensures
        opens_once(START_MARKER@),
        opens_once(END_MARKER@),
        opens_once(NEUTRAL_START@),
        opens_once(NEUTRAL_END@),
        START_MARKER@[0] == '<',
        END_MARKER@[0] == '<',
        NEUTRAL_START@[0] == '<',
        NEUTRAL_END@[0] == '<',
        START_MARKER@.len() == 22,
        END_MARKER@.len() == 23,
        NEUTRAL_START@.len() == 23,
        NEUTRAL_END@.len() == 24,
        START_MARKER@[1] == 'm',
        END_MARKER@[1] == '/',
        END_MARKER@[2] == 'm',
        NEUTRAL_START@[1] == ' ',
        NEUTRAL_END@[1] == '/',
        NEUTRAL_END@[2] == ' ',
        forall|c: char|
            c == '\n' || c == '[' || c == ']' || c == ' ' ==> !START_MARKER@.contains(c)
                && !END_MARKER@.contains(c),
{
    reveal_strlit("<monitor_notification>");
    reveal_strlit("</monitor_notification>");
    reveal_strlit("< monitor_notification>");
    reveal_strlit("</ monitor_notification>");
}

/// However hostile the text, neither marker stands in it once it is sanitized.
pub proof fn sanitized_holds_no_marker(s: Seq<char>)
    ensures
        !occurs_in(sanitized(s), START_MARKER@),
        !occurs_in(sanitized(s), END_MARKER@),
{
    lemma_marker_shape();
    let ends = replaced(s, END_MARKER@, NEUTRAL_END@);
    replaced_leaves_none(s, END_MARKER@, NEUTRAL_END@, END_MARKER@, 2);
    replaced_leaves_none(ends, START_MARKER@, NEUTRAL_START@, END_MARKER@, 1);
    replaced_leaves_none(ends, START_MARKER@, NEUTRAL_START@, START_MARKER@, 1);
}

/// Text that holds no marker is delivered as it is.
pub proof fn sanitized_keeps_harmless_text(s: Seq<char>)
    requires
        !occurs_in(s, START_MARKER@),
        !occurs_in(s, END_MARKER@),
    ensures
        sanitized(s) == s,
{
    replaced_without_occurrence(s, END_MARKER@, NEUTRAL_END@);
    replaced_without_occurrence(s, START_MARKER@, NEUTRAL_START@);
}

/// Sanitizing twice is sanitizing once.
pub proof fn sanitized_twice(s: Seq<char>)
    ensures
        sanitized(sanitized(s)) == sanitized(s),
{
    sanitized_holds_no_marker(s);
    sanitized_keeps_harmless_text(sanitized(s));
}

/// Sanitized text is longer than the text by one character in eleven at the most.
pub proof fn sanitized_length(s: Seq<char>)
    ensures
        11 * sanitized(s).len() <= 12 * s.len(),
{
    lemma_marker_shape();
    let ends = replaced(s, END_MARKER@, NEUTRAL_END@);
    replaced_length(s, END_MARKER@, NEUTRAL_END@);
    assert(ends.len() * 23 <= s.len() * 24);
    replaced_length(ends, START_MARKER@, NEUTRAL_START@);
    assert(sanitized(s).len() * 22 <= ends.len() * 23);
}

/// The label adds little to a notification, however long the description was: with what
/// surrounds it, 284 characters at the most.
pub proof fn label_cannot_inflate_notification(description: Seq<char>, body: Seq<char>)
    ensures
        notification_body(label(description), body).len() <= sanitized(body).len() + 284,
{
    reveal_strlit("\n[");
    reveal_strlit("] ");
    reveal_strlit("\n");
    label_is_bounded(description);
    utf8_is_no_shorter(label(description));
    sanitized_length(label(description));
}

/// Neither marker stands in the body of a notification, whatever its label and output.
pub proof fn body_holds_no_marker(description: Seq<char>, body: Seq<char>)
    ensures
        !occurs_in(notification_body(description, body), START_MARKER@),
        !occurs_in(notification_body(description, body), END_MARKER@),
{
    sanitized_holds_no_marker(description);
    sanitized_holds_no_marker(body);
    lemma_body_without(description, body, START_MARKER@);
    lemma_body_without(description, body, END_MARKER@);
}

proof fn lemma_body_without(description: Seq<char>, body: Seq<char>, marker: Seq<char>)
    requires
        marker == START_MARKER@ || marker == END_MARKER@,
        !occurs_in(sanitized(description), marker),
        !occurs_in(sanitized(body), marker),
    ensures
        !occurs_in(notification_body(description, body), marker),
{
    reveal_strlit("\n[");
    reveal_strlit("] ");
    reveal_strlit("\n");
    lemma_marker_shape();
    let none = Seq::<char>::empty();
    assert(!occurs_in(none, marker));
    let label = sanitized(description);
    let output = sanitized(body);
    let after_output = output + seq!['\n'] + none;
    no_occurrence_across(output, '\n', none, marker);
    let after_space = none + seq![' '] + after_output;
    no_occurrence_across(none, ' ', after_output, marker);
    let after_label = label + seq![']'] + after_space;
    no_occurrence_across(label, ']', after_space, marker);
    let after_bracket = none + seq!['['] + after_label;
    no_occurrence_across(none, '[', after_label, marker);
    let all = none + seq!['\n'] + after_bracket;
    no_occurrence_across(none, '\n', after_bracket, marker);
    assert(all =~= notification_body(description, body));
}

/// A notification set between its markers opens once, at its beginning, and closes once, at
/// its end: nothing in the label or in the output can move that boundary.
pub proof fn boundary_stands_once(description: Seq<char>, body: Seq<char>, at: int)
    ensures
        ({
            let inner = notification_body(description, body);
            let shown = START_MARKER@ + inner + END_MARKER@;
            &&& occurs_at(shown, START_MARKER@, at) <==> at == 0
            &&& occurs_at(shown, END_MARKER@, at) <==> at == START_MARKER@.len() + inner.len()
        }),
{
    lemma_marker_shape();
    body_holds_no_marker(description, body);
    let inner = notification_body(description, body);
    lemma_boundary(inner, START_MARKER@, at);
    lemma_boundary(inner, END_MARKER@, at);
    let shown = START_MARKER@ + inner + END_MARKER@;
    assert(shown.subrange(0, START_MARKER@.len() as int) =~= START_MARKER@);
    let close = START_MARKER@.len() + inner.len() as int;
    assert(shown.subrange(close, close + END_MARKER@.len()) =~= END_MARKER@);
}

proof fn lemma_boundary(inner: Seq<char>, marker: Seq<char>, at: int)
    requires
        marker == START_MARKER@ || marker == END_MARKER@,
        !occurs_in(inner, marker),
    ensures
        occurs_at(START_MARKER@ + inner + END_MARKER@, marker, at) ==> at == (if marker
            == START_MARKER@ {
            0nat
        } else {
            START_MARKER@.len() + inner.len()
        }),
{
    lemma_marker_shape();
    let shown = START_MARKER@ + inner + END_MARKER@;
    let open = START_MARKER@.len() as int;
    let close = open + inner.len();
    if occurs_at(shown, marker, at) {
        let found = shown.subrange(at, at + marker.len());
        assert(found[0] == shown[at]);
        assert(found[1] == shown[at + 1]);
        if at < open {
            assert(shown[at] == START_MARKER@[at]);
            assert(shown[at + 1] == START_MARKER@[at + 1] || at > 0);
        } else if at < close {
            if at + marker.len() <= close {
                assert(inner.subrange(at - open, at - open + marker.len()) =~= found);
                assert(occurs_at(inner, marker, at - open));
            } else {
                assert(found[close - at] == shown[close]);
                assert(shown[close] == END_MARKER@[0]);
            }
        } else {
            assert(shown[at] == END_MARKER@[at - close]);
            assert(shown[at + 1] == END_MARKER@[at + 1 - close]);
        }
    }
}

/// A closing marker is turned into its neutral form where it stands, and what stands on its
/// two sides is sanitized apart, whatever it is.
pub proof fn closing_marker_is_neutralized_in_place(left: Seq<char>, right: Seq<char>)
    ensures
        sanitized(left + "</monitor_notification>"@ + right) == sanitized(left)
            + "</ monitor_notification>"@ + sanitized(right),
{
    lemma_marker_shape();
    replaced_where_it_stands(left, right, END_MARKER@, NEUTRAL_END@);
    replaced_passes_over(
        replaced(left, END_MARKER@, NEUTRAL_END@),
        NEUTRAL_END@,
        replaced(right, END_MARKER@, NEUTRAL_END@),
        START_MARKER@,
        NEUTRAL_START@,
        1,
    );
}

/// An opening marker is turned into its neutral form where it stands, and what stands on its
/// two sides is sanitized apart, whatever it is.
pub proof fn opening_marker_is_neutralized_in_place(left: Seq<char>, right: Seq<char>)
    ensures
        sanitized(left + "<monitor_notification>"@ + right) == sanitized(left)
            + "< monitor_notification>"@ + sanitized(right),
{
    lemma_marker_shape();
    replaced_passes_over(left, START_MARKER@, right, END_MARKER@, NEUTRAL_END@, 1);
    replaced_where_it_stands(
        replaced(left, END_MARKER@, NEUTRAL_END@),
        replaced(right, END_MARKER@, NEUTRAL_END@),
        START_MARKER@,
        NEUTRAL_START@,
    );
}

/// Text of which no stretch is a marker is kept, character for character. With the two laws on
/// the markers this says what becomes of every text.
pub proof fn text_between_markers_is_kept(s: Seq<char>)
    requires
        forall|i: int, j: int|
            0 <= i <= j <= s.len() ==> #[trigger] s.subrange(i, j) != "<monitor_notification>"@
                && s.subrange(i, j) != "</monitor_notification>"@,
    ensures
        sanitized(s) == s,
{
    sanitized_keeps_harmless_text(s);
}

/// The body of a notification is a line break, the label in brackets, a space, the output and
/// a line break: both in full, each sanitized for itself, with nothing before, between or
/// after them.
pub proof fn body_carries_label_and_output_in_full(description: Seq<char>, body: Seq<char>)
    ensures
        ({
            let shown = notification_body(description, body);
            let label = sanitized(description);
            let output = sanitized(body);
            &&& shown.len() == label.len() + output.len() + 5
            &&& shown[0] == '\n'
            &&& shown[1] == '['
            &&& shown.subrange(2, 2int + label.len()) == label
            &&& shown[2int + label.len()] == ']'
            &&& shown[3int + label.len()] == ' '
            &&& shown.subrange(4int + label.len(), 4int + label.len() + output.len()) == output
            &&& shown[4int + label.len() + output.len()] == '\n'
        }),
{
    reveal_strlit("\n[");
    reveal_strlit("] ");
    reveal_strlit("\n");
    let shown = notification_body(description, body);
    let label = sanitized(description);
    let output = sanitized(body);
    assert(shown.subrange(2, 2int + label.len()) =~= label);
    assert(shown.subrange(4int + label.len(), 4int + label.len() + output.len()) =~= output);
}

/// A label and an output that hold no marker are delivered as they are, however long.
pub proof fn harmless_notification_is_delivered_whole(description: Seq<char>, body: Seq<char>)
    requires
        forall|i: int, j: int|
            0 <= i <= j <= description.len() ==> #[trigger] description.subrange(i, j)
                != "<monitor_notification>"@ && description.subrange(i, j)
                != "</monitor_notification>"@,
        forall|i: int, j: int|
            0 <= i <= j <= body.len() ==> #[trigger] body.subrange(i, j)
                != "<monitor_notification>"@ && body.subrange(i, j) != "</monitor_notification>"@,
    ensures
        ({
            let shown = notification_body(description, body);
            &&& shown == seq!['\n', '['] + description + seq![']', ' '] + body + seq!['\n']
            &&& shown.len() == description.len() + body.len() + 5
            &&& shown.subrange(2, 2int + description.len()) == description
            &&& shown.subrange(
                4int + description.len(),
                4int + description.len() + body.len(),
            ) == body
        }),
{
    text_between_markers_is_kept(description);
    text_between_markers_is_kept(body);
    body_carries_label_and_output_in_full(description, body);
    assert(notification_body(description, body) =~= seq!['\n', '['] + description + seq![']', ' ']
        + body + seq!['\n']) by {
        reveal_strlit("\n[");
        reveal_strlit("] ");
        reveal_strlit("\n");
    }
}

} // verus!
