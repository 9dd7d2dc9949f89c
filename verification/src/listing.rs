//! The rows that `action=list` answers with.

use crate::description::{utf8_is_no_shorter, MAX_DESCRIPTION_BYTES};
use vstd::prelude::*;
use vstd::utf8::encode_utf8;

verus! {

/// What the registry tells of one active monitor.
#[derive(Debug, PartialEq, Eq)]
pub struct MonitorInfo {
    pub id: String,
    pub description: String,
    pub command: String,
}

/// What `std`'s `Debug` formatting of a string writes for the text `s`. It is a function of
/// the text alone.
pub uninterp spec fn debug_text(s: Seq<char>) -> Seq<char>;

/// The position of the first double quote in `s` from `at` on that no backslash escapes, or
/// the end of `s` where there is none.
pub open spec fn token_end(s: Seq<char>, at: int) -> int
    decreases s.len() + 1 - at,
{
    if at >= s.len() {
        s.len() as int
    } else if s[at] == '"' {
        at
    } else if s[at] == '\\' {
        token_end(s, at + 2)
    } else {
        token_end(s, at + 1)
    }
}

/// One token between two double quotes, all on one line: every double quote inside it is
/// escaped, and so the one that ends it is the first that is not.
pub open spec fn quoted_token(s: Seq<char>) -> bool {
    &&& s.len() >= 2
    &&& s[0] == '"'
    &&& s[s.len() - 1] == '"'
    &&& token_end(s, 1) == s.len() - 1
    &&& !s.contains('\n')
}

/// No other text is written as `s` is.
pub open spec fn written_alone(s: Seq<char>) -> bool {
    forall|other: Seq<char>| #[trigger] debug_text(other) == debug_text(s) ==> other == s
}

/// Calls `<str as std::fmt::Debug>::fmt` through `format!`. It writes the text as a string
/// literal: between double quotes, each character either as itself or as its literal escape,
/// such as `\n`, `\"`, `\\` or `\u{..}`. Claimed of it: what it writes depends on the text alone;
/// it is one quoted token on one line; two texts are never written alike; and no character is
/// written as more than ten, the length of the longest escape. Left unsaid is which characters
/// are escaped, and how.
#[verifier::external_body]
fn debug_quoted(s: &str) -> (out: String)
    ensures
        out@ == debug_text(s@),
        quoted_token(out@),
        forall|other: Seq<char>| #[trigger] debug_text(other) == out@ ==> other == s@,
        out@.len() <= 10 * s@.len() + 2,
{
    format!("{:?}", s)
}

/// One row of the list, for a monitor with the given id and with its label and its command
/// written as the two quoted texts.
pub open spec fn row_text(
    id: Seq<char>,
    quoted_description: Seq<char>,
    quoted_command: Seq<char>,
) -> Seq<char> {
    id + "  description="@ + quoted_description + "  command="@ + quoted_command
}

/// The row of one monitor. Label and command are debug-formatted, so that one that holds
/// newlines, brackets, or spacing stays a single quoted token.
pub open spec fn row(m: MonitorInfo) -> Seq<char> {
    row_text(m.id@, debug_text(m.description@), debug_text(m.command@))
}

/// The rows of all monitors, in order.
pub open spec fn rows(monitors: Seq<MonitorInfo>) -> Seq<Seq<char>> {
    monitors.map_values(|m: MonitorInfo| row(m))
}

/// The position of the first space in `s`, or the end of `s` where there is none.
pub open spec fn word_end(s: Seq<char>) -> int
    decreases s.len(),
{
    if s.len() == 0 || s[0] == ' ' {
        0
    } else {
        1 + word_end(s.drop_first())
    }
}

/// The quoted token that stands in `s` from `at` on.
pub open spec fn token_at(s: Seq<char>, at: int) -> Seq<char> {
    s.subrange(at, token_end(s, at + 1) + 1)
}

/// Where in a row the label stands: behind the first word and `  description=`.
pub open spec fn label_place(row: Seq<char>) -> int {
    word_end(row) + 14
}

/// Where in a row the command stands: behind the label and `  command=`.
pub open spec fn command_place(row: Seq<char>) -> int {
    label_place(row) + token_at(row, label_place(row)).len() + 10
}

/// The row of `m` can be read back: its first word is the id, and its two tokens are those of
/// the label and of the command and of no other texts, whatever they hold.
pub open spec fn reads_back(m: MonitorInfo) -> bool {
    &&& row(m).take(word_end(row(m))) == m.id@
    &&& token_at(row(m), label_place(row(m))) == debug_text(m.description@)
    &&& token_at(row(m), command_place(row(m))) == debug_text(m.command@)
    &&& command_place(row(m)) + debug_text(m.command@).len() == row(m).len()
    &&& written_alone(m.description@)
    &&& written_alone(m.command@)
}

/// What is promised of the row of one monitor: it is a single line where the id is, it can be
/// read back where the id is a single word, and a short label adds little to it.
pub open spec fn dependable_row(m: MonitorInfo) -> bool {
    &&& !m.id@.contains('\n') ==> !row(m).contains('\n')
    &&& !m.id@.contains(' ') ==> reads_back(m)
    &&& encode_utf8(m.description@).len() <= MAX_DESCRIPTION_BYTES ==> row(m).len()
        <= m.id@.len() + debug_text(m.command@).len() + 2586
}

/// What is promised of `text` as the answer that lists `monitors`: each row is dependable, and
/// where no id holds a line break the lines of the answer are the rows.
pub open spec fn dependable_list(text: Seq<char>, monitors: Seq<MonitorInfo>) -> bool {
    &&& forall|i: int| 0 <= i < monitors.len() ==> dependable_row(#[trigger] monitors[i])
    &&& monitors.len() > 0 && (forall|i: int|
        0 <= i < monitors.len() ==> !(#[trigger] monitors[i]).id@.contains('\n')) ==> lines(text)
        == rows(monitors)
}

/// The texts one after the other, with a line break between each two.
pub open spec fn joined_lines(texts: Seq<Seq<char>>) -> Seq<char>
    decreases texts.len(),
{
    if texts.len() == 0 {
        Seq::empty()
    } else if texts.len() == 1 {
        texts[0]
    } else {
        joined_lines(texts.drop_last()) + "\n"@ + texts.last()
    }
}

/// The lines of `s`: what stands before, between and after its line breaks.
pub open spec fn lines(s: Seq<char>) -> Seq<Seq<char>>
    decreases s.len(),
{
    if s.len() == 0 {
        seq![Seq::empty()]
    } else if s.last() == '\n' {
        lines(s.drop_last()).push(Seq::empty())
    } else {
        let before = lines(s.drop_last());
        before.drop_last().push(before.last().push(s.last()))
    }
}

/// The answer to `action=list`, given the rows.
pub open spec fn list_of_rows(rows: Seq<Seq<char>>) -> Seq<char> {
    if rows.len() == 0 {
        "No active monitors."@
    } else {
        joined_lines(rows)
    }
}

/// The answer to `action=list`.
pub open spec fn list_text(monitors: Seq<MonitorInfo>) -> Seq<char> {
    list_of_rows(rows(monitors))
}

/// The texts that the strings hold.
pub open spec fn texts(strings: Seq<String>) -> Seq<Seq<char>> {
    strings.map_values(|s: String| s@)
}

/// Writes one row of the list.
pub fn format_row(id: &str, quoted_description: &str, quoted_command: &str) -> (out: String)
    ensures
        out@ == row_text(id@, quoted_description@, quoted_command@),
{
    let mut out = id.to_owned();
    out.append("  description=");
    out.append(quoted_description);
    out.append("  command=");
    out.append(quoted_command);
    out
}

/// The row of one monitor.
pub fn monitor_row(m: &MonitorInfo) -> (out: String)
    ensures
        out@ == row(*m),
        dependable_row(*m),
{
    let description = debug_quoted(m.description.as_str());
    let command = debug_quoted(m.command.as_str());
    proof {
        reveal_strlit("  description=");
        reveal_strlit("  command=");
        utf8_is_no_shorter(m.description@);
        if !m.id@.contains(' ') {
            row_reads_back(m.id@, description@, command@);
        }
    }
    format_row(m.id.as_str(), description.as_str(), command.as_str())
}

/// A row made of a single word and two quoted tokens can be taken apart again, whatever the
/// tokens hold.
pub proof fn row_reads_back(
    id: Seq<char>,
    quoted_description: Seq<char>,
    quoted_command: Seq<char>,
)
    requires
        !id.contains(' '),
        quoted_token(quoted_description),
        quoted_token(quoted_command),
    ensures
        ({
            let row = row_text(id, quoted_description, quoted_command);
            &&& row.take(word_end(row)) == id
            &&& token_at(row, label_place(row)) == quoted_description
            &&& token_at(row, command_place(row)) == quoted_command
            &&& command_place(row) + quoted_command.len() == row.len()
        }),
{
    reveal_strlit("  description=");
    reveal_strlit("  command=");
    let row = row_text(id, quoted_description, quoted_command);
    let after_id = "  description="@ + quoted_description + "  command="@ + quoted_command;
    let after_label = "  command="@ + quoted_command;
    assert(row =~= id + after_id);
    lemma_word_end(id, after_id);
    assert(row.take(word_end(row)) =~= id);
    assert(row =~= (id + "  description="@) + quoted_description + after_label);
    lemma_token_at(id + "  description="@, quoted_description, after_label);
    let before_command = id + "  description="@ + quoted_description + "  command="@;
    assert(row =~= before_command + quoted_command + Seq::<char>::empty());
    lemma_token_at(before_command, quoted_command, Seq::empty());
}

/// A word without spaces ends where a space follows it.
proof fn lemma_word_end(word: Seq<char>, after: Seq<char>)
    requires
        !word.contains(' '),
        after.len() > 0,
        after[0] == ' ',
    ensures
        word_end(word + after) == word.len(),
    decreases word.len(),
{
    if word.len() == 0 {
        assert(word + after =~= after);
    } else {
        let rest = word.drop_first();
        assert(word.contains(word[0]));
        assert(!rest.contains(' ')) by {
            if rest.contains(' ') {
                let i = choose|i: int| 0 <= i < rest.len() && rest[i] == ' ';
                assert(word[i + 1] == ' ');
            }
        }
        lemma_word_end(rest, after);
        assert((word + after).drop_first() =~= rest + after);
    }
}

/// A quoted token is found again between any two texts.
proof fn lemma_token_at(before: Seq<char>, token: Seq<char>, after: Seq<char>)
    requires
        quoted_token(token),
    ensures
        token_at(before + token + after, before.len() as int) == token,
{
    lemma_token_end(before, token, after, 1);
    assert((before + token + after).subrange(
        before.len() as int,
        (before.len() + token.len()) as int,
    ) =~= token);
}

/// Where a token ends does not depend on what stands before and after it.
proof fn lemma_token_end(before: Seq<char>, token: Seq<char>, after: Seq<char>, at: int)
    requires
        0 <= at,
        token_end(token, at) < token.len(),
    ensures
        token_end(before + token + after, before.len() + at) == before.len() + token_end(token, at),
    decreases token.len() + 1 - at,
{
    let all = before + token + after;
    if at < token.len() {
        assert(all[before.len() + at] == token[at]);
        if token[at] == '"' {
        } else if token[at] == '\\' {
            lemma_token_end(before, token, after, at + 2);
        } else {
            lemma_token_end(before, token, after, at + 1);
        }
    }
}

/// Writes the answer to `action=list`, given the rows.
pub fn format_list(rows: &Vec<String>) -> (out: String)
    ensures
        out@ == list_of_rows(texts(rows@)),
{
    if rows.len() == 0 {
        return "No active monitors.".to_owned();
    }
    let mut out = rows[0].clone();
    let mut i: usize = 1;
    assert(texts(rows@).take(1) =~= seq![rows@[0]@]);
    while i < rows.len()
        invariant
            1 <= i <= rows.len(),
            out@ == joined_lines(texts(rows@).take(i as int)),
        decreases rows.len() - i,
    {
        out.append("\n");
        out.append(rows[i].as_str());
        assert(texts(rows@).take(i + 1).drop_last() =~= texts(rows@).take(i as int));
        i += 1;
    }
    assert(texts(rows@).take(i as int) =~= texts(rows@));
    out
}

/// The answer to `action=list`: one row for each monitor.
pub fn list_message(monitors: &Vec<MonitorInfo>) -> (out: String)
    ensures
        out@ == list_text(monitors@),
        dependable_list(out@, monitors@),
        monitors.len() > 0 && (forall|i: int|
            0 <= i < monitors.len() ==> !(#[trigger] monitors@[i]).id@.contains('\n')) ==> {
            &&& lines(out@).len() == monitors.len()
            &&& forall|i: int|
                0 <= i < monitors.len() ==> #[trigger] lines(out@)[i] == monitors@[i].id@
                    + "  description="@ + debug_text(monitors@[i].description@) + "  command="@
                    + debug_text(monitors@[i].command@)
        },
{
    let mut written: Vec<String> = Vec::new();
    let mut i: usize = 0;
    while i < monitors.len()
        invariant
            i <= monitors.len(),
            texts(written@) =~= rows(monitors@).take(i as int),
            forall|j: int| 0 <= j < i ==> dependable_row(#[trigger] monitors@[j]),
        decreases monitors.len() - i,
    {
        let next = monitor_row(&monitors[i]);
        let ghost before = written@;
        written.push(next);
        assert(texts(written@) =~= texts(before).push(next@));
        assert(rows(monitors@).take(i + 1) =~= rows(monitors@).take(i as int).push(next@));
        i += 1;
    }
    assert(rows(monitors@).take(i as int) =~= rows(monitors@));
    proof {
        if monitors.len() > 0 && (forall|j: int|
            0 <= j < monitors.len() ==> !(#[trigger] monitors@[j]).id@.contains('\n')) {
            assert forall|j: int| 0 <= j < rows(monitors@).len() implies !(#[trigger] rows(
                monitors@,
            )[j]).contains('\n') by {
                assert(dependable_row(monitors@[j]));
            }
            lines_of_joined(rows(monitors@));
        }
    }
    format_list(&written)
}

/// A text without line breaks has none without its last character either.
proof fn lemma_shorter_without_line_break(text: Seq<char>)
    requires
        text.len() > 0,
        !text.contains('\n'),
    ensures
        text.last() != '\n',
        !text.drop_last().contains('\n'),
{
    let shorter = text.drop_last();
    assert(text.contains(text.last()));
    if shorter.contains('\n') {
        let i = choose|i: int| 0 <= i < shorter.len() && shorter[i] == '\n';
        assert(text[i] == '\n');
    }
}

/// A text without line breaks, put on a line of its own after another text, is the last
/// line of the two.
proof fn lemma_lines_of_appended(before: Seq<char>, text: Seq<char>)
    requires
        !text.contains('\n'),
    ensures
        lines(before + seq!['\n'] + text) == lines(before).push(text),
    decreases text.len(),
{
    let all = before + seq!['\n'] + text;
    if text.len() == 0 {
        assert(all.drop_last() =~= before);
        assert(text =~= Seq::<char>::empty());
    } else {
        let shorter = text.drop_last();
        lemma_shorter_without_line_break(text);
        lemma_lines_of_appended(before, shorter);
        assert(all.drop_last() =~= before + seq!['\n'] + shorter);
        assert(shorter.push(text.last()) =~= text);
        assert(lines(before).push(shorter).drop_last() =~= lines(before));
    }
}

/// A text without line breaks is its own only line.
proof fn lemma_lines_of_single(text: Seq<char>)
    requires
        !text.contains('\n'),
    ensures
        lines(text) == seq![text],
    decreases text.len(),
{
    if text.len() == 0 {
        assert(text =~= Seq::<char>::empty());
    } else {
        let shorter = text.drop_last();
        lemma_shorter_without_line_break(text);
        lemma_lines_of_single(shorter);
        assert(shorter.push(text.last()) =~= text);
        assert(seq![shorter].drop_last().push(text) =~= seq![text]);
    }
}

/// Texts without line breaks, joined by line breaks, are the lines of what they make.
pub proof fn lines_of_joined(texts: Seq<Seq<char>>)
    requires
        texts.len() > 0,
        forall|i: int| 0 <= i < texts.len() ==> !(#[trigger] texts[i]).contains('\n'),
    ensures
        lines(joined_lines(texts)) == texts,
    decreases texts.len(),
{
    reveal_strlit("\n");
    assert("\n"@ =~= seq!['\n']);
    if texts.len() == 1 {
        lemma_lines_of_single(texts[0]);
        assert(seq![texts[0]] =~= texts);
    } else {
        lines_of_joined(texts.drop_last());
        lemma_lines_of_appended(joined_lines(texts.drop_last()), texts.last());
        assert(texts.drop_last().push(texts.last()) =~= texts);
    }
}

/// A row is the id, the label and the command of its monitor, each in full and in this order.
pub proof fn row_tells_id_label_and_command(m: MonitorInfo)
    ensures
        row(m) == m.id@ + "  description="@ + debug_text(m.description@) + "  command="@ + debug_text(
            m.command@,
        ),
{
}

/// A row holds its three parts in full and in order, the second behind `  description=` and the
/// third behind `  command=`, with nothing else before, between or after them.
pub proof fn row_holds_its_parts_in_full(
    id: Seq<char>,
    quoted_description: Seq<char>,
    quoted_command: Seq<char>,
)
    ensures
        ({
            let row = row_text(id, quoted_description, quoted_command);
            let label_at = id.len() + 14int;
            let command_at = label_at + quoted_description.len() + 10;
            &&& row.len() == command_at + quoted_command.len()
            &&& row.take(id.len() as int) == id
            &&& row.subrange(id.len() as int, label_at) == "  description="@
            &&& row.subrange(label_at, command_at - 10) == quoted_description
            &&& row.subrange(command_at - 10, command_at) == "  command="@
            &&& row.skip(command_at) == quoted_command
        }),
{
    reveal_strlit("  description=");
    reveal_strlit("  command=");
}

/// The list grows by one row with each monitor: nothing is left out, whatever the number of
/// monitors, and nothing that stood in it changes.
pub proof fn list_grows_by_one_row(monitors: Seq<MonitorInfo>, m: MonitorInfo)
    ensures
        list_text(Seq::empty()) == "No active monitors."@,
        list_text(seq![m]) == m.id@ + "  description="@ + debug_text(m.description@)
            + "  command="@ + debug_text(m.command@),
        monitors.len() > 0 ==> list_text(monitors.push(m)) == list_text(monitors) + seq!['\n']
            + (m.id@ + "  description="@ + debug_text(m.description@) + "  command="@ + debug_text(
            m.command@,
        )),
{
    rows_are_joined_one_by_one(rows(monitors), row(m));
    row_tells_id_label_and_command(m);
    assert(rows(Seq::empty()) =~= Seq::empty());
    assert(rows(seq![m]) =~= seq![row(m)]);
    assert(rows(monitors.push(m)) =~= rows(monitors).push(row(m)));
}

/// Rows are joined one by one: a first row stands as it is, and each further row follows what
/// stands before it on a line of its own.
pub proof fn rows_are_joined_one_by_one(rows: Seq<Seq<char>>, next: Seq<char>)
    ensures
        list_of_rows(Seq::empty()) == "No active monitors."@,
        list_of_rows(seq![next]) == next,
        rows.len() > 0 ==> list_of_rows(rows.push(next)) == list_of_rows(rows) + seq!['\n'] + next,
{
    reveal_strlit("\n");
    assert("\n"@ =~= seq!['\n']);
    assert(rows.push(next).drop_last() =~= rows);
}

/// The strings of rows are read in full, one text for each.
pub proof fn texts_are_those_of_the_strings(strings: Seq<String>)
    ensures
        texts(strings).len() == strings.len(),
        forall|i: int| 0 <= i < strings.len() ==> #[trigger] texts(strings)[i] == strings[i]@,
{
}

/// The lines of a text are what its line breaks part: a text without one is a single line, and
/// what follows a line break, and holds none, is one line more.
pub proof fn lines_are_parted_by_line_breaks(before: Seq<char>, text: Seq<char>)
    requires
        !text.contains('\n'),
    ensures
        lines(text) == seq![text],
        lines(before + seq!['\n'] + text) == lines(before).push(text),
{
    lemma_lines_of_single(text);
    lemma_lines_of_appended(before, text);
}

/// Where no row holds a line break, the list has one line for each monitor, and the line of each
/// is its id, its label and its command.
pub proof fn every_monitor_has_its_line(monitors: Seq<MonitorInfo>)
    ensures
        monitors.len() > 0 && (forall|i: int|
            0 <= i < monitors.len() ==> !({
                let m = #[trigger] monitors[i];
                m.id@ + "  description="@ + debug_text(m.description@) + "  command="@
                    + debug_text(m.command@)
            }).contains('\n')) ==> {
            &&& lines(list_text(monitors)).len() == monitors.len()
            &&& forall|i: int|
                0 <= i < monitors.len() ==> #[trigger] lines(list_text(monitors))[i]
                    == monitors[i].id@ + "  description="@ + debug_text(monitors[i].description@)
                    + "  command="@ + debug_text(monitors[i].command@)
        },
{
    if monitors.len() > 0 && (forall|i: int|
        0 <= i < monitors.len() ==> !({
            let m = #[trigger] monitors[i];
            m.id@ + "  description="@ + debug_text(m.description@) + "  command="@
                + debug_text(m.command@)
        }).contains('\n')) {
        assert forall|i: int| 0 <= i < rows(monitors).len() implies !(#[trigger] rows(
            monitors,
        )[i]).contains('\n') by {
            let m = monitors[i];
        }
        lines_of_joined(rows(monitors));
    }
}

} // verus!
