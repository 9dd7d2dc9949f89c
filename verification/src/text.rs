//! Text as sequences of characters: blankness, occurrence, substitution.

use vstd::prelude::*;

verus! {

/// `String::push` appends one character: the string afterwards holds what it held before, then `ch`.
pub assume_specification[ String::push ](s: &mut String, ch: char)
    ensures
        final(s)@ == old(s)@.push(ch),
;

/// The characters with the Unicode property `White_Space`.
pub open spec fn is_white_space(c: char) -> bool {
    ||| '\u{9}' <= c <= '\u{d}'
    ||| c == ' '
    ||| c == '\u{85}'
    ||| c == '\u{a0}'
    ||| c == '\u{1680}'
    ||| '\u{2000}' <= c <= '\u{200a}'
    ||| c == '\u{2028}'
    ||| c == '\u{2029}'
    ||| c == '\u{202f}'
    ||| c == '\u{205f}'
    ||| c == '\u{3000}'
}

/// Nothing but white space: trimming `s` leaves the empty text.
pub open spec fn blank(s: Seq<char>) -> bool {
    forall|i: int| 0 <= i < s.len() ==> is_white_space(#[trigger] s[i])
}

/// `pattern` stands in `s` from position `at` on.
pub open spec fn occurs_at(s: Seq<char>, pattern: Seq<char>, at: int) -> bool {
    &&& 0 <= at
    &&& at + pattern.len() <= s.len()
    &&& s.subrange(at, at + pattern.len()) == pattern
}

/// `pattern` stands somewhere in `s`.
pub open spec fn occurs_in(s: Seq<char>, pattern: Seq<char>) -> bool {
    exists|at: int| occurs_at(s, pattern, at)
}

/// `s` with each occurrence of `from`, found from left to right without overlap, turned
/// into `to`. An empty `from` is left out of account: `s` stays as it is.
pub open spec fn replaced(s: Seq<char>, from: Seq<char>, to: Seq<char>) -> Seq<char>
    decreases s.len(),
{
    if from.len() == 0 || s.len() < from.len() {
        s
    } else if s.take(from.len() as int) == from {
        to + replaced(s.skip(from.len() as int), from, to)
    } else {
        seq![s[0]] + replaced(s.skip(1), from, to)
    }
}

/// Whether `c` has the Unicode property `White_Space`.
fn char_is_white_space(c: char) -> (yes: bool)
    ensures
        yes == is_white_space(c),
{
    ('\u{9}' <= c && c <= '\u{d}') || c == ' ' || c == '\u{85}' || c == '\u{a0}' || c == '\u{1680}'
        || ('\u{2000}' <= c && c <= '\u{200a}') || c == '\u{2028}' || c == '\u{2029}' || c
        == '\u{202f}' || c == '\u{205f}' || c == '\u{3000}'
}

/// The characters of `s`, in order.
fn chars_of(s: &str) -> (chars: Vec<char>)
    ensures
        chars@ == s@,
{
    let mut chars: Vec<char> = Vec::new();
    for c in it: s.chars()
        invariant
            it.seq() == s@,
            chars@ == s@.take(it.index() as int),
    {
        chars.push(c);
    }
    chars
}

/// Whether `s` is empty or holds white space only.
pub fn is_blank(s: &str) -> (yes: bool)
    ensures
        yes == blank(s@),
{
    let chars = chars_of(s);
    let mut i: usize = 0;
    while i < chars.len()
        invariant
            i <= chars.len(),
            chars@ == s@,
            forall|j: int| 0 <= j < i ==> is_white_space(#[trigger] chars@[j]),
        decreases chars.len() - i,
    {
        if !char_is_white_space(chars[i]) {
            assert(!is_white_space(s@[i as int]));
            return false;
        }
        i += 1;
    }
    true
}

/// Whether `pattern` stands in `s` from position `at` on.
fn stands_at(s: &Vec<char>, pattern: &Vec<char>, at: usize) -> (yes: bool)
    requires
        at <= s.len(),
    ensures
        yes == occurs_at(s@, pattern@, at as int),
{
    if s.len() - at < pattern.len() {
        return false;
    }
    let mut i: usize = 0;
    while i < pattern.len()
        invariant
            i <= pattern.len(),
            at + pattern.len() <= s.len(),
            forall|j: int| 0 <= j < i ==> s@[at + j] == #[trigger] pattern@[j],
        decreases pattern.len() - i,
    {
        if s[at + i] != pattern[i] {
            assert(s@.subrange(at as int, at + pattern@.len())[i as int] != pattern@[i as int]);
            return false;
        }
        i += 1;
    }
    assert(s@.subrange(at as int, at + pattern@.len()) =~= pattern@);
    true
}

/// `s` with each occurrence of `from` turned into `to`.
pub(crate) fn replace_all(s: &str, from: &str, to: &str) -> (out: String)
    requires
        from@.len() > 0,
    ensures
        out@ == replaced(s@, from@, to@),
{
    let chars = chars_of(s);
    let pattern = chars_of(from);
    let mut out = String::new();
    let mut i: usize = 0;
    assert(s@.skip(0) =~= s@);
    while i < chars.len()
        invariant
            i <= chars.len(),
            chars@ == s@,
            pattern@ == from@,
            pattern@.len() > 0,
            out@ + replaced(s@.skip(i as int), from@, to@) == replaced(s@, from@, to@),
        decreases chars.len() - i,
    {
        let ghost rest = s@.skip(i as int);
        let ghost done = out@;
        if stands_at(&chars, &pattern, i) {
            assert(rest.take(from@.len() as int) =~= s@.subrange(i as int, i + from@.len()));
            out.append(to);
            i += pattern.len();
            assert(rest.skip(from@.len() as int) =~= s@.skip(i as int));
        } else {
            assert(rest.len() >= from@.len() ==> rest.take(from@.len() as int)
                == s@.subrange(i as int, i + from@.len()));
            out.push(chars[i]);
            i += 1;
            assert(rest.skip(1) =~= s@.skip(i as int));
            assert(seq![rest[0]] + rest.skip(1) =~= rest);
            assert(replaced(rest, from@, to@) =~= seq![rest[0]] + replaced(
                rest.skip(1),
                from@,
                to@,
            ));
        }
        assert(out@ + replaced(s@.skip(i as int), from@, to@) =~= done + replaced(rest, from@, to@));
    }
    assert(out@ + s@.skip(i as int) =~= out@);
    out
}

/// Text in which `pattern` does not stand is not changed by replacing it.
pub proof fn replaced_without_occurrence(s: Seq<char>, pattern: Seq<char>, to: Seq<char>)
    requires
        !occurs_in(s, pattern),
    ensures
        replaced(s, pattern, to) == s,
    decreases s.len(),
{
    if pattern.len() != 0 && s.len() >= pattern.len() {
        if s.take(pattern.len() as int) == pattern {
            assert(s.subrange(0, pattern.len() as int) =~= s.take(pattern.len() as int));
            assert(occurs_at(s, pattern, 0));
        }
        lemma_tail_without_occurrence(s, 1, pattern);
        replaced_without_occurrence(s.skip(1), pattern, to);
        assert(seq![s[0]] + s.skip(1) =~= s);
    }
}

/// What does not stand in `s` does not stand in an end of `s` either.
proof fn lemma_tail_without_occurrence(s: Seq<char>, n: int, pattern: Seq<char>)
    requires
        0 <= n <= s.len(),
        !occurs_in(s, pattern),
    ensures
        !occurs_in(s.skip(n), pattern),
{
    if occurs_in(s.skip(n), pattern) {
        let at = choose|at: int| occurs_at(s.skip(n), pattern, at);
        assert(s.subrange(n + at, n + at + pattern.len()) =~= s.skip(n).subrange(
            at,
            at + pattern.len(),
        ));
        assert(occurs_at(s, pattern, n + at));
    }
}

/// A `pattern` that opens with a character it does not use again.
pub open spec fn opens_once(pattern: Seq<char>) -> bool {
    &&& pattern.len() > 0
    &&& forall|i: int| 1 <= i < pattern.len() ==> #[trigger] pattern[i] != pattern[0]
}

/// Where a replacement left the first `n` characters free of the opening character of
/// `to`, it left them as they were.
proof fn lemma_kept_prefix(s: Seq<char>, from: Seq<char>, to: Seq<char>, n: int)
    requires
        to.len() > 0,
        0 <= n <= replaced(s, from, to).len(),
        forall|i: int| 0 <= i < n ==> #[trigger] replaced(s, from, to)[i] != to[0],
    ensures
        n <= s.len(),
        s.take(n) == replaced(s, from, to).take(n),
    decreases s.len(),
{
    let out = replaced(s, from, to);
    if n == 0 {
        assert(s.take(0) =~= out.take(0));
    } else if from.len() == 0 || s.len() < from.len() {
    } else if s.take(from.len() as int) == from {
        assert(out[0] == to[0]);
    } else {
        let rest = replaced(s.skip(1), from, to);
        assert forall|i: int| 0 <= i < n - 1 implies #[trigger] rest[i] != to[0] by {
            assert(out[i + 1] == rest[i]);
        }
        lemma_kept_prefix(s.skip(1), from, to, n - 1);
        assert(s.take(n) =~= seq![s[0]] + s.skip(1).take(n - 1));
        assert(out.take(n) =~= seq![s[0]] + rest.take(n - 1));
    }
}

/// Replacing `from` by `to` leaves no `pattern` behind, where `pattern` is `from` itself
/// or did not stand in `s`, provided that `to` and `pattern` open with the same character,
/// use it once, and part at a position `k` before either ends.
pub proof fn replaced_leaves_none(
    s: Seq<char>,
    from: Seq<char>,
    to: Seq<char>,
    pattern: Seq<char>,
    k: int,
)
    requires
        from.len() > 0,
        opens_once(to),
        opens_once(pattern),
        to[0] == pattern[0],
        0 <= k < to.len(),
        k < pattern.len(),
        to[k] != pattern[k],
        pattern == from || !occurs_in(s, pattern),
    ensures
        !occurs_in(replaced(s, from, to), pattern),
    decreases s.len(),
{
    let out = replaced(s, from, to);
    let m = from.len() as int;
    if occurs_in(out, pattern) {
        let at = choose|at: int| occurs_at(out, pattern, at);
        let found = out.subrange(at, at + pattern.len());
        assert forall|i: int| 0 <= i < pattern.len() implies out[at + i] == #[trigger] pattern[i] by {
            assert(found[i] == out[at + i]);
        }
        assert(out[at + 0] == pattern[0]);
        assert(out[at + k] == pattern[k]);
        if s.len() < m {
            assert(occurs_at(s, pattern, at));
        } else if s.take(m) == from {
            let rest = replaced(s.skip(m), from, to);
            if at < to.len() {
                assert(out[at] == to[at]);
                assert(out[at + k] == to[k]);
            } else {
                assert(rest.subrange(at - to.len(), at - to.len() + pattern.len()) =~= found);
                assert(occurs_at(rest, pattern, at - to.len()));
                if pattern != from {
                    lemma_tail_without_occurrence(s, m, pattern);
                }
                replaced_leaves_none(s.skip(m), from, to, pattern, k);
            }
        } else {
            let rest = replaced(s.skip(1), from, to);
            if at == 0 {
                let n = pattern.len() - 1;
                assert forall|i: int| 0 <= i < n implies #[trigger] rest[i] != to[0] by {
                    assert(out[i + 1] == rest[i]);
                    assert(out[at + (i + 1)] == pattern[i + 1]);
                }
                lemma_kept_prefix(s.skip(1), from, to, n);
                assert(s.take(n + 1) =~= seq![s[0]] + s.skip(1).take(n));
                assert(out.take(n + 1) =~= seq![s[0]] + rest.take(n));
                assert(found =~= out.take(n + 1));
                assert(s.subrange(0, pattern.len() as int) =~= s.take(n + 1));
                assert(occurs_at(s, pattern, 0));
            } else {
                assert(rest.subrange(at - 1, at - 1 + pattern.len()) =~= found);
                assert(occurs_at(rest, pattern, at - 1));
                if pattern != from {
                    lemma_tail_without_occurrence(s, 1, pattern);
                }
                replaced_leaves_none(s.skip(1), from, to, pattern, k);
            }
        }
    }
}

/// A `pattern` without the character `c` that stands in neither of two texts does not
/// stand in the two joined by `c`.
pub proof fn no_occurrence_across(
    left: Seq<char>,
    c: char,
    right: Seq<char>,
    pattern: Seq<char>,
)
    requires
        !pattern.contains(c),
        !occurs_in(left, pattern),
        !occurs_in(right, pattern),
    ensures
        !occurs_in(left + seq![c] + right, pattern),
{
    let all = left + seq![c] + right;
    if occurs_in(all, pattern) {
        let at = choose|at: int| occurs_at(all, pattern, at);
        let found = all.subrange(at, at + pattern.len());
        if at + pattern.len() <= left.len() {
            assert(left.subrange(at, at + pattern.len()) =~= found);
            assert(occurs_at(left, pattern, at));
        } else if at <= left.len() {
            assert(found[left.len() - at] == c);
            assert(pattern.contains(c));
        } else {
            let shifted = at - left.len() - 1;
            assert(right.subrange(shifted, shifted + pattern.len()) =~= found);
            assert(occurs_at(right, pattern, shifted));
        }
    }
}

/// Replacing a pattern by a text one character longer lengthens the whole by no more than one
/// character for each length of the pattern.
pub proof fn replaced_length(s: Seq<char>, from: Seq<char>, to: Seq<char>)
    requires
        from.len() > 0,
        to.len() == from.len() + 1,
    ensures
        replaced(s, from, to).len() * from.len() <= s.len() * to.len(),
    decreases s.len(),
{
    let m = from.len() as int;
    if s.len() < m {
        let n = s.len() as int;
        assert(n * m <= n * (m + 1)) by (nonlinear_arith)
            requires
                0 <= n,
                0 < m,
        ;
    } else if s.take(m) == from {
        let rest = s.skip(m);
        replaced_length(rest, from, to);
        let n = rest.len() as int;
        let out = replaced(rest, from, to).len() as int;
        assert((m + 1 + out) * m <= (m + n) * (m + 1)) by (nonlinear_arith)
            requires
                out * m <= n * (m + 1),
        ;
    } else {
        let rest = s.skip(1);
        replaced_length(rest, from, to);
        let n = rest.len() as int;
        let out = replaced(rest, from, to).len() as int;
        assert((1 + out) * m <= (1 + n) * (m + 1)) by (nonlinear_arith)
            requires
                out * m <= n * (m + 1),
        ;
    }
}

/// Blank text is text in which every character is one of the twenty-five with the Unicode
/// property `White_Space`.
pub proof fn blank_means_white_space_throughout(s: Seq<char>)
    ensures
        blank(s) <==> forall|i: int|
            0 <= i < s.len() ==> {
                let code = #[trigger] s[i] as int;
                ||| 9 <= code <= 13
                ||| code == 32
                ||| code == 133
                ||| code == 160
                ||| code == 5760
                ||| 8192 <= code <= 8202
                ||| code == 8232
                ||| code == 8233
                ||| code == 8239
                ||| code == 8287
                ||| code == 12288
            },
{
}

/// Text is blank just if both of its parts are, wherever it is cut.
pub proof fn blank_in_parts(left: Seq<char>, right: Seq<char>)
    ensures
        blank(left + right) <==> blank(left) && blank(right),
{
    let all = left + right;
    if blank(all) {
        assert forall|i: int| 0 <= i < left.len() implies is_white_space(#[trigger] left[i]) by {
            assert(all[i] == left[i]);
        }
        assert forall|i: int| 0 <= i < right.len() implies is_white_space(#[trigger] right[i]) by {
            assert(all[left.len() + i] == right[i]);
        }
    }
}

/// A replacement can be made on both sides of a place apart, where the opening character of
/// `from` stands at that place and nowhere else in `from`.
pub proof fn replaced_in_parts(left: Seq<char>, right: Seq<char>, from: Seq<char>, to: Seq<char>)
    requires
        opens_once(from),
        right.len() > 0,
        right[0] == from[0],
    ensures
        replaced(left + right, from, to) == replaced(left, from, to) + replaced(right, from, to),
    decreases left.len(),
{
    let all = left + right;
    let m = from.len() as int;
    if left.len() == 0 {
        assert(all =~= right);
        assert(replaced(left, from, to) =~= left);
        assert(left + replaced(right, from, to) =~= replaced(right, from, to));
    } else if all.len() < m {
    } else if all.take(m) == from {
        if m > left.len() {
            assert(all.take(m)[left.len() as int] == right[0]);
            assert(from[left.len() as int] != from[0]);
        }
        assert(left.take(m) =~= all.take(m));
        assert(all.skip(m) =~= left.skip(m) + right);
        replaced_in_parts(left.skip(m), right, from, to);
        assert(to + (replaced(left.skip(m), from, to) + replaced(right, from, to)) =~= (to
            + replaced(left.skip(m), from, to)) + replaced(right, from, to));
    } else {
        assert(all.skip(1) =~= left.skip(1) + right);
        replaced_in_parts(left.skip(1), right, from, to);
        let rest = replaced(left.skip(1), from, to);
        assert(replaced(left, from, to) =~= seq![left[0]] + rest) by {
            if left.len() < m {
                assert(left =~= seq![left[0]] + left.skip(1));
            } else {
                assert(left.take(m) =~= all.take(m));
            }
        }
        assert(seq![left[0]] + (rest + replaced(right, from, to)) =~= (seq![left[0]] + rest)
            + replaced(right, from, to));
    }
}

/// A text that stands for no `from` is kept in front of what is replaced.
proof fn lemma_replaced_behind(kept: Seq<char>, rest: Seq<char>, from: Seq<char>, to: Seq<char>)
    requires
        from.len() > 0,
        forall|i: int| 0 <= i < kept.len() ==> #[trigger] kept[i] != from[0],
    ensures
        replaced(kept + rest, from, to) == kept + replaced(rest, from, to),
    decreases kept.len(),
{
    let all = kept + rest;
    let m = from.len() as int;
    if kept.len() == 0 {
        assert(all =~= rest);
        assert(kept + replaced(rest, from, to) =~= replaced(rest, from, to));
    } else if all.len() < m {
    } else {
        if all.take(m) == from {
            assert(all.take(m)[0] == kept[0]);
        }
        assert(all.skip(1) =~= kept.skip(1) + rest);
        assert forall|i: int| 0 <= i < kept.skip(1).len() implies #[trigger] kept.skip(1)[i]
            != from[0] by {
            assert(kept.skip(1)[i] == kept[i + 1]);
        }
        lemma_replaced_behind(kept.skip(1), rest, from, to);
        assert(seq![kept[0]] + (kept.skip(1) + replaced(rest, from, to)) =~= kept + replaced(
            rest,
            from,
            to,
        ));
    }
}

/// An occurrence of `from` is replaced where it stands, whatever stands around it.
pub proof fn replaced_where_it_stands(
    left: Seq<char>,
    right: Seq<char>,
    from: Seq<char>,
    to: Seq<char>,
)
    requires
        opens_once(from),
    ensures
        replaced(left + from + right, from, to) == replaced(left, from, to) + to + replaced(
            right,
            from,
            to,
        ),
{
    let tail = from + right;
    assert(left + from + right =~= left + tail);
    replaced_in_parts(left, tail, from, to);
    assert(tail.take(from.len() as int) =~= from);
    assert(tail.skip(from.len() as int) =~= right);
    assert(replaced(left, from, to) + (to + replaced(right, from, to)) =~= replaced(left, from, to)
        + to + replaced(right, from, to));
}

/// A text that opens as `from` does and then parts from it is kept where it stands.
pub proof fn replaced_passes_over(
    left: Seq<char>,
    other: Seq<char>,
    right: Seq<char>,
    from: Seq<char>,
    to: Seq<char>,
    k: int,
)
    requires
        opens_once(from),
        opens_once(other),
        other[0] == from[0],
        0 <= k < other.len(),
        k < from.len(),
        other[k] != from[k],
    ensures
        replaced(left + other + right, from, to) == replaced(left, from, to) + other + replaced(
            right,
            from,
            to,
        ),
{
    let tail = other + right;
    let m = from.len() as int;
    assert(left + other + right =~= left + tail);
    replaced_in_parts(left, tail, from, to);
    let rest = other.skip(1);
    assert forall|i: int| 0 <= i < rest.len() implies #[trigger] rest[i] != from[0] by {
        assert(rest[i] == other[i + 1]);
    }
    lemma_replaced_behind(rest, right, from, to);
    assert(tail.skip(1) =~= rest + right);
    assert(replaced(tail, from, to) =~= other + replaced(right, from, to)) by {
        if tail.len() >= m {
            if tail.take(m) == from {
                assert(tail.take(m)[k] == other[k]);
            }
            assert(seq![other[0]] + (rest + replaced(right, from, to)) =~= other + replaced(
                right,
                from,
                to,
            ));
        }
    }
    assert(replaced(left, from, to) + (other + replaced(right, from, to)) =~= replaced(
        left,
        from,
        to,
    ) + other + replaced(right, from, to));
}

} // verus!
