//! The label of a monitor, kept short.

use vstd::prelude::*;
use vstd::utf8::{
    decode_utf8, encode_scalar, encode_utf8, encode_utf8_decode_utf8, encode_utf8_first_scalar,
    encode_utf8_valid_utf8, decode_utf8_encode_utf8, is_char_boundary, pop_first_scalar, valid_utf8,
    valid_utf8_split,
};

verus! {

/// A monitor description is a short label; bound it so it cannot inflate the size of every
/// notification (which prepends it) or the `list` output.
pub const MAX_DESCRIPTION_BYTES: usize = 256;

/// The number of bytes that `c` takes in UTF-8.
pub open spec fn utf8_width(c: char) -> nat {
    encode_scalar(c as u32).len()
}

/// The longest beginning of `s` that takes at most `max` bytes in UTF-8.
pub open spec fn clipped(s: Seq<char>, max: int) -> Seq<char>
    decreases s.len(),
{
    if s.len() == 0 || utf8_width(s[0]) > max {
        Seq::empty()
    } else {
        seq![s[0]] + clipped(s.drop_first(), max - utf8_width(s[0]))
    }
}

/// The label that `description` gives.
pub open spec fn label(description: Seq<char>) -> Seq<char> {
    clipped(description, MAX_DESCRIPTION_BYTES as int)
}

/// Truncates a description to `MAX_DESCRIPTION_BYTES` at a UTF-8 char boundary.
pub fn truncate_description(description: String) -> (out: String)
    ensures
        out@ == label(description@),
        encode_utf8(description@).len() <= MAX_DESCRIPTION_BYTES ==> out@ == description@,
{
    let ghost bytes = encode_utf8(description@);
    let length: usize = description.as_str().as_bytes().len();
    proof {
        encode_utf8_valid_utf8(description@);
    }
    if length > MAX_DESCRIPTION_BYTES {
        let mut end: usize = MAX_DESCRIPTION_BYTES;
        while end > 0 && !description.as_str().is_char_boundary(end)
            invariant
                end <= MAX_DESCRIPTION_BYTES,
                bytes == encode_utf8(description@),
                valid_utf8(bytes),
                forall|k: int|
                    end < k <= MAX_DESCRIPTION_BYTES ==> !#[trigger] is_char_boundary(bytes, k),
            decreases end,
        {
            end -= 1;
        }
        let (kept, _) = description.as_str().split_at(end);
        proof {
            lemma_clipped_at_boundary(description@, end as int, MAX_DESCRIPTION_BYTES as int);
            encode_utf8_decode_utf8(kept@);
        }
        kept.to_owned()
    } else {
        proof {
            clipped_keeps_short_text(description@, MAX_DESCRIPTION_BYTES as int);
        }
        description
    }
}

/// The last character boundary within the first `max` bytes is where the clipped text ends.
proof fn lemma_clipped_at_boundary(s: Seq<char>, end: int, max: int)
    requires
        0 <= end <= max < encode_utf8(s).len(),
        is_char_boundary(encode_utf8(s), end),
        forall|k: int| end < k <= max ==> !#[trigger] is_char_boundary(encode_utf8(s), k),
    ensures
        decode_utf8(encode_utf8(s).subrange(0, end)) == clipped(s, max),
    decreases s.len(),
{
    let bytes = encode_utf8(s);
    encode_utf8_valid_utf8(s);
    encode_utf8_first_scalar(s);
    let rest = s.drop_first();
    let width = utf8_width(s[0]) as int;
    encode_utf8_valid_utf8(rest);
    assert(pop_first_scalar(bytes) =~= encode_utf8(rest));
    assert forall|k: int| k >= width implies #[trigger] is_char_boundary(bytes, k)
        == is_char_boundary(encode_utf8(rest), k - width) by {
        if k > bytes.len() {
            assert(k - width > encode_utf8(rest).len());
        }
    }
    if end == 0 {
        assert(is_char_boundary(encode_utf8(rest), 0));
        assert(is_char_boundary(bytes, width));
        assert(bytes.subrange(0, 0) =~= Seq::<u8>::empty());
        assert(decode_utf8(bytes.subrange(0, 0)) =~= Seq::<char>::empty());
    } else {
        assert(end >= width) by {
            assert(is_char_boundary(encode_utf8(rest), end - width));
        }
        assert forall|k: int| end - width < k <= max - width implies !#[trigger] is_char_boundary(
            encode_utf8(rest),
            k,
        ) by {
            assert(!is_char_boundary(bytes, k + width));
        }
        lemma_clipped_at_boundary(rest, end - width, max - width);
        let head = bytes.subrange(0, end);
        let tail = encode_utf8(rest).subrange(0, end - width);
        valid_utf8_split(bytes, end);
        valid_utf8_split(encode_utf8(rest), end - width);
        assert(valid_utf8(head));
        assert(valid_utf8(tail));
        let kept = seq![s[0]] + decode_utf8(tail);
        assert(kept.drop_first() =~= decode_utf8(tail));
        decode_utf8_encode_utf8(tail);
        assert(encode_utf8(kept) =~= head);
        encode_utf8_decode_utf8(kept);
    }
}

/// Text that fits is kept whole.
pub proof fn clipped_keeps_short_text(s: Seq<char>, max: int)
    requires
        encode_utf8(s).len() <= max,
    ensures
        clipped(s, max) == s,
    decreases s.len(),
{
    if s.len() > 0 {
        clipped_keeps_short_text(s.drop_first(), max - utf8_width(s[0]));
        assert(seq![s[0]] + s.drop_first() =~= s);
    } else {
        assert(clipped(s, max) =~= s);
    }
}

/// The clipped text begins `s`, takes at most `max` bytes, and cannot be extended by the
/// next character of `s` within `max` bytes.
pub proof fn clipped_is_longest_fit(s: Seq<char>, max: int)
    requires
        0 <= max,
    ensures
        clipped(s, max).is_prefix_of(s),
        encode_utf8(clipped(s, max)).len() <= max,
        clipped(s, max).len() < s.len() ==> encode_utf8(
            s.take(clipped(s, max).len() as int + 1),
        ).len() > max,
    decreases s.len(),
{
    let kept = clipped(s, max);
    if s.len() == 0 {
    } else if utf8_width(s[0]) > max {
        reveal_with_fuel(encode_utf8, 2);
        assert(s.take(1).drop_first() =~= Seq::<char>::empty());
        assert(encode_utf8(s.take(1)) =~= encode_scalar(s[0] as u32));
    } else {
        let rest = s.drop_first();
        let rest_max = max - utf8_width(s[0]);
        let rest_kept = clipped(rest, rest_max);
        clipped_is_longest_fit(rest, rest_max);
        assert(kept.drop_first() =~= rest_kept);
        assert(kept =~= s.take(kept.len() as int)) by {
            assert(rest_kept =~= rest.take(rest_kept.len() as int));
        }
        if kept.len() < s.len() {
            let longer = s.take(kept.len() as int + 1);
            assert(longer.drop_first() =~= rest.take(rest_kept.len() as int + 1));
        }
    }
}

/// A label never takes more than `MAX_DESCRIPTION_BYTES` bytes, and truncating it again
/// changes nothing.
pub proof fn label_is_bounded(description: Seq<char>)
    ensures
        encode_utf8(label(description)).len() <= MAX_DESCRIPTION_BYTES,
        label(label(description)) == label(description),
{
    clipped_is_longest_fit(description, MAX_DESCRIPTION_BYTES as int);
    clipped_keeps_short_text(label(description), MAX_DESCRIPTION_BYTES as int);
}

/// Text takes at least one byte for each character.
pub proof fn utf8_is_no_shorter(s: Seq<char>)
    ensures
        s.len() <= encode_utf8(s).len(),
    decreases s.len(),
{
    if s.len() > 0 {
        utf8_is_no_shorter(s.drop_first());
    }
}

/// The label of a monitor begins its description, takes at most 256 bytes, and is the longest
/// text that does both: the whole description where that fits, and otherwise cut only where the
/// next character would be too much.
pub proof fn label_is_longest_fitting_beginning(description: Seq<char>, longer: Seq<char>)
    ensures
        label(description).is_prefix_of(description),
        encode_utf8(label(description)).len() <= 256,
        encode_utf8(description).len() <= 256 ==> label(description) == description,
        longer.is_prefix_of(description) && encode_utf8(longer).len() <= 256 ==> longer.len()
            <= label(description).len(),
{
    let kept = label(description);
    clipped_is_longest_fit(description, 256);
    if encode_utf8(description).len() <= 256 {
        clipped_keeps_short_text(description, 256);
    }
    if longer.is_prefix_of(description) && kept.len() < longer.len() {
        let next = description.take(kept.len() as int + 1);
        assert(longer =~= next + longer.skip(kept.len() as int + 1));
        lemma_utf8_of_parts(next, longer.skip(kept.len() as int + 1));
    }
}

/// The bytes of a text are those of its parts.
proof fn lemma_utf8_of_parts(left: Seq<char>, right: Seq<char>)
    ensures
        encode_utf8(left + right).len() == encode_utf8(left).len() + encode_utf8(right).len(),
    decreases left.len(),
{
    if left.len() == 0 {
        assert(left + right =~= right);
    } else {
        assert((left + right).drop_first() =~= left.drop_first() + right);
        lemma_utf8_of_parts(left.drop_first(), right);
    }
}

} // verus!
