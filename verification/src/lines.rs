//! The lines of a text file that carry something: trimmed, and without the
//! empty ones.

use vstd::prelude::*;

verus! {

/// Whether `c` is white space: a character with the Unicode property
/// `White_Space`.
pub open spec fn is_white_space(c: char) -> bool {
    let code = c as u32;
    ||| 0x09 <= code <= 0x0D
    ||| code == 0x20
    ||| code == 0x85
    ||| code == 0xA0
    ||| code == 0x1680
    ||| 0x2000 <= code <= 0x200A
    ||| code == 0x2028
    ||| code == 0x2029
    ||| code == 0x202F
    ||| code == 0x205F
    ||| code == 0x3000
}

/// Whether `c` is white space.
pub fn is_whitespace(c: char) -> (white: bool)
    ensures
        white == is_white_space(c),
{
    let code: u32 = c as u32;
    (0x09 <= code && code <= 0x0D) || code == 0x20 || code == 0x85 || code == 0xA0 || code
        == 0x1680 || (0x2000 <= code && code <= 0x200A) || code == 0x2028 || code == 0x2029 || code
        == 0x202F || code == 0x205F || code == 0x3000
}

/// `text` without the white space at its start.
pub open spec fn trim_start(text: Seq<char>) -> Seq<char>
    decreases text.len(),
{
    if text.len() > 0 && is_white_space(text.first()) {
        trim_start(text.drop_first())
    } else {
        text
    }
}

/// `text` without the white space at its end.
pub open spec fn trim_end(text: Seq<char>) -> Seq<char>
    decreases text.len(),
{
    if text.len() > 0 && is_white_space(text.last()) {
        trim_end(text.drop_last())
    } else {
        text
    }
}

/// `text` without the white space at its start and at its end.
pub open spec fn trim(text: Seq<char>) -> Seq<char> {
    trim_end(trim_start(text))
}

/// The number of characters of `text` before its first line feed, or all of
/// them where it has none.
pub open spec fn first_line_len(text: Seq<char>) -> nat
    decreases text.len(),
{
    if text.len() == 0 || text.first() == '\n' {
        0
    } else {
        1 + first_line_len(text.drop_first())
    }
}

/// The lines of `text` that carry something, in order: `text` is cut at its
/// line feeds, each piece is trimmed, and the pieces that are then empty are
/// left out.
pub open spec fn content_lines(text: Seq<char>) -> Seq<Seq<char>>
    decreases text.len(),
{
    if text.len() == 0 {
        Seq::empty()
    } else {
        let len = first_line_len(text) as int;
        let line = trim(text.take(len));
        let rest = if len < text.len() {
            content_lines(text.skip(len + 1))
        } else {
            Seq::empty()
        };
        if line.len() > 0 {
            seq![line] + rest
        } else {
            rest
        }
    }
}

/// Whether `line` carries something and is trimmed: it is not empty, neither
/// starts nor ends with white space, and holds no line feed.
pub open spec fn is_content_line(line: Seq<char>) -> bool {
    &&& line.len() > 0
    &&& !is_white_space(line.first())
    &&& !is_white_space(line.last())
    &&& forall|i: int| 0 <= i < line.len() ==> line[i] != '\n'
}

proof fn trim_start_is_suffix(text: Seq<char>) -> (cut: int)
    ensures
        0 <= cut <= text.len(),
        trim_start(text) == text.skip(cut),
        cut < text.len() ==> !is_white_space(text[cut]),
    decreases text.len(),
{
    if text.len() > 0 && is_white_space(text.first()) {
        let inner = trim_start_is_suffix(text.drop_first());
        inner + 1
    } else {
        0
    }
}

proof fn trim_end_is_prefix(text: Seq<char>) -> (cut: int)
    ensures
        0 <= cut <= text.len(),
        trim_end(text) == text.take(cut),
        cut > 0 ==> !is_white_space(text[cut - 1]),
    decreases text.len(),
{
    if text.len() > 0 && is_white_space(text.last()) {
        trim_end_is_prefix(text.drop_last())
    } else {
        text.len() as int
    }
}

/// What trimming leaves of `text` is a piece of it, from `bounds.0` up to
/// `bounds.1`, that neither starts nor ends with white space.
proof fn trim_is_piece(text: Seq<char>) -> (bounds: (int, int))
    ensures
        0 <= bounds.0 <= bounds.1 <= text.len(),
        trim(text) == text.subrange(bounds.0, bounds.1),
        bounds.0 < bounds.1 ==> !is_white_space(text[bounds.0]) && !is_white_space(
            text[bounds.1 - 1],
        ),
{
    let from = trim_start_is_suffix(text);
    let kept = trim_end_is_prefix(text.skip(from));
    (from, from + kept)
}

/// Trimming leaves nothing to trim: the result is empty, or it neither starts
/// nor ends with white space, and trimming it again changes nothing.
pub proof fn trim_is_idempotent(text: Seq<char>)
    ensures
        trim(text).len() > 0 ==> !is_white_space(trim(text).first()) && !is_white_space(
            trim(text).last(),
        ),
        trim(trim(text)) == trim(text),
{
    trim_is_piece(text);
}

proof fn first_line_has_no_feed(text: Seq<char>)
    ensures
        first_line_len(text) <= text.len(),
        forall|i: int| 0 <= i < first_line_len(text) ==> text[i] != '\n',
    decreases text.len(),
{
    if text.len() > 0 && text.first() != '\n' {
        let rest = text.drop_first();
        first_line_has_no_feed(rest);
        assert forall|i: int| 0 <= i < first_line_len(text) implies text[i] != '\n' by {
            if i > 0 {
                assert(text[i] == rest[i - 1]);
            }
        }
    }
}

/// Every line that is kept carries something and is trimmed.
pub proof fn content_lines_carry_content(text: Seq<char>)
    ensures
        forall|i: int|
            0 <= i < content_lines(text).len() ==> is_content_line(
                #[trigger] content_lines(text)[i],
            ),
    decreases text.len(),
{
    if text.len() > 0 {
        first_line_has_no_feed(text);
        let len = first_line_len(text) as int;
        let piece = text.take(len);
        let line = trim(piece);
        let bounds = trim_is_piece(piece);
        let rest = if len < text.len() {
            content_lines(text.skip(len + 1))
        } else {
            Seq::empty()
        };
        if len < text.len() {
            content_lines_carry_content(text.skip(len + 1));
        }
        if line.len() > 0 {
            assert forall|i: int| 0 <= i < line.len() implies line[i] != '\n' by {
                assert(line[i] == text[bounds.0 + i]);
            }
            assert(is_content_line(line));
            assert forall|i: int| 0 <= i < content_lines(text).len() implies is_content_line(
                #[trigger] content_lines(text)[i],
            ) by {
                if i > 0 {
                    assert(content_lines(text)[i] == rest[i - 1]);
                }
            }
        }
    }
}

/// A text without a line feed is one line: it is kept, trimmed, unless
/// nothing but white space is in it.
pub proof fn content_lines_of_one_line(line: Seq<char>)
    requires
        forall|i: int| 0 <= i < line.len() ==> line[i] != '\n',
    ensures
        content_lines(line) == if trim(line).len() > 0 {
            seq![trim(line)]
        } else {
            Seq::empty()
        },
{
    if line.len() > 0 {
        first_line_ends_at(line, 0, line.len() as int);
        assert(line.take(line.len() as int) =~= line);
    }
}

/// The lines of a text are those of what stands before any one of its line
/// feeds, followed by those of what stands after it.
pub proof fn content_lines_of_parts(before: Seq<char>, after: Seq<char>)
    ensures
        content_lines(before + seq!['\n'] + after) == content_lines(before) + content_lines(
            after,
        ),
    decreases before.len(),
{
    let text = before + seq!['\n'] + after;
    let len = first_line_len(before) as int;
    first_line_has_no_feed(before);
    first_line_stops_at_feed(before);
    assert(text.skip(0) =~= text);
    first_line_ends_at(text, 0, len);
    if len < before.len() {
        // The first line feed of the text is one of `before`.
        let rest = before.skip(len + 1);
        assert(text.skip(len + 1) =~= rest + seq!['\n'] + after);
        assert(text.take(len) =~= before.take(len));
        content_lines_of_parts(rest, after);
    } else {
        // The first line feed of the text is the one between the parts.
        assert(text.take(len) =~= before);
        assert(text.skip(len + 1) =~= after);
        assert(before.take(len) =~= before);
    }
}

proof fn first_line_stops_at_feed(text: Seq<char>)
    ensures
        first_line_len(text) < text.len() ==> text[first_line_len(text) as int] == '\n',
    decreases text.len(),
{
    if text.len() > 0 && text.first() != '\n' {
        first_line_stops_at_feed(text.drop_first());
    }
}

proof fn first_line_ends_at(text: Seq<char>, start: int, end: int)
    requires
        0 <= start <= end <= text.len(),
        forall|i: int| start <= i < end ==> text[i] != '\n',
        end == text.len() || text[end] == '\n',
    ensures
        first_line_len(text.skip(start)) == end - start,
    decreases end - start,
{
    if start < end {
        assert(text.skip(start).drop_first() =~= text.skip(start + 1));
        first_line_ends_at(text, start + 1, end);
    }
}

proof fn trim_start_cuts_at(text: Seq<char>, start: int, from: int, end: int)
    requires
        0 <= start <= from <= end <= text.len(),
        forall|i: int| start <= i < from ==> is_white_space(text[i]),
        from == end || !is_white_space(text[from]),
    ensures
        trim_start(text.subrange(start, end)) == text.subrange(from, end),
    decreases from - start,
{
    if start < from {
        assert(text.subrange(start, end).drop_first() =~= text.subrange(start + 1, end));
        trim_start_cuts_at(text, start + 1, from, end);
    }
}

proof fn trim_end_cuts_at(text: Seq<char>, from: int, to: int, end: int)
    requires
        0 <= from <= to <= end <= text.len(),
        forall|i: int| to <= i < end ==> is_white_space(text[i]),
        to == from || !is_white_space(text[to - 1]),
    ensures
        trim_end(text.subrange(from, end)) == text.subrange(from, to),
    decreases end - to,
{
    if to < end {
        assert(text.subrange(from, end).drop_last() =~= text.subrange(from, end - 1));
        trim_end_cuts_at(text, from, to, end - 1);
    }
}

/// `String::push` appends one character. Claimed: the text afterwards is
/// the text before with `c` at its end.
pub assume_specification[ String::push ](text: &mut String, c: char)
    ensures
        final(text)@ == old(text)@.push(c),
;

/// The characters of `text`, in order.
fn chars_of(text: &str) -> (chars: Vec<char>)
    ensures
        chars@ == text@,
{
    let mut chars: Vec<char> = Vec::new();
    for c in it: text.chars()
        invariant
            chars@ == it.seq().take(it.index()),
    {
        chars.push(c);
    }
    chars
}

/// The index of the first line feed of `chars` at or after `start`, or the
/// length of `chars` where none follows.
fn line_end(chars: &Vec<char>, start: usize) -> (end: usize)
    requires
        start <= chars.len(),
    ensures
        start <= end <= chars.len(),
        end - start == first_line_len(chars@.skip(start as int)),
{
    let mut end: usize = start;
    while end < chars.len() && chars[end] != '\n'
        invariant
            start <= end <= chars.len(),
            forall|i: int| start <= i < end ==> chars@[i] != '\n',
        decreases chars.len() - end,
    {
        end = end + 1;
    }
    proof {
        first_line_ends_at(chars@, start as int, end as int);
    }
    end
}

/// The bounds within `chars` of what trimming leaves of the characters from
/// `start` up to `end`.
fn trim_bounds(chars: &Vec<char>, start: usize, end: usize) -> (bounds: (usize, usize))
    requires
        start <= end <= chars.len(),
    ensures
        start <= bounds.0 <= bounds.1 <= end,
        chars@.subrange(bounds.0 as int, bounds.1 as int) == trim(
            chars@.subrange(start as int, end as int),
        ),
{
    let mut from: usize = start;
    while from < end && is_whitespace(chars[from])
        invariant
            start <= from <= end <= chars.len(),
            forall|i: int| start <= i < from ==> is_white_space(chars@[i]),
        decreases end - from,
    {
        from = from + 1;
    }
    let mut to: usize = end;
    while from < to && is_whitespace(chars[to - 1])
        invariant
            from <= to <= end <= chars.len(),
            forall|i: int| to <= i < end ==> is_white_space(chars@[i]),
        decreases to - from,
    {
        to = to - 1;
    }
    proof {
        trim_start_cuts_at(chars@, start as int, from as int, end as int);
        trim_end_cuts_at(chars@, from as int, to as int, end as int);
    }
    (from, to)
}

/// The characters of `chars` from `from` up to `to`, as a string.
fn string_of(chars: &Vec<char>, from: usize, to: usize) -> (text: String)
    requires
        from <= to <= chars.len(),
    ensures
        text@ == chars@.subrange(from as int, to as int),
{
    let mut text = String::new();
    let mut at: usize = from;
    while at < to
        invariant
            from <= at <= to <= chars.len(),
            text@ == chars@.subrange(from as int, at as int),
        decreases to - at,
    {
        text.push(chars[at]);
        at = at + 1;
    }
    text
}

/// The lines of `text` that carry something, in order, each without the white
/// space around it.
pub fn read_lines(text: &str) -> (lines: Vec<String>)
    ensures
        lines.deep_view() == content_lines(text@),
        forall|i: int| 0 <= i < lines.len() ==> is_content_line(#[trigger] lines[i]@),
{
    let chars = chars_of(text);
    let mut lines: Vec<String> = Vec::new();
    let mut start: usize = 0;
    assert(chars@.skip(0) =~= chars@);
    while start < chars.len()
        invariant
            start <= chars.len(),
            chars@ == text@,
            lines.deep_view() + content_lines(chars@.skip(start as int)) == content_lines(chars@),
        decreases chars.len() - start,
    {
        let end = line_end(&chars, start);
        let (from, to) = trim_bounds(&chars, start, end);
        let next: usize = if end < chars.len() {
            end + 1
        } else {
            end
        };
        proof {
            let tail = chars@.skip(start as int);
            assert(tail.take(end - start) =~= chars@.subrange(start as int, end as int));
            if end < chars.len() {
                assert(tail.skip(end - start + 1) =~= chars@.skip(next as int));
            }
        }
        if from < to {
            let line = string_of(&chars, from, to);
            lines.push(line);
        }
        start = next;
    }
    proof {
        content_lines_carry_content(text@);
        assert forall|i: int| 0 <= i < lines.len() implies is_content_line(
            #[trigger] lines[i]@,
        ) by {
            assert(lines[i]@ == lines.deep_view()[i]);
        }
    }
    lines
}

} // verus!
