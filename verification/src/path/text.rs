//! The text form of a path, and what reading it means.
//!
//! A path is written as its segments with a `.` between each two. A field
//! segment is written as its name, an array segment as its name followed by
//! the element's position in brackets, as in `hosts[2].url`. The empty path is
//! written `root`.

use vstd::prelude::*;

verus! {

/// The mathematical value of a [`PathSegment`](super::PathSegment).
pub enum SegmentView {
    /// A field with the given name.
    Field(Seq<char>),
    /// The element at the given position of the array with the given name.
    Array(Seq<char>, nat),
}

/// The mathematical value of an [`Error`](super::Error).
pub enum ErrorView {
    /// The given text holds a delimiter and so is no field name.
    InvalidCharInName(Seq<char>),
    /// The given segment ends like an array segment but has no `[`.
    IncompleteArraySegment(Seq<char>),
    /// The text between the brackets is no index.
    InvalidIdx,
}

/// Whether `c` is one of the characters that delimit path segments.
pub open spec fn is_delimiter(c: char) -> bool {
    c == '.' || c == '[' || c == ']'
}

/// Whether `name` may stand as a field name: it holds no delimiter.
pub open spec fn valid_name(name: Seq<char>) -> bool {
    forall|i: int| 0 <= i < name.len() ==> !is_delimiter(#[trigger] name[i])
}

/// Whether a segment can be read back from its text: its name holds no
/// delimiter, and its index, if it has one, fits the machine's index type.
pub open spec fn readable(segment: SegmentView) -> bool {
    match segment {
        SegmentView::Field(name) => valid_name(name),
        SegmentView::Array(name, index) => valid_name(name) && index <= usize::MAX,
    }
}

/// The character for a number below ten.
pub open spec fn digit_char(digit: nat) -> char {
    if digit == 0 {
        '0'
    } else if digit == 1 {
        '1'
    } else if digit == 2 {
        '2'
    } else if digit == 3 {
        '3'
    } else if digit == 4 {
        '4'
    } else if digit == 5 {
        '5'
    } else if digit == 6 {
        '6'
    } else if digit == 7 {
        '7'
    } else if digit == 8 {
        '8'
    } else {
        '9'
    }
}

/// The number that a digit stands for, if `c` is one of `0` to `9`.
pub open spec fn digit_of(c: char) -> Option<nat> {
    if c == '0' {
        Some(0)
    } else if c == '1' {
        Some(1)
    } else if c == '2' {
        Some(2)
    } else if c == '3' {
        Some(3)
    } else if c == '4' {
        Some(4)
    } else if c == '5' {
        Some(5)
    } else if c == '6' {
        Some(6)
    } else if c == '7' {
        Some(7)
    } else if c == '8' {
        Some(8)
    } else if c == '9' {
        Some(9)
    } else {
        None
    }
}

/// The digits of `number` in base ten, without leading zeros.
pub open spec fn decimal(number: nat) -> Seq<char>
    decreases number,
{
    if number < 10 {
        seq![digit_char(number)]
    } else {
        decimal(number / 10).push(digit_char(number % 10))
    }
}

/// Whether `text` holds digits only.
pub open spec fn all_digits(text: Seq<char>) -> bool {
    forall|i: int| 0 <= i < text.len() ==> digit_of(#[trigger] text[i]) is Some
}

/// The number that the digits of `text` stand for in base ten.
pub open spec fn digits_value(text: Seq<char>) -> nat
    decreases text.len(),
{
    if text.len() == 0 {
        0
    } else {
        digits_value(text.drop_last()) * 10 + digit_of(text.last()).unwrap_or(0)
    }
}

/// The index that `text` stands for, if it is one: an optional `+`, then at
/// least one digit, with a value that fits the machine's index type.
pub open spec fn index_of_text(text: Seq<char>) -> Option<nat> {
    let digits = if text.len() > 0 && text[0] == '+' {
        text.skip(1)
    } else {
        text
    };
    if digits.len() > 0 && all_digits(digits) && digits_value(digits) <= usize::MAX {
        Some(digits_value(digits))
    } else {
        None
    }
}

/// The text of one segment: a field's name, or an array's name with the
/// element's position in brackets.
pub open spec fn render_segment(segment: SegmentView) -> Seq<char> {
    match segment {
        SegmentView::Field(name) => name,
        SegmentView::Array(name, index) => name + seq!['['] + decimal(index) + seq![']'],
    }
}

/// The texts of the segments, with a `.` between each two.
pub open spec fn render_segments(segments: Seq<SegmentView>) -> Seq<char>
    decreases segments.len(),
{
    if segments.len() == 0 {
        Seq::empty()
    } else if segments.len() == 1 {
        render_segment(segments[0])
    } else {
        render_segments(segments.drop_last()) + seq!['.'] + render_segment(segments.last())
    }
}

/// The text of a path: `root` for the empty path, else its segments with a
/// `.` between each two.
pub open spec fn render_path(path: Seq<SegmentView>) -> Seq<char> {
    if path.len() == 0 {
        seq!['r', 'o', 'o', 't']
    } else {
        render_segments(path)
    }
}

/// How many characters stand before the first `mark` in `text`: all of them
/// if there is none.
pub open spec fn prefix_len(text: Seq<char>, mark: char) -> nat
    decreases text.len(),
{
    if text.len() == 0 || text[0] == mark {
        0
    } else {
        1 + prefix_len(text.skip(1), mark)
    }
}

/// What the text of one segment stands for.
///
/// A text that ends in `]` is an array segment: the name before the first
/// `[`, the index between that and the last character. Any other text is a
/// field's name. An index that is none is reported before a name that is none.
pub open spec fn parse_segment(text: Seq<char>) -> Result<SegmentView, ErrorView> {
    if text.len() > 0 && text.last() == ']' {
        let open = prefix_len(text, '[') as int;
        if open == text.len() {
            Err(ErrorView::IncompleteArraySegment(text))
        } else {
            let name = text.take(open);
            match index_of_text(text.subrange(open + 1, text.len() - 1)) {
                None => Err(ErrorView::InvalidIdx),
                Some(index) => if valid_name(name) {
                    Ok(SegmentView::Array(name, index))
                } else {
                    Err(ErrorView::InvalidCharInName(name))
                },
            }
        }
    } else if valid_name(text) {
        Ok(SegmentView::Field(text))
    } else {
        Err(ErrorView::InvalidCharInName(text))
    }
}

/// What the text of a path stands for.
///
/// The text is cut at each `.`, and each piece is a segment. The first piece
/// that is no segment decides the error.
pub open spec fn parse_path(text: Seq<char>) -> Result<Seq<SegmentView>, ErrorView>
    decreases text.len(),
{
    let end = prefix_len(text, '.') as int;
    match parse_segment(text.take(end)) {
        Err(error) => Err(error),
        Ok(segment) => if end >= text.len() {
            Ok(seq![segment])
        } else {
            match parse_path(text.skip(end + 1)) {
                Err(error) => Err(error),
                Ok(rest) => Ok(seq![segment] + rest),
            }
        },
    }
}

/// A result of parsing the rest of a path, behind the segments in `done`.
pub open spec fn behind(
    done: Seq<SegmentView>,
    rest: Result<Seq<SegmentView>, ErrorView>,
) -> Result<Seq<SegmentView>, ErrorView> {
    match rest {
        Ok(segments) => Ok(done + segments),
        Err(error) => Err(error),
    }
}

/// A text without `mark` has all its characters before the first `mark`.
proof fn lemma_prefix_len_unmarked(text: Seq<char>, mark: char)
    requires
        forall|i: int| 0 <= i < text.len() ==> text[i] != mark,
    ensures
        prefix_len(text, mark) == text.len(),
    decreases text.len(),
{
    if text.len() > 0 {
        let rest = text.skip(1);
        assert forall|i: int| 0 <= i < rest.len() implies rest[i] != mark by {
            assert(rest[i] == text[i + 1]);
        }
        lemma_prefix_len_unmarked(rest, mark);
    }
}

/// In a text made of `head`, then `mark`, then anything, where `head` is
/// without `mark`, exactly `head` stands before the first `mark`.
proof fn lemma_prefix_len_marked(head: Seq<char>, mark: char, tail: Seq<char>)
    requires
        forall|i: int| 0 <= i < head.len() ==> head[i] != mark,
    ensures
        prefix_len(head + seq![mark] + tail, mark) == head.len(),
    decreases head.len(),
{
    let text = head + seq![mark] + tail;
    if head.len() == 0 {
        assert(text[0] == mark);
    } else {
        assert(text[0] == head[0]);
        let rest = head.skip(1);
        assert forall|i: int| 0 <= i < rest.len() implies rest[i] != mark by {
            assert(rest[i] == head[i + 1]);
        }
        assert(text.skip(1) =~= rest + seq![mark] + tail);
        lemma_prefix_len_marked(rest, mark, tail);
    }
}

/// The digits of a number are digits, at least one, and stand for the number.
pub proof fn lemma_decimal(number: nat)
    ensures
        decimal(number).len() > 0,
        all_digits(decimal(number)),
        digits_value(decimal(number)) == number,
    decreases number,
{
    let digits = decimal(number);
    if number < 10 {
        assert(digits.drop_last() =~= Seq::<char>::empty());
        assert(digits_value(digits.drop_last()) == 0);
        assert(digits.last() == digit_char(number));
    } else {
        lemma_decimal(number / 10);
        let front = decimal(number / 10);
        assert(digits.drop_last() =~= front);
        assert(digits.last() == digit_char(number % 10));
        assert forall|i: int| 0 <= i < digits.len() implies digit_of(
            #[trigger] digits[i],
        ) is Some by {
            if i < front.len() {
                assert(digits[i] == front[i]);
            }
        }
    }
}

/// Reading the text of a readable segment gives the segment back, and the
/// text holds no `.`.
pub proof fn lemma_parse_rendered_segment(segment: SegmentView)
    requires
        readable(segment),
    ensures
        parse_segment(render_segment(segment)) == Ok::<SegmentView, ErrorView>(segment),
        forall|i: int|
            0 <= i < render_segment(segment).len() ==> render_segment(segment)[i] != '.',
{
    let text = render_segment(segment);
    match segment {
        SegmentView::Field(name) => {
            if name.len() > 0 {
                assert(!is_delimiter(name[name.len() - 1]));
            }
            assert forall|i: int| 0 <= i < text.len() implies text[i] != '.' by {
                assert(!is_delimiter(name[i]));
            }
        },
        SegmentView::Array(name, index) => {
            lemma_decimal(index);
            let digits = decimal(index);
            assert forall|i: int| 0 <= i < name.len() implies name[i] != '[' by {
                assert(!is_delimiter(name[i]));
            }
            assert(text =~= name + seq!['['] + (digits + seq![']']));
            lemma_prefix_len_marked(name, '[', digits + seq![']']);
            let open = name.len() as int;
            assert(text.take(open) =~= name);
            assert(text.subrange(open + 1, text.len() - 1) =~= digits);
            assert(digit_of(digits[0]) is Some);
            assert(digits.skip(0) =~= digits);
            assert forall|i: int| 0 <= i < text.len() implies text[i] != '.' by {
                if i < name.len() {
                    assert(!is_delimiter(name[i]));
                } else if name.len() < i < text.len() - 1 {
                    assert(text[i] == digits[i - name.len() - 1]);
                    assert(digit_of(digits[i - name.len() - 1]) is Some);
                }
            }
        },
    }
}

/// The text of two or more segments is the text of the first, a `.`, and the
/// text of the others.
proof fn lemma_render_segments_head(segments: Seq<SegmentView>)
    requires
        segments.len() >= 2,
    ensures
        render_segments(segments) == render_segment(segments[0]) + seq!['.'] + render_segments(
            segments.skip(1),
        ),
    decreases segments.len(),
{
    let front = segments.drop_last();
    let others = segments.skip(1);
    assert(render_segments(segments) == render_segments(front) + seq!['.'] + render_segment(
        segments.last(),
    ));
    if segments.len() == 2 {
        assert(front.len() == 1 && front[0] == segments[0]);
        assert(others.len() == 1 && others[0] == segments.last());
        assert(render_segments(front) == render_segment(segments[0]));
        assert(render_segments(others) == render_segment(segments.last()));
    } else {
        lemma_render_segments_head(front);
        assert(front.skip(1) =~= others.drop_last());
        assert(front[0] == segments[0]);
        assert(others.last() == segments.last());
        assert(render_segments(others) == render_segments(others.drop_last()) + seq!['.']
            + render_segment(others.last()));
        assert(render_segments(segments) =~= render_segment(segments[0]) + seq!['.']
            + render_segments(others));
    }
}

/// Reading the text of a path gives the path back, for every path that is
/// not empty and whose segments are readable.
///
/// The empty path is left out: its text is `root`, which reads as the one
/// field of that name.
pub proof fn lemma_parse_inverts_render(path: Seq<SegmentView>)
    requires
        path.len() > 0,
        forall|i: int| 0 <= i < path.len() ==> readable(#[trigger] path[i]),
    ensures
        parse_path(render_path(path)) == Ok::<Seq<SegmentView>, ErrorView>(path),
    decreases path.len(),
{
    let text = render_path(path);
    let first = render_segment(path[0]);
    assert(readable(path[0]));
    lemma_parse_rendered_segment(path[0]);
    if path.len() == 1 {
        lemma_prefix_len_unmarked(text, '.');
        assert(text.take(text.len() as int) =~= text);
        assert(seq![path[0]] =~= path);
    } else {
        let others = path.skip(1);
        lemma_render_segments_head(path);
        lemma_prefix_len_marked(first, '.', render_segments(others));
        let end = first.len() as int;
        assert(text.take(end) =~= first);
        assert(text.skip(end + 1) =~= render_path(others));
        assert forall|i: int| 0 <= i < others.len() implies readable(#[trigger] others[i]) by {
            assert(others[i] == path[i + 1]);
        }
        lemma_parse_inverts_render(others);
        assert(seq![path[0]] + others =~= path);
    }
}

} // verus!
