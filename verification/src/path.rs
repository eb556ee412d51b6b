//! [`SourcePath`] to identify the path to the source of an accumulated error.

use std::num::ParseIntError;
use std::str::FromStr;
use vstd::prelude::*;
use vstd::string::StringExecFns;

pub mod text;

pub use self::text::{
    is_delimiter, parse_path, parse_segment, render_path, render_segment, valid_name, ErrorView,
    SegmentView,
};
use self::text::{
    behind, decimal, digit_char, index_of_text, lemma_parse_inverts_render, prefix_len, readable,
    render_segments,
};

verus! {

/// `std::num::ParseIntError`, the error that std gives for a text that is no
/// number of the wanted integer type. Nothing is known of what it holds.
#[verifier::external_type_specification]
#[verifier::external_body]
pub struct ExParseIntError(ParseIntError);

/// Errors parsing a [`SourcePath`] or its components.
#[derive(Debug)]
pub enum Error {
    /// Invalid [`FieldName`].
    InvalidCharInName(String),
    /// Incomplete array path.
    IncompleteArraySegment(String),
    /// Invalid index in array path.
    InvalidIdx(ParseIntError),
}

/// A valid name of an input's field.
///
/// Most characters are allowed, excluding `.`, `[`, and `]`, which delimit
/// the segments of a rendered path.
#[derive(Debug)]
pub struct FieldName(String);

/// A segment of a full [`SourcePath`].
#[derive(Debug)]
pub enum PathSegment {
    /// The segment references a field.
    Field(FieldName),
    /// The segement references an element of an array.
    Array {
        /// The array's name.
        name: FieldName,
        /// The element's position within the array.
        index: usize,
    },
}

/// The full path to source of error from the input.
///
/// Composed of [`PathSegment`]s.
#[derive(Debug)]
pub struct SourcePath {
    segments: Vec<PathSegment>,
}

impl View for Error {
    type V = ErrorView;

    open spec fn view(&self) -> ErrorView {
        match self {
            Error::InvalidCharInName(name) => ErrorView::InvalidCharInName(name@),
            Error::IncompleteArraySegment(segment) => ErrorView::IncompleteArraySegment(segment@),
            Error::InvalidIdx(_) => ErrorView::InvalidIdx,
        }
    }
}

impl From<ParseIntError> for Error {
    fn from(error: ParseIntError) -> (wrapped: Self) {
        Error::InvalidIdx(error)
    }
}

impl vstd::std_specs::convert::FromSpecImpl<ParseIntError> for Error {
    open spec fn obeys_from_spec() -> bool {
        true
    }

    open spec fn from_spec(error: ParseIntError) -> Self {
        Error::InvalidIdx(error)
    }
}

impl View for FieldName {
    type V = Seq<char>;

    closed spec fn view(&self) -> Seq<char> {
        self.0@
    }
}

impl FieldName {
    /// Wrap `name` without checking it for delimiters.
    pub fn new_unchecked(name: &'static str) -> (field: Self)
        ensures
            field@ == name@,
    {
        FieldName(name.to_owned())
    }

    /// Access the inner name as a string slice.
    pub fn as_str(&self) -> (name: &str)
        ensures
            name@ == self@,
    {
        self.0.as_str()
    }

    /// The name as text.
    pub fn to_string(&self) -> (text: String)
        ensures
            text@ == self@,
    {
        self.0.clone()
    }
}

impl AsRef<str> for FieldName {
    fn as_ref(&self) -> (name: &str)
        ensures
            name@ == self@,
    {
        self.0.as_str()
    }
}

impl FromStr for FieldName {
    type Err = Error;

    /// Take `s` as a field name, unless it holds a delimiter.
    fn from_str(s: &str) -> (parsed: Result<Self, Error>)
        ensures
            match parsed {
                Ok(name) => valid_name(s@) && name@ == s@,
                Err(error) => !valid_name(s@) && error@ == ErrorView::InvalidCharInName(s@),
            },
    {
        match validate_str_as_field_name(s) {
            Ok(()) => Ok(FieldName(s.to_owned())),
            Err(error) => Err(error),
        }
    }
}

impl TryFrom<String> for FieldName {
    type Error = Error;

    /// Take `name` as a field name, unless it holds a delimiter.
    fn try_from(name: String) -> (converted: Result<Self, Error>)
        ensures
            match converted {
                Ok(field) => valid_name(name@) && field@ == name@,
                Err(error) => !valid_name(name@) && error@ == ErrorView::InvalidCharInName(
                    name@,
                ),
            },
    {
        match validate_str_as_field_name(name.as_str()) {
            Ok(()) => Ok(FieldName(name)),
            Err(_) => Err(Error::InvalidCharInName(name)),
        }
    }
}

impl vstd::std_specs::convert::TryFromSpecImpl<String> for FieldName {
    open spec fn obeys_try_from_spec() -> bool {
        true
    }

    closed spec fn try_from_spec(name: String) -> Result<Self, Error> {
        if valid_name(name@) {
            Ok(FieldName(name))
        } else {
            Err(Error::InvalidCharInName(name))
        }
    }
}

impl<'a> TryFrom<&'a str> for FieldName {
    type Error = Error;

    /// Take `name` as a field name, unless it holds a delimiter.
    fn try_from(name: &'a str) -> (converted: Result<Self, Error>)
        ensures
            match converted {
                Ok(field) => valid_name(name@) && field@ == name@,
                Err(error) => !valid_name(name@) && error@ == ErrorView::InvalidCharInName(
                    name@,
                ),
            },
    {
        FieldName::from_str(name)
    }
}

/// A field name cannot be named by its text alone, so what this conversion
/// gives is stated on `try_from` itself.
impl<'a> vstd::std_specs::convert::TryFromSpecImpl<&'a str> for FieldName {
    open spec fn obeys_try_from_spec() -> bool {
        false
    }

    open spec fn try_from_spec(name: &'a str) -> Result<Self, Error> {
        arbitrary()
    }
}

impl Clone for FieldName {
    fn clone(&self) -> (copy: Self)
        ensures
            copy@ == self@,
    {
        FieldName(self.0.clone())
    }
}

impl PartialEq for FieldName {
    fn eq(&self, other: &Self) -> (same: bool) {
        self.0 == other.0
    }
}

impl Eq for FieldName {}

/// Two field names are equal exactly if they hold the same text.
impl vstd::std_specs::cmp::PartialEqSpecImpl for FieldName {
    open spec fn obeys_eq_spec() -> bool {
        true
    }

    open spec fn eq_spec(&self, other: &Self) -> bool {
        self@ == other@
    }
}

/// Check that `name` holds no delimiter.
pub fn validate_str_as_field_name(name: &str) -> (checked: Result<(), Error>)
    ensures
        match checked {
            Ok(_) => valid_name(name@),
            Err(error) => !valid_name(name@) && error@ == ErrorView::InvalidCharInName(name@),
        },
{
    broadcast use vstd::string::group_string_axioms;

    let mut clean = true;
    for c in it: name.chars()
        invariant
            it.seq() == name@,
            clean == valid_name(name@.take(it.index() as int)),
    {
        proof {
            let before = name@.take(it.index() as int);
            let now = name@.take(it.index() + 1);
            assert(now.drop_last() =~= before);
            assert(now.last() == c);
            if valid_name(now) {
                assert forall|i: int| 0 <= i < before.len() implies !is_delimiter(
                    #[trigger] before[i],
                ) by {
                    assert(before[i] == now[i]);
                }
            }
            if valid_name(before) && !is_delimiter(c) {
                assert forall|i: int| 0 <= i < now.len() implies !is_delimiter(
                    #[trigger] now[i],
                ) by {
                    if i < before.len() {
                        assert(now[i] == before[i]);
                    }
                }
            }
        }
        if c == '.' || c == '[' || c == ']' {
            clean = false;
        }
    }
    proof {
        assert(name@.take(name@.len() as int) =~= name@);
    }
    if clean {
        Ok(())
    } else {
        Err(Error::InvalidCharInName(name.to_owned()))
    }
}

impl View for PathSegment {
    type V = SegmentView;

    open spec fn view(&self) -> SegmentView {
        match self {
            PathSegment::Field(name) => SegmentView::Field(name@),
            PathSegment::Array { name, index } => SegmentView::Array(name@, *index as nat),
        }
    }
}

impl PathSegment {
    /// Construct a field segment.
    pub fn field(name: FieldName) -> (segment: Self)
        ensures
            segment == PathSegment::Field(name),
    {
        Self::Field(name)
    }

    /// Construct an array segment.
    pub fn array(name: FieldName, index: usize) -> (segment: Self)
        ensures
            segment == (PathSegment::Array { name, index }),
    {
        Self::Array { name, index }
    }

    /// The segment as text: a field's name, or an array's name with the
    /// element's position in brackets.
    pub fn to_string(&self) -> (text: String)
        ensures
            text@ == render_segment(self@),
    {
        proof {
            reveal_strlit("[");
            reveal_strlit("]");
        }
        match self {
            PathSegment::Field(name) => name.to_string(),
            PathSegment::Array { name, index } => {
                let mut text = name.to_string();
                text.append("[");
                append_decimal(&mut text, *index);
                text.append("]");
                assert(text@ =~= render_segment(self@));
                text
            },
        }
    }
}

impl FromStr for PathSegment {
    type Err = Error;

    /// Read one segment of a path from its text.
    fn from_str(s: &str) -> (parsed: Result<Self, Error>)
        ensures
            match parsed {
                Ok(segment) => parse_segment(s@) == Ok::<SegmentView, ErrorView>(segment@),
                Err(error) => parse_segment(s@) == Err::<SegmentView, ErrorView>(error@),
            },
    {
        let chars = chars_of(s);
        let len = chars.len();
        if len > 0 && chars[len - 1] == ']' {
            let open = find_mark(&chars, 0, len, '[');
            proof {
                assert(chars@.subrange(0, len as int) =~= s@);
            }
            if open < len {
                proof {
                    assert(s@.subrange(0, open as int) =~= s@.take(open as int));
                }
                let index = match parse_index(s.substring_char(open + 1, len - 1)) {
                    Ok(index) => index,
                    Err(error) => {
                        return Err(Error::InvalidIdx(error));
                    },
                };
                match FieldName::from_str(s.substring_char(0, open)) {
                    Ok(name) => Ok(PathSegment::Array { name, index }),
                    Err(error) => Err(error),
                }
            } else {
                Err(Error::IncompleteArraySegment(s.to_owned()))
            }
        } else {
            match FieldName::from_str(s) {
                Ok(name) => Ok(PathSegment::Field(name)),
                Err(error) => Err(error),
            }
        }
    }
}

impl Clone for PathSegment {
    fn clone(&self) -> (copy: Self)
        ensures
            copy@ == self@,
    {
        match self {
            PathSegment::Field(name) => PathSegment::Field(name.clone()),
            PathSegment::Array { name, index } => PathSegment::Array {
                name: name.clone(),
                index: *index,
            },
        }
    }
}

impl PartialEq for PathSegment {
    fn eq(&self, other: &Self) -> (same: bool) {
        match (self, other) {
            (PathSegment::Field(mine), PathSegment::Field(theirs)) => mine == theirs,
            (
                PathSegment::Array { name: mine, index: here },
                PathSegment::Array { name: theirs, index: there },
            ) => *here == *there && mine == theirs,
            _ => false,
        }
    }
}

impl Eq for PathSegment {}

/// Two segments are equal exactly if they are of the same kind, with the same
/// name and the same index.
impl vstd::std_specs::cmp::PartialEqSpecImpl for PathSegment {
    open spec fn obeys_eq_spec() -> bool {
        true
    }

    open spec fn eq_spec(&self, other: &Self) -> bool {
        self@ == other@
    }
}

impl View for SourcePath {
    type V = Seq<SegmentView>;

    closed spec fn view(&self) -> Seq<SegmentView> {
        self.segments@.map_values(|segment: PathSegment| segment@)
    }
}

impl SourcePath {
    /// Construct a new, empty path.
    pub fn new() -> (path: Self)
        ensures
            path@ == Seq::<SegmentView>::empty(),
    {
        SourcePath { segments: Vec::new() }
    }

    /// Append a new segment to the path.
    pub fn join(&self, segment: PathSegment) -> (joined: Self)
        ensures
            joined@ == self@.push(segment@),
    {
        let mut joined = self.clone();
        joined.segments.push(segment);
        joined
    }

    /// Check if the other path is a base of the path at hand.
    ///
    /// For example: `foo.bar` is the base of `foo.bar.baz`.
    pub fn is_matching_base(&self, base: &Self) -> (matching: bool)
        ensures
            matching == base@.is_prefix_of(self@),
    {
        if base.segments.len() > self.segments.len() {
            return false;
        }
        let mut at: usize = 0;
        while at < base.segments.len()
            invariant
                at <= base.segments.len() <= self.segments.len(),
                forall|i: int| 0 <= i < at ==> base@[i] == self@[i],
            decreases base.segments.len() - at,
        {
            if base.segments[at] != self.segments[at] {
                assert(base@[at as int] != self@[at as int]);
                return false;
            }
            at += 1;
        }
        assert(base@ =~= self@.subrange(0, base@.len() as int));
        true
    }

    /// The path as text: `root` for the empty path, else the segments with a
    /// `.` between each two.
    pub fn to_string(&self) -> (text: String)
        ensures
            text@ == render_path(self@),
    {
        proof {
            reveal_strlit("root");
            reveal_strlit(".");
        }
        if self.segments.len() == 0 {
            let text = "root".to_owned();
            assert(text@ =~= render_path(self@));
            return text;
        }
        let mut text = self.segments[0].to_string();
        let mut at: usize = 1;
        proof {
            assert(self@.take(1).len() == 1);
            assert(self@.take(1)[0] == self.segments[0]@);
        }
        while at < self.segments.len()
            invariant
                1 <= at <= self.segments.len(),
                self@.len() == self.segments.len(),
                forall|i: int| 0 <= i < self@.len() ==> self@[i] == self.segments[i]@,
                "."@ == seq!['.'],
                text@ == render_segments(self@.take(at as int)),
            decreases self.segments.len() - at,
        {
            let piece = self.segments[at].to_string();
            text.append(".");
            text.append(piece.as_str());
            proof {
                let done = self@.take(at + 1);
                assert(done.drop_last() =~= self@.take(at as int));
                assert(done.last() == self.segments[at as int]@);
            }
            at += 1;
        }
        proof {
            assert(self@.take(at as int) =~= self@);
        }
        text
    }

    /// Reading the text of a path gives the path back, for every path that is
    /// not empty and whose names hold no delimiter.
    pub proof fn lemma_round_trip(&self)
        requires
            self@.len() > 0,
            forall|i: int|
                0 <= i < self@.len() ==> match #[trigger] self@[i] {
                    SegmentView::Field(name) => valid_name(name),
                    SegmentView::Array(name, _) => valid_name(name),
                },
        ensures
            parse_path(render_path(self@)) == Ok::<Seq<SegmentView>, ErrorView>(self@),
    {
        assert forall|i: int| 0 <= i < self@.len() implies readable(#[trigger] self@[i]) by {
            assert(self@[i] == self.segments[i]@);
        }
        lemma_parse_inverts_render(self@);
    }
}

impl FromStr for SourcePath {
    type Err = Error;

    /// Read a path from its text: the segments with a `.` between each two.
    fn from_str(s: &str) -> (parsed: Result<Self, Error>)
        ensures
            match parsed {
                Ok(path) => parse_path(s@) == Ok::<Seq<SegmentView>, ErrorView>(path@),
                Err(error) => parse_path(s@) == Err::<Seq<SegmentView>, ErrorView>(error@),
            },
    {
        let chars = chars_of(s);
        let len = chars.len();
        let mut segments: Vec<PathSegment> = Vec::new();
        let mut start: usize = 0;
        proof {
            assert(s@.skip(0) =~= s@);
            assert(Seq::<SegmentView>::empty() + seq![] =~= seq![]);
        }
        loop
            invariant
                chars@ == s@,
                len == chars.len(),
                start <= len,
                parse_path(s@) == behind(
                    segments@.map_values(|segment: PathSegment| segment@),
                    parse_path(s@.skip(start as int)),
                ),
            decreases len - start,
        {
            let end = find_mark(&chars, start, len, '.');
            let ghost rest = s@.skip(start as int);
            let ghost done = segments@.map_values(|segment: PathSegment| segment@);
            proof {
                assert(chars@.subrange(start as int, len as int) =~= rest);
                assert(rest.take(end - start) =~= s@.subrange(start as int, end as int));
                if end < len {
                    assert(rest.skip(end - start + 1) =~= s@.skip(end + 1));
                }
            }
            let segment = match PathSegment::from_str(s.substring_char(start, end)) {
                Ok(segment) => segment,
                Err(error) => {
                    return Err(error);
                },
            };
            segments.push(segment);
            proof {
                let now = segments@.map_values(|segment: PathSegment| segment@);
                assert(now =~= done + seq![segment@]);
                if end < len {
                    match parse_path(s@.skip(end + 1)) {
                        Ok(more) => {
                            assert(done + (seq![segment@] + more) =~= now + more);
                        },
                        Err(_) => {},
                    }
                }
            }
            if end >= len {
                let path = SourcePath { segments };
                return Ok(path);
            }
            start = end + 1;
        }
    }
}

impl Clone for SourcePath {
    fn clone(&self) -> (copy: Self)
        ensures
            copy@ == self@,
    {
        let mut segments: Vec<PathSegment> = Vec::new();
        let mut at: usize = 0;
        while at < self.segments.len()
            invariant
                at <= self.segments.len(),
                segments.len() == at,
                forall|i: int| 0 <= i < at ==> segments[i]@ == self.segments[i]@,
            decreases self.segments.len() - at,
        {
            segments.push(self.segments[at].clone());
            at += 1;
        }
        let copy = SourcePath { segments };
        assert(copy@ =~= self@);
        copy
    }
}

impl Default for SourcePath {
    fn default() -> (path: Self)
        ensures
            path@ == Seq::<SegmentView>::empty(),
    {
        SourcePath::new()
    }
}

impl PartialEq for SourcePath {
    fn eq(&self, other: &Self) -> (same: bool) {
        let same = self.segments.len() == other.segments.len() && self.is_matching_base(other);
        proof {
            assert(self@.len() == self.segments.len());
            assert(other@.len() == other.segments.len());
            if same {
                assert(self@ =~= other@);
            } else if self@ == other@ {
                assert(other@ =~= self@.subrange(0, other@.len() as int));
            }
        }
        same
    }
}

impl Eq for SourcePath {}

/// Two paths are equal exactly if they hold equal segments in the same order.
impl vstd::std_specs::cmp::PartialEqSpecImpl for SourcePath {
    open spec fn obeys_eq_spec() -> bool {
        true
    }

    open spec fn eq_spec(&self, other: &Self) -> bool {
        self@ == other@
    }
}

/// The characters of `text`, one by one.
fn chars_of(text: &str) -> (chars: Vec<char>)
    ensures
        chars@ == text@,
{
    broadcast use vstd::string::group_string_axioms;

    let mut chars: Vec<char> = Vec::new();
    for c in it: text.chars()
        invariant
            it.seq() == text@,
            chars@ == text@.take(it.index() as int),
    {
        chars.push(c);
    }
    chars
}

/// The position of the first `mark` in `chars` from `from` on and before
/// `to`: `to` if there is none.
fn find_mark(chars: &Vec<char>, from: usize, to: usize, mark: char) -> (at: usize)
    requires
        from <= to <= chars.len(),
    ensures
        from <= at <= to,
        at - from == prefix_len(chars@.subrange(from as int, to as int), mark),
        at < to ==> chars@[at as int] == mark,
{
    let mut at = from;
    while at < to && chars[at] != mark
        invariant
            from <= at <= to <= chars.len(),
            prefix_len(chars@.subrange(from as int, to as int), mark) == (at - from) + prefix_len(
                chars@.subrange(at as int, to as int),
                mark,
            ),
        decreases to - at,
    {
        proof {
            let rest = chars@.subrange(at as int, to as int);
            assert(rest[0] == chars@[at as int]);
            assert(rest.skip(1) =~= chars@.subrange(at + 1, to as int));
        }
        at += 1;
    }
    proof {
        let rest = chars@.subrange(at as int, to as int);
        if at < to {
            assert(rest[0] == chars@[at as int]);
        }
    }
    at
}

/// The text for a number below ten.
fn digit_text(digit: usize) -> (text: &'static str)
    requires
        digit < 10,
    ensures
        text@ == seq![digit_char(digit as nat)],
{
    proof {
        reveal_strlit("0");
        reveal_strlit("1");
        reveal_strlit("2");
        reveal_strlit("3");
        reveal_strlit("4");
        reveal_strlit("5");
        reveal_strlit("6");
        reveal_strlit("7");
        reveal_strlit("8");
        reveal_strlit("9");
    }
    let text = if digit == 0 {
        "0"
    } else if digit == 1 {
        "1"
    } else if digit == 2 {
        "2"
    } else if digit == 3 {
        "3"
    } else if digit == 4 {
        "4"
    } else if digit == 5 {
        "5"
    } else if digit == 6 {
        "6"
    } else if digit == 7 {
        "7"
    } else if digit == 8 {
        "8"
    } else {
        "9"
    };
    assert(text@ =~= seq![digit_char(digit as nat)]);
    text
}

/// Write the digits of `number` in base ten at the end of `out`.
fn append_decimal(out: &mut String, number: usize)
    ensures
        final(out)@ == old(out)@ + decimal(number as nat),
    decreases number,
{
    if number >= 10 {
        append_decimal(out, number / 10);
    }
    out.append(digit_text(number % 10));
    assert(out@ =~= old(out)@ + decimal(number as nat));
}

/// The index that `text` stands for.
///
/// This is `str::parse` of std for `usize`. By its documentation a text is
/// accepted exactly if it is an optional `+` sign followed by at least one
/// of the digits `0` to `9`, and the number they give in base ten fits into a
/// `usize`; the result then is that number.
#[verifier::external_body]
fn parse_index(text: &str) -> (parsed: Result<usize, ParseIntError>)
    ensures
        parsed is Ok <==> index_of_text(text@) is Some,
        parsed matches Ok(index) ==> index_of_text(text@) == Some(index as nat),
{
    text.parse::<usize>()
}

} // verus!
