//! Provide [`AccumulatedError`] to present a collection of errors.

use crate::path::{render_path, SegmentView, SourcePath};
use vstd::prelude::*;
use vstd::string::StringExecFns;

verus! {

/// The mathematical value of a [`ValidationError`].
pub struct ValidationErrorView {
    /// What sort of failure this is.
    pub kind: Seq<char>,
    /// The failure in words.
    pub message: Seq<char>,
}

/// The mathematical value of one entry of an [`AccumulatedError`].
pub struct Entry {
    /// Where in the input the failure was found.
    pub path: Seq<SegmentView>,
    /// The failure itself.
    pub error: ValidationErrorView,
}

/// A failed validation or conversion of one input value.
///
/// It carries a human-readable message and a kind by which errors can be
/// told apart when querying an [`AccumulatedError`].
#[derive(Debug)]
pub struct ValidationError {
    kind: String,
    message: String,
}

/// A list of recorded errors and their source's path in the input.
#[derive(Debug)]
pub struct AccumulatedError {
    errors: Vec<(SourcePath, ValidationError)>,
}

/// The entries of `entries` found at `path`, in order.
pub open spec fn entries_at(entries: Seq<Entry>, path: Seq<SegmentView>) -> Seq<Entry> {
    entries.filter(|entry: Entry| entry.path == path)
}

/// The entries of `entries` whose error is of `kind`, in order.
pub open spec fn entries_of_kind(entries: Seq<Entry>, kind: Seq<char>) -> Seq<Entry> {
    entries.filter(|entry: Entry| entry.error.kind == kind)
}

/// The line that a rendered entry makes: its path and the error's message.
pub open spec fn render_entry(entry: Entry) -> Seq<char> {
    "- "@ + render_path(entry.path) + ": "@ + entry.error.message + "\n"@
}

/// The text of a list of entries: a header line, then one line per entry.
pub open spec fn render_entries(entries: Seq<Entry>) -> Seq<char>
    decreases entries.len(),
{
    if entries.len() == 0 {
        "Accumulated errors:\n"@
    } else {
        render_entries(entries.drop_last()) + render_entry(entries.last())
    }
}

impl View for ValidationError {
    type V = ValidationErrorView;

    closed spec fn view(&self) -> ValidationErrorView {
        ValidationErrorView { kind: self.kind@, message: self.message@ }
    }
}

impl View for AccumulatedError {
    type V = Seq<Entry>;

    closed spec fn view(&self) -> Seq<Entry> {
        self.errors@.map_values(
            |stored: (SourcePath, ValidationError)| Entry { path: stored.0@, error: stored.1@ },
        )
    }
}

impl ValidationError {
    /// Describe a failure of the given kind.
    pub fn new(kind: &str, message: &str) -> (error: Self)
        ensures
            error@ == (ValidationErrorView { kind: kind@, message: message@ }),
    {
        ValidationError { kind: kind.to_owned(), message: message.to_owned() }
    }

    /// The kind of this failure.
    pub fn kind(&self) -> (kind: &str)
        ensures
            kind@ == self@.kind,
    {
        self.kind.as_str()
    }

    /// The failure in words.
    pub fn message(&self) -> (message: &str)
        ensures
            message@ == self@.message,
    {
        self.message.as_str()
    }

    /// The error as text: its message.
    pub fn to_string(&self) -> (text: String)
        ensures
            text@ == self@.message,
    {
        self.message.clone()
    }
}

impl Clone for ValidationError {
    fn clone(&self) -> (copy: Self)
        ensures
            copy@ == self@,
    {
        ValidationError { kind: self.kind.clone(), message: self.message.clone() }
    }
}

impl AccumulatedError {
    /// Get all accumulated errors of the given kind, each with its path.
    ///
    /// Errors are in accumulation order.
    pub fn get_by_type(&self, kind: &str) -> (found: Vec<(&SourcePath, &ValidationError)>)
        ensures
            found@.len() == entries_of_kind(self@, kind@).len(),
            forall|i: int|
                0 <= i < found@.len() ==> (Entry { path: found@[i].0@, error: found@[i].1@ })
                    == #[trigger] entries_of_kind(self@, kind@)[i],
    {
        let wanted = kind.to_owned();
        let ghost pred = |entry: Entry| entry.error.kind == kind@;
        let mut found: Vec<(&SourcePath, &ValidationError)> = Vec::new();
        let mut at: usize = 0;
        proof {
            reveal(Seq::filter);
            assert(self@.take(0) =~= Seq::<Entry>::empty());
        }
        while at < self.errors.len()
            invariant
                at <= self.errors.len(),
                wanted@ == kind@,
                pred == (|entry: Entry| entry.error.kind == kind@),
                found@.len() == self@.take(at as int).filter(pred).len(),
                forall|i: int|
                    0 <= i < found@.len() ==> (Entry { path: found@[i].0@, error: found@[i].1@ })
                        == #[trigger] self@.take(at as int).filter(pred)[i],
            decreases self.errors.len() - at,
        {
            let stored = &self.errors[at];
            proof {
                reveal(Seq::filter);
                assert(self@.take(at + 1).drop_last() =~= self@.take(at as int));
                assert(self@.take(at + 1).last() == self@[at as int]);
            }
            if stored.1.kind == wanted {
                found.push((&stored.0, &stored.1));
            }
            at += 1;
        }
        proof {
            assert(self@.take(at as int) =~= self@);
        }
        found
    }

    /// Get all accumulated errors for a given path.
    ///
    /// Errors are in accumulation order.
    pub fn get_by_path(&self, path: &SourcePath) -> (found: Vec<&ValidationError>)
        ensures
            found@.len() == entries_at(self@, path@).len(),
            forall|i: int|
                0 <= i < found@.len() ==> found@[i]@ == (#[trigger] entries_at(
                    self@,
                    path@,
                )[i]).error,
    {
        let ghost pred = |entry: Entry| entry.path == path@;
        let mut found: Vec<&ValidationError> = Vec::new();
        let mut at: usize = 0;
        proof {
            reveal(Seq::filter);
            assert(self@.take(0) =~= Seq::<Entry>::empty());
        }
        while at < self.errors.len()
            invariant
                at <= self.errors.len(),
                pred == (|entry: Entry| entry.path == path@),
                found@.len() == self@.take(at as int).filter(pred).len(),
                forall|i: int|
                    0 <= i < found@.len() ==> found@[i]@ == (#[trigger] self@.take(
                        at as int,
                    ).filter(pred)[i]).error,
            decreases self.errors.len() - at,
        {
            let stored = &self.errors[at];
            proof {
                reveal(Seq::filter);
                assert(self@.take(at + 1).drop_last() =~= self@.take(at as int));
                assert(self@.take(at + 1).last() == self@[at as int]);
            }
            if stored.0 == *path {
                found.push(&stored.1);
            }
            at += 1;
        }
        proof {
            assert(self@.take(at as int) =~= self@);
        }
        found
    }

    /// The errors as text: a header line, then one line per error with its
    /// path and its message, in accumulation order.
    pub fn to_string(&self) -> (text: String)
        ensures
            text@ == render_entries(self@),
    {
        let mut text = "Accumulated errors:\n".to_owned();
        let mut at: usize = 0;
        proof {
            assert(self@.take(0) =~= Seq::<Entry>::empty());
        }
        while at < self.errors.len()
            invariant
                at <= self.errors.len(),
                text@ == render_entries(self@.take(at as int)),
            decreases self.errors.len() - at,
        {
            let stored = &self.errors[at];
            let path = stored.0.to_string();
            text.append("- ");
            text.append(path.as_str());
            text.append(": ");
            text.append(stored.1.message.as_str());
            text.append("\n");
            proof {
                let done = self@.take(at + 1);
                assert(done.drop_last() =~= self@.take(at as int));
                assert(done.last() == self@[at as int]);
                assert(text@ =~= render_entries(done.drop_last()) + render_entry(done.last()));
            }
            at += 1;
        }
        proof {
            assert(self@.take(at as int) =~= self@);
        }
        text
    }

    /// Number of stored errors.
    pub fn len(&self) -> (count: usize)
        ensures
            count == self@.len(),
    {
        self.errors.len()
    }

    /// True if no errors are stored.
    pub fn is_empty(&self) -> (empty: bool)
        ensures
            empty == (self@.len() == 0),
    {
        self.errors.len() == 0
    }

    /// Store `error` as found at `path`, after the errors stored so far.
    pub fn append(&mut self, path: SourcePath, error: ValidationError)
        ensures
            final(self)@ == old(self)@.push(Entry { path: path@, error: error@ }),
    {
        self.errors.push((path, error));
        assert(self@ =~= old(self)@.push(Entry { path: path@, error: error@ }));
    }

    /// Store all errors of `other`, in their order, after the errors stored so
    /// far.
    pub fn merge(&mut self, other: AccumulatedError)
        ensures
            final(self)@ == old(self)@ + other@,
    {
        let mut rest = other;
        self.errors.append(&mut rest.errors);
        assert(self@ =~= old(self)@ + other@);
    }
}

impl Default for AccumulatedError {
    fn default() -> (errors: Self)
        ensures
            errors@ == Seq::<Entry>::empty(),
    {
        let errors = AccumulatedError { errors: Vec::new() };
        assert(errors@ =~= Seq::<Entry>::empty());
        errors
    }
}

} // verus!
