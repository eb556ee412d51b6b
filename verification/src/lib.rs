//! [`ErrorAccumulator`] is a utility to write parsing functions that work
//! through as much data as possible collecting errors on the way instead of
//! doing early returns on the first error.
//!
//! # General approach
//!
//! The idea is that an input is walked through all its fields, structs, and
//! arrays. Along the way `ErrorAccumulator` is used to keep track of the
//! input's parsing results so in case all parsing was successful the validated
//! data can be returned and in case of at least one error all
//! [`AccumulatedError`]s and their source can be named.
//!
//! # What is proved
//!
//! Every builder is a scope in the sense of [`scope`]: the contracts say for
//! each step what the scope is afterwards, and the laws in [`scope`] say what
//! follows for the order of the errors and for the values. Each builder keeps
//! as its invariant that it holds an error exactly if one of its slots is
//! empty, so the values can always be taken out of a scope without errors,
//! and no step asks anything of the builder it is called on.

use crate::builder::{ArrayBuilder, ErrorBuilderParent, FieldBuilder, StructBuilder};
use crate::cons::{Append, Nil, ToTuple, ValueList};
use crate::construct::{Constructor, ListValidator};
use crate::error::{AccumulatedError, Entry, ValidationError};
use crate::path::{FieldName, PathSegment, SegmentView, SourcePath};
use crate::scope::{failure_of, recorded, reported, slot_of, ArrayScope, Pending, Scope};
use std::marker::PhantomData;
use vstd::prelude::*;

pub mod builder;
pub mod cons;
pub mod construct;
pub mod error;
pub mod path;
pub mod scope;

verus! {

/// The entry-point to accumulate parsing results.
///
/// All parsing results are tracked, i.e. `Ok` values and errors alike.
///
/// Use the methods like [`field()`](Self::field), [`strukt()`](Self::strukt),
/// or [`array()`](Self::array) to tell the accumulator from where in the input
/// the next parsing results are derived.
///
/// The final [`analyse()`](Self::analyse) call returns all errors if at least
/// one error was recorded else a tuple of all recorded `Ok` values is returned.
/// There is also [`on_ok()`](Self::on_ok) to convert the recorded `Ok` values
/// before retruning the tuple.
#[derive(Debug)]
pub struct ErrorAccumulator<List: ValueList> {
    errors: AccumulatedError,
    values: List,
    base: SourcePath,
}

/// Intermediate state when [`ErrorAccumulator::on_ok()`] was called.
///
/// See the method's documentation for more details.
#[derive(Debug)]
pub struct ErrorAccumulatorFinisher<List: ValueList, Constructor, Out> {
    accumulated_errors: AccumulatedError,
    values: List,
    constructor: Constructor,
    _marker: PhantomData<Out>,
}

impl<List: ValueList> View for ErrorAccumulator<List> {
    type V = Scope<List>;

    closed spec fn view(&self) -> Scope<List> {
        Scope { path: self.base@, errors: self.errors@, values: self.values }
    }
}

impl ErrorAccumulator<Nil> {
    /// Create a new, empty `ErrorAccumulator`.
    pub fn new() -> (accumulator: Self)
        ensures
            accumulator@ == (Scope {
                path: Seq::<SegmentView>::empty(),
                errors: Seq::<Entry>::empty(),
                values: Nil,
            }),
    {
        Self { errors: Default::default(), values: Nil, base: Default::default() }
    }
}

impl Default for ErrorAccumulator<Nil> {
    fn default() -> (accumulator: Self)
        ensures
            accumulator@ == (Scope {
                path: Seq::<SegmentView>::empty(),
                errors: Seq::<Entry>::empty(),
                values: Nil,
            }),
    {
        Self::new()
    }
}

impl<ChildValue, List> ErrorBuilderParent<ChildValue> for ErrorAccumulator<List>
where
    List: Append<ChildValue>,
{
    type AfterRecord = ErrorAccumulator<List::Output>;

    open spec fn adopted(
        &self,
        child: Result<ChildValue, Seq<Entry>>,
        after: ErrorAccumulator<List::Output>,
    ) -> bool {
        after@ == self@.adopt(child)
    }

    fn finish_child_builder(
        self,
        child_result: Result<ChildValue, AccumulatedError>,
    ) -> (after: ErrorAccumulator<List::Output>) {
        proof {
            use_type_invariant(&self);
            self@.lemma_adopt_consistent(reported(child_result));
        }
        let Self { errors: mut accumulated_errors, values, base } = self;

        let values = match child_result {
            Ok(value) => values.append(Some(value)),
            Err(errors) => {
                accumulated_errors.merge(errors);
                values.append(None)
            },
        };

        ErrorAccumulator { errors: accumulated_errors, values, base }
    }
}

impl<List: ValueList> ErrorAccumulator<List> {
    /// An accumulator holds an error exactly if one of its slots is empty.
    #[verifier::type_invariant]
    spec fn consistent(self) -> bool {
        self@.consistent()
    }

    /// Record a result of parsing a field of the input.
    pub fn field<FieldValue>(
        self,
        field: FieldName,
        result: Result<FieldValue, ValidationError>,
    ) -> (after: ErrorAccumulator<List::Output>)
        where List: Append<FieldValue>,
        ensures
            after@ == self@.record(self@.path.push(SegmentView::Field(field@)), recorded(result)),
    {
        proof {
            self@.lemma_field_is_one_attempt(
                self@.path.push(SegmentView::Field(field@)),
                recorded(result),
            );
        }
        let path = self.base.join(PathSegment::Field(field));
        FieldBuilder::new(self, path).value(result).finish()
    }

    /// Start a [`FieldBuilder`] to record results for parsing of a single input
    /// field.
    ///
    /// This allows for more finegrained validation of a single input value,
    /// e.g. like testing for different properties.
    ///
    /// See [`FieldBuilder`] for more information.
    pub fn field_builder<FieldValue>(
        self,
        field: FieldName,
    ) -> (builder: FieldBuilder<Self, FieldValue, Nil>)
        where List: Append<FieldValue>,
        ensures
            builder.parent() == self,
            builder@ == (Scope {
                path: self@.path.push(SegmentView::Field(field@)),
                errors: Seq::<Entry>::empty(),
                values: Nil,
            }),
    {
        let path = self.base.join(PathSegment::Field(field));
        FieldBuilder::new(self, path)
    }

    /// Start a [`StructBuilder`] to analyse the parsing results of a nested
    /// struct of the input.
    ///
    /// This is mainly to record the correct source paths when walking the
    /// input's structure.
    ///
    /// See [`StructBuilder`] for more information.
    pub fn strukt<StructValue>(
        self,
        field: FieldName,
    ) -> (builder: StructBuilder<Self, StructValue, Nil>)
        where List: Append<StructValue>,
        ensures
            builder.parent() == self,
            builder@ == (Scope {
                path: self@.path.push(SegmentView::Field(field@)),
                errors: Seq::<Entry>::empty(),
                values: Nil,
            }),
    {
        let path = self.base.join(PathSegment::Field(field));
        StructBuilder::new(self, path)
    }

    /// Start an [`ArrayBuilder`] to analyse the elements of a nested array of
    /// the input.
    ///
    /// See [`ArrayBuilder`] for more information.
    pub fn array<ElementValue>(self, field: FieldName) -> (builder: ArrayBuilder<Self, ElementValue>)
        where List: Append<Vec<ElementValue>>,
        ensures
            builder.parent() == self,
            builder@ == (ArrayScope {
                base: self@.path,
                name: field@,
                errors: Seq::<Entry>::empty(),
                values: Seq::<ElementValue>::empty(),
            }),
    {
        let base = self.base.clone();
        ArrayBuilder::new(self, base, field)
    }

    /// Run another validation step on the previously recorded `Ok` values if
    /// there were no errors yet.
    ///
    /// In case an error was already recorded the `validator` is not executed,
    /// and the new slot stays empty. Else what the validator answers is
    /// recorded at the accumulator's own path.
    ///
    /// For an example, see the docs of [`StructBuilder::with_previous()`].
    pub fn with_previous<Valid, T>(self, validator: Valid) -> (after: ErrorAccumulator<List::Output>)
        where Valid: ListValidator<List, T>, List: Append<T>,
        requires
            self@.errors.len() == 0 ==> validator.can_validate(&self@.values),
        ensures
            self@.errors.len() > 0 ==> after@ == self@.skip::<T>(),
            self@.errors.len() == 0 ==> exists|result: Result<T, ValidationError>|
                #[trigger] validator.validates(&self@.values, result) && after@ == self@.record(
                    self@.path,
                    recorded(result),
                ),
    {
        proof {
            use_type_invariant(&self);
        }
        let ghost before = self@;
        let Self { mut errors, values, base } = self;

        let values = if errors.is_empty() {
            let result = validator.validate(&values);
            proof {
                before.lemma_record_consistent(before.path, recorded(result));
            }
            append_or_record(values, &base, result, &mut errors)
        } else {
            proof {
                before.lemma_skip_consistent::<T>();
            }
            values.append(None)
        };

        ErrorAccumulator { errors, values, base }
    }

    /// Provide a [`Constructor`] function that is called on
    /// [`analyse()`](ErrorAccumulatorFinisher::analyse) in case all recorded
    /// results (including nested results) where [`Ok`].
    ///
    /// - The input to the constructor are the recorded `Ok` values in order of
    ///   recording.
    /// - After providing the constructor no more results can be recorded.
    pub fn on_ok<C, Out>(self, constructor: C) -> (finisher: ErrorAccumulatorFinisher<List, C, Out>)
        where List: ToTuple, C: Constructor<List::List, Out>,
        ensures
            finisher.constructor() == constructor,
            finisher@ == (Pending { errors: self@.errors, values: self@.values }),
    {
        proof {
            use_type_invariant(&self);
        }
        ErrorAccumulatorFinisher {
            accumulated_errors: self.errors,
            values: self.values,
            constructor,
            _marker: PhantomData,
        }
    }

    /// Analyse all recorded results.
    ///
    /// If at least one error was recorded the [`AccumulatedError`]s are
    /// returned else a tuple of all recorded `Ok` values in recording order is
    /// returned.
    pub fn analyse(self) -> (result: Result<List::List, AccumulatedError>)
        where List: ToTuple,
        ensures
            match result {
                Ok(values) => self@.errors.len() == 0 && values == self@.values.tuple(),
                Err(errors) => self@.errors.len() > 0 && errors@ == self@.errors,
            },
    {
        proof {
            use_type_invariant(&self);
        }
        if self.errors.is_empty() {
            Ok(self.values.unwrap_tuple())
        } else {
            Err(self.errors)
        }
    }
}

impl<List: ValueList, Constr, Out> View for ErrorAccumulatorFinisher<List, Constr, Out> {
    type V = Pending<List>;

    closed spec fn view(&self) -> Pending<List> {
        Pending { errors: self.accumulated_errors@, values: self.values }
    }
}

impl<List: ValueList, Constr, Out> ErrorAccumulatorFinisher<List, Constr, Out> {
    /// A finisher holds an error exactly if one of its slots is empty.
    #[verifier::type_invariant]
    spec fn consistent(self) -> bool {
        self@.consistent()
    }

    /// The constructor that turns the recorded values into the final value.
    pub closed spec fn constructor(&self) -> Constr {
        self.constructor
    }
}

impl<List, Constr, Out> ErrorAccumulatorFinisher<List, Constr, Out>
where
    List: ToTuple,
    Constr: Constructor<List::List, Out>,
{
    /// Like [`ErrorAccumulator::analyse()`] but the recorded `Ok` values are
    /// processed by the provided [`Constructor`].
    ///
    /// With errors the constructor is not called.
    pub fn analyse(self) -> (result: Result<Out, AccumulatedError>)
        requires
            self@.errors.len() == 0 ==> self.constructor().can_construct(self@.values.tuple()),
        ensures
            match result {
                Ok(out) => self@.errors.len() == 0 && self.constructor().constructs(
                    self@.values.tuple(),
                    out,
                ),
                Err(errors) => self@.errors.len() > 0 && errors@ == self@.errors,
            },
    {
        proof {
            use_type_invariant(&self);
        }
        if self.accumulated_errors.is_empty() {
            Ok(self.constructor.construct(self.values.unwrap_tuple()))
        } else {
            Err(self.accumulated_errors)
        }
    }
}

/// Record `result` as found at `path`: a value goes into a new slot of
/// `list`; an error goes to `errors`, behind the errors so far, and the new
/// slot stays empty.
pub fn append_or_record<L, T>(
    list: L,
    path: &SourcePath,
    result: Result<T, ValidationError>,
    errors: &mut AccumulatedError,
) -> (out: L::Output)
    where L: Append<T>,
    ensures
        out == list.appended(slot_of(recorded(result))),
        out.slots() == list.slots().push(result is Ok),
        final(errors)@ == old(errors)@ + failure_of(path@, recorded(result)),
{
    match result {
        Ok(value) => {
            assert(errors@ + Seq::<Entry>::empty() =~= errors@);
            list.append(Some(value))
        },
        Err(error) => {
            let ghost entry = Entry { path: path@, error: error@ };
            errors.append(path.clone(), error);
            assert(errors@ =~= old(errors)@ + seq![entry]);
            list.append(None)
        },
    }
}

} // verus!
