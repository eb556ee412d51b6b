use crate::append_or_record;
use crate::builder::{BuilderFinisher, ErrorBuilderParent};
use crate::cons::{Append, List1, Nil, ToTuple, ValueList};
use crate::construct::{Constructor, ListValidator};
use crate::error::{AccumulatedError, Entry, ValidationError, ValidationErrorView};
use crate::path::SourcePath;
use crate::scope::{outcome, recorded, Pending, Scope};
use std::marker::PhantomData;
use vstd::prelude::*;

verus! {

/// A builder to record parsing results for a field of the input.
#[derive(Debug)]
pub struct FieldBuilder<Parent, Value, List: ValueList> {
    parent: Parent,
    errors: AccumulatedError,
    field: SourcePath,
    values: List,
    _marker: PhantomData<Value>,
}

impl<Parent, Value, List: ValueList> View for FieldBuilder<Parent, Value, List> {
    type V = Scope<List>;

    closed spec fn view(&self) -> Scope<List> {
        Scope { path: self.field@, errors: self.errors@, values: self.values }
    }
}

impl<Parent, Value, List: ValueList> FieldBuilder<Parent, Value, List> {
    /// A field scope holds an error exactly if one of its slots is empty.
    #[verifier::type_invariant]
    spec fn consistent(self) -> bool {
        self@.consistent()
    }

    /// The builder that the field's final result will be passed to.
    pub closed spec fn parent(&self) -> Parent {
        self.parent
    }
}

impl<Parent, Value> FieldBuilder<Parent, Value, Nil>
where
    Parent: ErrorBuilderParent<Value>,
{
    /// Open a scope for the field at `path`, to report to `parent`.
    pub(crate) fn new(parent: Parent, path: SourcePath) -> (builder: Self)
        ensures
            builder.parent() == parent,
            builder@ == (Scope { path: path@, errors: Seq::<Entry>::empty(), values: Nil }),
    {
        Self {
            field: path,
            parent,
            errors: Default::default(),
            values: Nil,
            _marker: PhantomData,
        }
    }
}

impl<Parent, Value, List> FieldBuilder<Parent, Value, List>
where
    Parent: ErrorBuilderParent<Value>,
    List: ValueList,
{
    /// Record a parsing result for the field.
    pub fn value<T>(
        self,
        result: Result<T, ValidationError>,
    ) -> (after: FieldBuilder<Parent, Value, List::Output>)
        where List: Append<T>,
        ensures
            after.parent() == self.parent(),
            after@ == self@.record(self@.path, recorded(result)),
    {
        proof {
            use_type_invariant(&self);
            self@.lemma_record_consistent(self@.path, recorded(result));
        }
        let Self { parent, mut errors, field, values, _marker } = self;

        let values = append_or_record(values, &field, result, &mut errors);

        FieldBuilder { parent, errors, field, values, _marker }
    }

    /// Record a value for the field.
    ///
    /// This is infallible so it's easy to insert values that do not need
    /// parsing in the [`ErrorAccumulator`](crate::ErrorAccumulator)'s system.
    pub fn value_ok<T>(self, value: T) -> (after: FieldBuilder<Parent, Value, List::Output>)
        where List: Append<T>,
        ensures
            after.parent() == self.parent(),
            after@ == self@.record(self@.path, Ok(value)),
    {
        proof {
            use_type_invariant(&self);
            self@.lemma_record_consistent(self@.path, Ok::<T, ValidationErrorView>(value));
        }
        let Self { parent, errors, field, values, _marker } = self;

        let values = values.append(Some(value));

        FieldBuilder { parent, errors, field, values, _marker }
    }

    /// Run another validation step on the previously recorded `Ok` values if
    /// there were no errors yet.
    ///
    /// In case an error was already recorded the `validator` is not executed,
    /// and the new slot stays empty. Else what the validator answers is
    /// recorded like any other result for the field.
    ///
    /// For an example, see the docs of
    /// [`StructBuilder::with_previous()`](crate::builder::StructBuilder::with_previous).
    pub fn with_previous<Valid, T>(
        self,
        validator: Valid,
    ) -> (after: FieldBuilder<Parent, Value, List::Output>)
        where Valid: ListValidator<List, T>, List: Append<T>,
        requires
            self@.errors.len() == 0 ==> validator.can_validate(&self@.values),
        ensures
            after.parent() == self.parent(),
            self@.errors.len() > 0 ==> after@ == self@.skip::<T>(),
            self@.errors.len() == 0 ==> exists|result: Result<T, ValidationError>|
                #[trigger] validator.validates(&self@.values, result) && after@ == self@.record(
                    self@.path,
                    recorded(result),
                ),
    {
        proof {
            use_type_invariant(&self);
        }
        let ghost before = self@;
        let Self { parent, mut errors, field, values, _marker } = self;

        let values = if errors.is_empty() {
            let result = validator.validate(&values);
            proof {
                before.lemma_record_consistent(before.path, recorded(result));
            }
            append_or_record(values, &field, result, &mut errors)
        } else {
            proof {
                before.lemma_skip_consistent::<T>();
            }
            values.append(None)
        };

        FieldBuilder { parent, errors, field, values, _marker }
    }

    /// Provide a [`Constructor`] to convert the recorded `Ok` values into the
    /// target type.
    pub fn on_ok<C>(self, constructor: C) -> (finisher: BuilderFinisher<Parent, Value, List, C>)
        where List: ToTuple, C: Constructor<List::List, Value>,
        ensures
            finisher.parent() == self.parent(),
            finisher.constructor() == constructor,
            finisher@ == (Pending { errors: self@.errors, values: self@.values }),
    {
        proof {
            use_type_invariant(&self);
        }
        BuilderFinisher::new(self.parent, self.errors, self.values, constructor)
    }
}

impl<Parent, Value> FieldBuilder<Parent, Value, List1<Value>>
where
    Parent: ErrorBuilderParent<Value>,
{
    /// Finish the builder and pass the builder's final result to the parent
    /// builder.
    ///
    /// Without errors the parent gets the one recorded value. With errors it
    /// gets all of them and no value.
    pub fn finish(self) -> (after: Parent::AfterRecord)
        ensures
            self.parent().adopted(outcome(self@.errors, self@.values.tuple().0), after),
    {
        proof {
            use_type_invariant(&self);
        }
        let result = if self.errors.is_empty() {
            let (value,) = self.values.unwrap_tuple();
            Ok(value)
        } else {
            Err(self.errors)
        };

        self.parent.finish_child_builder(result)
    }
}

} // verus!
