use crate::append_or_record;
use crate::builder::{ArrayBuilder, BuilderFinisher, ErrorBuilderParent, FieldBuilder};
use crate::cons::{Append, Nil, ToTuple, ValueList};
use crate::construct::{Constructor, ListValidator};
use crate::error::{AccumulatedError, Entry, ValidationError};
use crate::path::{FieldName, PathSegment, SegmentView, SourcePath};
use crate::scope::{recorded, reported, ArrayScope, Pending, Scope};
use std::marker::PhantomData;
use vstd::prelude::*;

verus! {

/// A builder to record parsing results for a nested struct in the input.
///
/// A `StructBuilder` can have other nested structs, arrays, and fields.
#[derive(Debug)]
pub struct StructBuilder<Parent, Value, List: ValueList> {
    parent: Parent,
    errors: AccumulatedError,
    struct_path: SourcePath,
    values: List,
    _marker: PhantomData<Value>,
}

impl<Parent, Value, List: ValueList> View for StructBuilder<Parent, Value, List> {
    type V = Scope<List>;

    closed spec fn view(&self) -> Scope<List> {
        Scope { path: self.struct_path@, errors: self.errors@, values: self.values }
    }
}

impl<Parent, Value, List: ValueList> StructBuilder<Parent, Value, List> {
    /// A struct scope holds an error exactly if one of its slots is empty.
    #[verifier::type_invariant]
    spec fn consistent(self) -> bool {
        self@.consistent()
    }

    /// The builder that the struct's final result will be passed to.
    pub closed spec fn parent(&self) -> Parent {
        self.parent
    }
}

impl<Parent, Value> StructBuilder<Parent, Value, Nil>
where
    Parent: ErrorBuilderParent<Value>,
{
    /// Open a scope for the struct at `base`, to report to `parent`.
    pub(crate) fn new(parent: Parent, base: SourcePath) -> (builder: Self)
        ensures
            builder.parent() == parent,
            builder@ == (Scope { path: base@, errors: Seq::<Entry>::empty(), values: Nil }),
    {
        Self {
            struct_path: base,
            parent,
            errors: Default::default(),
            values: Nil,
            _marker: PhantomData,
        }
    }
}

impl<Parent, Value, List> StructBuilder<Parent, Value, List>
where
    Parent: ErrorBuilderParent<Value>,
    List: ValueList,
{
    /// Record a parsing result for a field in this struct.
    pub fn field<T>(
        self,
        field: FieldName,
        result: Result<T, ValidationError>,
    ) -> (after: StructBuilder<Parent, Value, List::Output>)
        where List: Append<T>,
        ensures
            after.parent() == self.parent(),
            after@ == self@.record(self@.path.push(SegmentView::Field(field@)), recorded(result)),
    {
        proof {
            self@.lemma_field_is_one_attempt(
                self@.path.push(SegmentView::Field(field@)),
                recorded(result),
            );
        }
        let field_path = self.struct_path.join(PathSegment::Field(field));
        FieldBuilder::new(self, field_path).value(result).finish()
    }

    /// Start a [`FieldBuilder`] to record the parsing results for a field in
    /// this struct.
    pub fn field_builder<FieldValue>(
        self,
        field: FieldName,
    ) -> (builder: FieldBuilder<Self, FieldValue, Nil>)
        where List: Append<FieldValue>,
        ensures
            builder.parent() == self,
            builder@ == (Scope {
                path: self@.path.push(SegmentView::Field(field@)),
                errors: Seq::<Entry>::empty(),
                values: Nil,
            }),
    {
        let field_path = self.struct_path.join(PathSegment::Field(field));
        FieldBuilder::new(self, field_path)
    }

    /// Start a [`StructBuilder`] to record the parsing results of a nested
    /// struct within the current one.
    pub fn strukt<StructValue>(
        self,
        field: FieldName,
    ) -> (builder: StructBuilder<Self, StructValue, Nil>)
        where List: Append<StructValue>,
        ensures
            builder.parent() == self,
            builder@ == (Scope {
                path: self@.path.push(SegmentView::Field(field@)),
                errors: Seq::<Entry>::empty(),
                values: Nil,
            }),
    {
        let base = self.struct_path.join(PathSegment::Field(field));
        StructBuilder::new(self, base)
    }

    /// Start an [`ArrayBuilder`] to record the parsing results for a nested
    /// array within the current struct.
    pub fn array<ElementValue>(self, field: FieldName) -> (builder: ArrayBuilder<Self, ElementValue>)
        where List: Append<Vec<ElementValue>>,
        ensures
            builder.parent() == self,
            builder@ == (ArrayScope {
                base: self@.path,
                name: field@,
                errors: Seq::<Entry>::empty(),
                values: Seq::<ElementValue>::empty(),
            }),
    {
        let base = self.struct_path.clone();
        ArrayBuilder::new(self, base, field)
    }

    /// Run another validation step on the previously recorded `Ok` values if
    /// there were no errors yet.
    ///
    /// In case an error was already recorded the `validator` is not executed,
    /// and the new slot stays empty. Else what the validator answers is
    /// recorded at the struct's own path.
    ///
    /// There are implementations of [`ListValidator`] for closures that take
    /// the references to `Ok` values as arguments.
    pub fn with_previous<Valid, T>(
        self,
        validator: Valid,
    ) -> (after: StructBuilder<Parent, Value, List::Output>)
        where Valid: ListValidator<List, T>, List: Append<T>,
        requires
            self@.errors.len() == 0 ==> validator.can_validate(&self@.values),
        ensures
            after.parent() == self.parent(),
            self@.errors.len() > 0 ==> after@ == self@.skip::<T>(),
            self@.errors.len() == 0 ==> exists|result: Result<T, ValidationError>|
                #[trigger] validator.validates(&self@.values, result) && after@ == self@.record(
                    self@.path,
                    recorded(result),
                ),
    {
        proof {
            use_type_invariant(&self);
        }
        let ghost before = self@;
        let Self { parent, mut errors, struct_path, values, _marker } = self;

        let values = if errors.is_empty() {
            let result = validator.validate(&values);
            proof {
                before.lemma_record_consistent(before.path, recorded(result));
            }
            append_or_record(values, &struct_path, result, &mut errors)
        } else {
            proof {
                before.lemma_skip_consistent::<T>();
            }
            values.append(None)
        };

        StructBuilder { parent, errors, struct_path, values, _marker }
    }

    /// Provide a [`Constructor`] to build a struct values from all the recorded
    /// `Ok` values of the builder.
    pub fn on_ok<C>(self, constructor: C) -> (finisher: BuilderFinisher<Parent, Value, List, C>)
        where List: ToTuple, C: Constructor<List::List, Value>,
        ensures
            finisher.parent() == self.parent(),
            finisher.constructor() == constructor,
            finisher@ == (Pending { errors: self@.errors, values: self@.values }),
    {
        proof {
            use_type_invariant(&self);
        }
        BuilderFinisher::new(self.parent, self.errors, self.values, constructor)
    }
}

impl<Parent, OwnValue, ChildValue, List> ErrorBuilderParent<ChildValue>
    for StructBuilder<Parent, OwnValue, List>
where
    Parent: ErrorBuilderParent<OwnValue>,
    List: Append<ChildValue>,
{
    type AfterRecord = StructBuilder<Parent, OwnValue, List::Output>;

    open spec fn adopted(
        &self,
        child: Result<ChildValue, Seq<Entry>>,
        after: StructBuilder<Parent, OwnValue, List::Output>,
    ) -> bool {
        after.parent() == self.parent() && after@ == self@.adopt(child)
    }

    fn finish_child_builder(
        self,
        child_result: Result<ChildValue, AccumulatedError>,
    ) -> (after: StructBuilder<Parent, OwnValue, List::Output>) {
        proof {
            use_type_invariant(&self);
            self@.lemma_adopt_consistent(reported(child_result));
        }
        let Self { parent, mut errors, struct_path, values, _marker } = self;

        let values = match child_result {
            Ok(value) => values.append(Some(value)),
            Err(child_errors) => {
                errors.merge(child_errors);
                values.append(None)
            },
        };

        StructBuilder { parent, errors, struct_path, values, _marker }
    }
}

} // verus!
