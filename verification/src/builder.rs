//! Builder to parse input and accumulate errors.

use crate::cons::{ToTuple, ValueList};
use crate::construct::Constructor;
use crate::error::{AccumulatedError, Entry};
use crate::scope::{reported, Pending};
use std::marker::PhantomData;
use vstd::prelude::*;

mod array;
mod field;
mod strukt;

pub use self::array::ArrayBuilder;
pub use self::field::FieldBuilder;
pub use self::strukt::StructBuilder;

verus! {

/// Parent builders can have child builders to simulate nested structures.
pub trait ErrorBuilderParent<T>: Sized {
    /// The parent builder after the child builder finished.
    ///
    /// Due to the strongly typed nature of most builders it is common that
    /// after the final result of the child builder is recorded the parent is
    /// turned into another type.
    type AfterRecord;

    /// Whether `after` is this builder with `child` recorded as the final
    /// result of a child.
    spec fn adopted(&self, child: Result<T, Seq<Entry>>, after: Self::AfterRecord) -> bool;

    /// Record the final result of the child builder.
    ///
    /// A child that failed reports at least one error.
    fn finish_child_builder(
        self,
        child_result: Result<T, AccumulatedError>,
    ) -> (after: Self::AfterRecord)
        requires
            child_result matches Err(errors) ==> errors@.len() > 0,
        ensures
            self.adopted(reported(child_result), after),
    ;
}

/// Intermediate state when either [`FieldBuilder::on_ok()`] or
/// [`StructBuilder::on_ok()`] were called.
///
/// See those method's documentations for more details.
#[derive(Debug)]
pub struct BuilderFinisher<Parent, Out, List: ValueList, Constructor> {
    parent: Parent,
    accumulated_errors: AccumulatedError,
    values: List,
    constructor: Constructor,
    _marker: PhantomData<Out>,
}

impl<Parent, Out, List: ValueList, C> View for BuilderFinisher<Parent, Out, List, C> {
    type V = Pending<List>;

    closed spec fn view(&self) -> Pending<List> {
        Pending { errors: self.accumulated_errors@, values: self.values }
    }
}

impl<Parent, Out, List: ValueList, C> BuilderFinisher<Parent, Out, List, C> {
    /// A finisher holds an error exactly if one of its slots is empty.
    #[verifier::type_invariant]
    spec fn consistent(self) -> bool {
        self@.consistent()
    }

    /// The builder that the final result will be passed to.
    pub closed spec fn parent(&self) -> Parent {
        self.parent
    }

    /// The constructor that turns the recorded values into the final value.
    pub closed spec fn constructor(&self) -> C {
        self.constructor
    }

    /// Wrap up a builder that takes no more recordings.
    pub(crate) fn new(
        parent: Parent,
        accumulated_errors: AccumulatedError,
        values: List,
        constructor: C,
    ) -> (finisher: Self)
        requires
            (Pending { errors: accumulated_errors@, values }).consistent(),
        ensures
            finisher@ == (Pending { errors: accumulated_errors@, values }),
            finisher.parent() == parent,
            finisher.constructor() == constructor,
    {
        BuilderFinisher { parent, accumulated_errors, values, constructor, _marker: PhantomData }
    }
}

impl<Parent, Value, List, C> BuilderFinisher<Parent, Value, List, C>
where
    Parent: ErrorBuilderParent<Value>,
    List: ToTuple,
    C: Constructor<List::List, Value>,
{
    /// Finish the wrapped builder and pass the final result to the parent
    /// builder.
    ///
    /// Without errors the parent gets what the constructor makes of the
    /// recorded values. With errors it gets all of them and no value, and the
    /// constructor is not called.
    pub fn finish(self) -> (after: Parent::AfterRecord)
        requires
            self@.errors.len() == 0 ==> self.constructor().can_construct(self@.values.tuple()),
        ensures
            self@.errors.len() > 0 ==> self.parent().adopted(Err(self@.errors), after),
            self@.errors.len() == 0 ==> exists|value: Value|
                #[trigger] self.constructor().constructs(self@.values.tuple(), value)
                    && self.parent().adopted(Ok(value), after),
    {
        proof {
            use_type_invariant(&self);
        }
        let result = if self.accumulated_errors.is_empty() {
            Ok(self.constructor.construct(self.values.unwrap_tuple()))
        } else {
            Err(self.accumulated_errors)
        };

        self.parent.finish_child_builder(result)
    }
}

} // verus!
