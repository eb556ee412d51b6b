use crate::builder::{ErrorBuilderParent, StructBuilder};
use crate::cons::Nil;
use crate::error::{AccumulatedError, Entry, ValidationError};
use crate::path::{FieldName, PathSegment, SourcePath};
use crate::scope::{outcome, recorded, recorded_all, reported, ArrayScope, Scope};
use std::marker::PhantomData;
use vstd::prelude::*;

verus! {

/// A builder to record the parsing results of elements of an array in the
/// input.
///
/// Arrays can be composed of single values or nested structs.
#[derive(Debug)]
pub struct ArrayBuilder<Parent, Value> {
    parent: Parent,
    base: SourcePath,
    errors: AccumulatedError,
    array_name: FieldName,
    values: Vec<Value>,
    _marker: PhantomData<Value>,
}

impl<Parent, Value> View for ArrayBuilder<Parent, Value> {
    type V = ArrayScope<Value>;

    closed spec fn view(&self) -> ArrayScope<Value> {
        ArrayScope {
            base: self.base@,
            name: self.array_name@,
            errors: self.errors@,
            values: self.values@,
        }
    }
}

impl<Parent, Value> ArrayBuilder<Parent, Value> {
    /// The builder that the array's final result will be passed to.
    pub closed spec fn parent(&self) -> Parent {
        self.parent
    }
}

impl<Parent, Value> ArrayBuilder<Parent, Value>
where
    Parent: ErrorBuilderParent<Vec<Value>>,
{
    /// Whether `opened` is a struct builder as [`strukt()`](Self::strukt)
    /// gives it for the element at `index` of this array.
    pub open spec fn opens(&self, index: nat, opened: StructBuilder<Self, Value, Nil>) -> bool {
        &&& opened.parent() == *self
        &&& opened@ == (Scope {
            path: self@.element_path(index),
            errors: Seq::<Entry>::empty(),
            values: Nil,
        })
    }

    /// Whether `after` may come of handing `parse` the `elements` one by
    /// one, first to last: each with a struct builder opened for its position
    /// on the array builder that `parse` gave back for the element before, the
    /// first on `start`.
    pub open spec fn parsed_structs<T, Parser>(
        parse: Parser,
        start: Self,
        elements: Seq<T>,
        after: Self,
    ) -> bool
        where Parser: FnMut(StructBuilder<Self, Value, Nil>, T) -> Self,
        decreases elements.len(),
    {
        if elements.len() == 0 {
            after == start
        } else {
            exists|opened: StructBuilder<Self, Value, Nil>|
                {
                    &&& Self::parsed_structs(parse, start, elements.drop_last(), opened.parent())
                    &&& opened.parent().opens((elements.len() - 1) as nat, opened)
                    &&& #[trigger] call_ensures(parse, (opened, elements.last()), after)
                }
        }
    }

    /// What holds of `start`, and of each array builder that `parse` gives
    /// back if it holds of the one that the struct builder was opened on,
    /// holds of the array builder in the end.
    ///
    /// `holds(builder, count)` speaks of the array builder after `count`
    /// elements.
    pub proof fn lemma_parsed_structs<T, Parser>(
        parse: Parser,
        start: Self,
        elements: Seq<T>,
        after: Self,
        holds: spec_fn(Self, int) -> bool,
    )
        where Parser: FnMut(StructBuilder<Self, Value, Nil>, T) -> Self,
        requires
            Self::parsed_structs(parse, start, elements, after),
            holds(start, 0),
            forall|index: int, opened: StructBuilder<Self, Value, Nil>, out: Self|
                0 <= index < elements.len() && holds(opened.parent(), index)
                    && opened.parent().opens(index as nat, opened) && #[trigger] call_ensures(
                    parse,
                    (opened, elements[index]),
                    out,
                ) ==> holds(out, index + 1),
        ensures
            holds(after, elements.len() as int),
        decreases elements.len(),
    {
        if elements.len() > 0 {
            let front = elements.drop_last();
            let opened = choose|opened: StructBuilder<Self, Value, Nil>|
                {
                    &&& Self::parsed_structs(parse, start, front, opened.parent())
                    &&& opened.parent().opens((elements.len() - 1) as nat, opened)
                    &&& #[trigger] call_ensures(parse, (opened, elements.last()), after)
                };
            assert forall|index: int, opened: StructBuilder<Self, Value, Nil>, out: Self|
                0 <= index < front.len() && holds(opened.parent(), index)
                    && opened.parent().opens(index as nat, opened) && #[trigger] call_ensures(
                    parse,
                    (opened, front[index]),
                    out,
                ) implies holds(out, index + 1) by {
                assert(front[index] == elements[index]);
            }
            Self::lemma_parsed_structs(parse, start, front, opened.parent(), holds);
            assert(elements.last() == elements[elements.len() - 1]);
        }
    }

    /// Open a scope for the array `field` of what lies at `base`, to report to
    /// `parent`.
    pub(crate) fn new(parent: Parent, base: SourcePath, field: FieldName) -> (builder: Self)
        ensures
            builder.parent() == parent,
            builder@ == (ArrayScope {
                base: base@,
                name: field@,
                errors: Seq::<Entry>::empty(),
                values: Seq::<Value>::empty(),
            }),
    {
        Self {
            base,
            parent,
            errors: Default::default(),
            array_name: field,
            values: Vec::new(),
            _marker: PhantomData,
        }
    }

    /// Record a list of parsing results for single values, each for the
    /// element at its position in the list.
    pub fn of_values(self, values: Vec<Result<Value, ValidationError>>) -> (after: Self)
        ensures
            after.parent() == self.parent(),
            after@ == self@.record_all(recorded_all(values@)),
    {
        let ghost results = recorded_all(values@);
        let count = values.len();
        let mut rec = self;
        let mut index: usize = 0;
        for result in it: values
            invariant
                count == values@.len(),
                index == it.index(),
                it.seq() == values@,
                results == recorded_all(values@),
                rec.parent() == self.parent(),
                rec@ == self@.record_all(results.take(index as int)),
        {
            proof {
                assert(results.take(index + 1).drop_last() =~= results.take(index as int));
                assert(results.take(index + 1).last() == recorded(result));
            }
            rec = rec.value(index, result);
            index = index + 1;
        }
        proof {
            assert(results.take(index as int) =~= results);
        }
        rec
    }

    /// Consume a list of nested structs from the input recording errors
    /// while parsing.
    ///
    /// The provided `parse` is a closure that receives a [`StructBuilder`] for
    /// the element that's passed into the parser as well. Use the
    /// `StructBuilder` to record any parsing results while processing the
    /// element.
    ///
    /// The closure must take each element with a struct builder opened for
    /// its position. What comes of it is then decided by the closure alone:
    /// [`lemma_parsed_structs()`](Self::lemma_parsed_structs) carries what the
    /// closure promises for one element over to the whole list.
    pub fn of_structs<T, Parser>(self, elements: Vec<T>, parse: Parser) -> (after: Self)
        where Parser: FnMut(StructBuilder<Self, Value, Nil>, T) -> Self,
        requires
            forall|index: int, opened: StructBuilder<Self, Value, Nil>|
                0 <= index < elements@.len() && opened.parent().opens(index as nat, opened)
                    ==> #[trigger] call_requires(parse, (opened, elements@[index])),
        ensures
            Self::parsed_structs(parse, self, elements@, after),
    {
        let mut parser = parse;
        let count = elements.len();
        let mut rec = self;
        let mut index: usize = 0;
        for element in it: elements
            invariant
                parser == parse,
                count == elements@.len(),
                index == it.index(),
                it.seq() == elements@,
                Self::parsed_structs(parse, self, elements@.take(index as int), rec),
                forall|index: int, opened: StructBuilder<Self, Value, Nil>|
                    0 <= index < elements@.len() && opened.parent().opens(index as nat, opened)
                        ==> #[trigger] call_requires(parse, (opened, elements@[index])),
        {
            let ghost before = rec;
            let opened = rec.strukt(index);
            rec = parser(opened, element);
            proof {
                let done = elements@.take(index + 1);
                assert(done.drop_last() =~= elements@.take(index as int));
                assert(done.last() == element);
                assert(before.opens((done.len() - 1) as nat, opened));
                assert(call_ensures(parse, (opened, done.last()), rec));
            }
            index = index + 1;
        }
        proof {
            assert(elements@.take(index as int) =~= elements@);
        }
        rec
    }

    /// Record a parsing results for a single value within the array at a
    /// certain index.
    ///
    /// This is a low-level operation, consider using
    /// [`of_values()`](Self::of_values) instead.
    pub fn value(self, index: usize, result: Result<Value, ValidationError>) -> (after: Self)
        ensures
            after.parent() == self.parent(),
            after@ == self@.record(index as nat, recorded(result)),
    {
        let mut rec = self;
        match result {
            Ok(value) => rec.values.push(value),
            Err(error) => {
                let path = rec.element_path(index);
                rec.errors.append(path, error);
            },
        }
        proof {
            let expected = self@.record(index as nat, recorded(result));
            assert(rec@.errors =~= expected.errors);
            assert(rec@.values =~= expected.values);
        }

        rec
    }

    /// Start a [`StructBuilder`] to record the parsing results for a nested
    /// struct within the array at a certain index.
    pub fn strukt(self, index: usize) -> (builder: StructBuilder<Self, Value, Nil>)
        ensures
            self.opens(index as nat, builder),
    {
        let path = self.element_path(index);
        StructBuilder::new(self, path)
    }

    /// Finish the `ArrayBuilder` and pass the final result to the parent
    /// builder.
    ///
    /// Without errors the parent gets the list of the elements' values, in
    /// recording order. With errors it gets all of them and no list.
    pub fn finish(self) -> (after: Parent::AfterRecord)
        ensures
            exists|values: Vec<Value>|
                values@ == self@.values && #[trigger] self.parent().adopted(
                    outcome(self@.errors, values),
                    after,
                ),
    {
        let ghost values = self.values;
        let result = if self.errors.is_empty() {
            Ok(self.values)
        } else {
            Err(self.errors)
        };

        let after = self.parent.finish_child_builder(result);
        proof {
            assert(self.parent().adopted(outcome(self@.errors, values), after));
        }
        after
    }

    /// The path of the element at `index`.
    fn element_path(&self, index: usize) -> (path: SourcePath)
        ensures
            path@ == self@.element_path(index as nat),
    {
        self.base.join(PathSegment::Array { name: self.array_name.clone(), index })
    }
}

impl<Parent, Value> ErrorBuilderParent<Value> for ArrayBuilder<Parent, Value>
where
    Parent: ErrorBuilderParent<Vec<Value>>,
{
    type AfterRecord = Self;

    open spec fn adopted(&self, child: Result<Value, Seq<Entry>>, after: Self) -> bool {
        after.parent() == self.parent() && after@ == self@.adopt(child)
    }

    fn finish_child_builder(self, child_result: Result<Value, AccumulatedError>) -> (after: Self) {
        let mut rec = self;
        match child_result {
            Ok(value) => rec.values.push(value),
            Err(errors) => {
                rec.errors.merge(errors);
            },
        }
        proof {
            let expected = self@.adopt(reported(child_result));
            assert(rec@.errors =~= expected.errors);
            assert(rec@.values =~= expected.values);
        }

        rec
    }
}

} // verus!
