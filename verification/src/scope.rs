//! The mathematical model of a recording scope.
//!
//! Every builder of this crate is a scope: it has a path, collects errors in
//! the order in which they are recorded, and keeps one slot per recording.
//! The contracts of the builders are stated over the values defined here, and
//! the laws that follow from them are proved here.

use crate::cons::{all_present, lemma_push_present, Append, Nil, ValueList};
use crate::error::{AccumulatedError, Entry, ValidationError, ValidationErrorView};
use crate::path::SegmentView;
use vstd::prelude::*;

verus! {

/// The state of a scope that records into a typed list of slots.
pub struct Scope<List> {
    /// The path of the scope itself.
    pub path: Seq<SegmentView>,
    /// The errors recorded so far, first recorded first.
    pub errors: Seq<Entry>,
    /// The slots, one per recording.
    pub values: List,
}

/// The state of a scope that records the elements of one array.
pub struct ArrayScope<Value> {
    /// The path of what the array is a part of.
    pub base: Seq<SegmentView>,
    /// The array's name.
    pub name: Seq<char>,
    /// The errors recorded so far, first recorded first.
    pub errors: Seq<Entry>,
    /// The values of the elements that succeeded, in recording order.
    pub values: Seq<Value>,
}

/// The state of a scope that takes no more recordings and waits to turn its
/// values into one value.
pub struct Pending<List> {
    /// The errors recorded, first recorded first.
    pub errors: Seq<Entry>,
    /// The slots, one per recording.
    pub values: List,
}

/// A result of parsing as the scopes see it: the value, or the error's
/// mathematical value.
pub open spec fn recorded<T>(result: Result<T, ValidationError>) -> Result<T, ValidationErrorView> {
    match result {
        Ok(value) => Ok(value),
        Err(error) => Err(error@),
    }
}

/// The results of parsing the elements of an array, as the scopes see them.
pub open spec fn recorded_all<T>(
    results: Seq<Result<T, ValidationError>>,
) -> Seq<Result<T, ValidationErrorView>> {
    results.map_values(|result: Result<T, ValidationError>| recorded(result))
}

/// A child's final result as its parent sees it: the value, or the entries of
/// the child's errors.
pub open spec fn reported<T>(result: Result<T, AccumulatedError>) -> Result<T, Seq<Entry>> {
    match result {
        Ok(value) => Ok(value),
        Err(errors) => Err(errors@),
    }
}

/// What goes into the slot for a result: its value, or nothing.
pub open spec fn slot_of<T, E>(result: Result<T, E>) -> Option<T> {
    match result {
        Ok(value) => Some(value),
        Err(_) => None,
    }
}

/// The entries that a result of parsing brings when recorded for the input at
/// `at`: none with a value, one with a failure.
pub open spec fn failure_of<T>(
    at: Seq<SegmentView>,
    result: Result<T, ValidationErrorView>,
) -> Seq<Entry> {
    match result {
        Ok(_) => Seq::empty(),
        Err(error) => seq![Entry { path: at, error }],
    }
}

/// The entries that a child's final result brings: none with a value, else
/// all of the child's.
pub open spec fn errors_of<T>(child: Result<T, Seq<Entry>>) -> Seq<Entry> {
    match child {
        Ok(_) => Seq::empty(),
        Err(errors) => errors,
    }
}

/// What a scope with the given errors reports when it finishes with `value`
/// at hand: the value if there is no error, else all the errors and no value.
pub open spec fn outcome<Out>(errors: Seq<Entry>, value: Out) -> Result<Out, Seq<Entry>> {
    if errors.len() == 0 {
        Ok(value)
    } else {
        Err(errors)
    }
}

impl<List: ValueList> Pending<List> {
    /// A scope holds an error exactly if one of its slots is empty.
    pub open spec fn consistent(self) -> bool {
        self.errors.len() == 0 <==> all_present(self.values.slots())
    }
}

impl<List: ValueList> Scope<List> {
    /// A scope holds an error exactly if one of its slots is empty.
    pub open spec fn consistent(self) -> bool {
        self.errors.len() == 0 <==> all_present(self.values.slots())
    }

    /// The scope after recording `result` for the input found at `at`.
    ///
    /// A value fills a new slot. A failure adds one entry at `at`, behind the
    /// entries so far, and leaves the new slot empty.
    pub open spec fn record<T>(
        self,
        at: Seq<SegmentView>,
        result: Result<T, ValidationErrorView>,
    ) -> Scope<List::Output>
        where List: Append<T>,
    {
        Scope {
            path: self.path,
            errors: self.errors + failure_of(at, result),
            values: self.values.appended(slot_of(result)),
        }
    }

    /// The scope after a child scope finished with `child`.
    ///
    /// A value fills a new slot. Errors are added behind the entries so far,
    /// in the child's order, and the new slot stays empty.
    pub open spec fn adopt<T>(self, child: Result<T, Seq<Entry>>) -> Scope<List::Output>
        where List: Append<T>,
    {
        Scope {
            path: self.path,
            errors: self.errors + errors_of(child),
            values: self.values.appended(slot_of(child)),
        }
    }

    /// The scope after a validation of earlier values was skipped: one more
    /// slot for a value of type `T`, empty, and nothing else.
    pub open spec fn skip<T>(self) -> Scope<List::Output>
        where List: Append<T>,
    {
        Scope { path: self.path, errors: self.errors, values: self.values.appended(None::<T>) }
    }

    /// Recording keeps a scope consistent, and adds exactly one slot.
    pub proof fn lemma_record_consistent<T>(
        self,
        at: Seq<SegmentView>,
        result: Result<T, ValidationErrorView>,
    )
        where List: Append<T>,
        requires
            self.consistent(),
        ensures
            self.record(at, result).consistent(),
            self.record(at, result).values.slots() == self.values.slots().push(result is Ok),
    {
        self.values.lemma_appended_slots(slot_of(result));
        lemma_push_present(self.values.slots(), result is Ok);
    }

    /// Taking the final result of a child keeps a scope consistent, if a
    /// child that failed reports at least one error, and adds exactly one slot.
    pub proof fn lemma_adopt_consistent<T>(self, child: Result<T, Seq<Entry>>)
        where List: Append<T>,
        requires
            self.consistent(),
            child matches Err(errors) ==> errors.len() > 0,
        ensures
            self.adopt(child).consistent(),
            self.adopt(child).values.slots() == self.values.slots().push(child is Ok),
    {
        self.values.lemma_appended_slots(slot_of(child));
        lemma_push_present(self.values.slots(), child is Ok);
    }

    /// Skipping a validation keeps a scope consistent, if the scope holds an
    /// error. It adds no entry and one empty slot behind the others: the
    /// values recorded before and after keep their positions.
    pub proof fn lemma_skip_consistent<T>(self)
        where List: Append<T>,
        requires
            self.consistent(),
            self.errors.len() > 0,
        ensures
            self.skip::<T>().consistent(),
            self.skip::<T>().errors == self.errors,
            self.skip::<T>().values.slots() == self.values.slots().push(false),
    {
        self.values.lemma_appended_slots(None::<T>);
        lemma_push_present(self.values.slots(), false);
    }

    /// A recording that succeeds adds no entry; one that fails adds exactly
    /// one, tagged with the path it was recorded for, behind all earlier
    /// entries.
    pub proof fn lemma_record_errors<T>(
        self,
        at: Seq<SegmentView>,
        result: Result<T, ValidationErrorView>,
    )
        where List: Append<T>,
        ensures
            result is Ok ==> self.record(at, result).errors == self.errors,
            result matches Err(error) ==> self.record(at, result).errors == self.errors.push(
                Entry { path: at, error },
            ),
    {
        assert(self.errors + Seq::<Entry>::empty() =~= self.errors);
        if let Err(error) = result {
            let entry = Entry { path: at, error };
            assert(self.errors + seq![entry] =~= self.errors.push(entry));
        }
    }

    /// Of two children, the one that finished first has its errors first: the
    /// scope's own earlier entries, then all of the first child's, then all of
    /// the second child's.
    pub proof fn lemma_sibling_order<A, B>(
        self,
        first: Result<A, Seq<Entry>>,
        second: Result<B, Seq<Entry>>,
    )
        where List: Append<A>, List::Output: Append<B>,
        ensures
            self.adopt(first).adopt(second).errors == self.errors + errors_of(first) + errors_of(
                second,
            ),
    {
    }

    /// The errors of a child that finished stand together at the place of the
    /// child among the recordings of the scope: behind the entry of a recording
    /// made before the child finished, and before the entry of one made after.
    pub proof fn lemma_child_among_recordings<A, B, C>(
        self,
        at_before: Seq<SegmentView>,
        before: Result<A, ValidationErrorView>,
        child: Result<B, Seq<Entry>>,
        at_behind: Seq<SegmentView>,
        behind: Result<C, ValidationErrorView>,
    )
        where
            List: Append<A>,
            List::Output: Append<B>,
            <List::Output as Append<B>>::Output: Append<C>,
        ensures
            self.record(at_before, before).adopt(child).record(at_behind, behind).errors
                == self.errors + failure_of(at_before, before) + errors_of(child) + failure_of(
                at_behind,
                behind,
            ),
    {
    }

    /// Without failures a scope stays without errors and without empty slots:
    /// a value recorded, or reported by a child, fills the new slot, which
    /// comes last, and the scope still reports a value.
    pub proof fn lemma_success_keeps_clean<T>(self, at: Seq<SegmentView>, value: T)
        where List: Append<T>,
        requires
            self.errors.len() == 0,
            all_present(self.values.slots()),
        ensures
            self.record(at, Ok(value)) == self.adopt(Ok(value)),
            self.adopt(Ok(value)).errors.len() == 0,
            self.adopt(Ok(value)).values == self.values.appended(Some(value)),
            all_present(self.adopt(Ok(value)).values.slots()),
            forall|out: T| outcome(self.adopt(Ok(value)).errors, out) == Ok::<T, Seq<Entry>>(out),
    {
        self.values.lemma_appended_slots(Some(value));
        lemma_push_present(self.values.slots(), true);
    }

    /// A scope with an error reports its errors and no value, whatever was
    /// recorded in it, and goes on doing so whatever is recorded next.
    pub proof fn lemma_failure_hides_value<T, Out>(self, child: Result<T, Seq<Entry>>, value: Out)
        where List: Append<T>,
        requires
            self.errors.len() > 0,
        ensures
            outcome(self.errors, value) == Err::<Out, Seq<Entry>>(self.errors),
            self.adopt(child).errors.len() > 0,
    {
    }

    /// Recording a result for a field directly is the same as opening a scope
    /// for the field, recording the result there as its one attempt, and
    /// finishing that scope.
    pub proof fn lemma_field_is_one_attempt<T>(
        self,
        at: Seq<SegmentView>,
        result: Result<T, ValidationErrorView>,
    )
        where List: Append<T>,
        ensures
            ({
                let opened = Scope { path: at, errors: Seq::<Entry>::empty(), values: Nil };
                let attempted = opened.record(at, result);
                self.adopt(outcome(attempted.errors, attempted.values.head->0)) == self.record(
                    at,
                    result,
                )
            }),
    {
        let opened = Scope { path: at, errors: Seq::<Entry>::empty(), values: Nil };
        let attempted = opened.record(at, result);
        assert(attempted.errors =~= failure_of(at, result));
    }
}

/// The values that a result brings to the list of an array: its value, or
/// none.
pub open spec fn value_of<T, E>(result: Result<T, E>) -> Seq<T> {
    match result {
        Ok(value) => seq![value],
        Err(_) => Seq::empty(),
    }
}

/// The entries that recording `results` for the elements of an array brings:
/// one for each result that failed, tagged with the path of the element at
/// its position, in the order of the positions.
pub open spec fn failures<Value>(
    scope: ArrayScope<Value>,
    results: Seq<Result<Value, ValidationErrorView>>,
) -> Seq<Entry>
    decreases results.len(),
{
    if results.len() == 0 {
        Seq::empty()
    } else {
        failures(scope, results.drop_last()) + failure_of(
            scope.element_path((results.len() - 1) as nat),
            results.last(),
        )
    }
}

/// The values of the results that succeeded, in order.
pub open spec fn successes<Value>(results: Seq<Result<Value, ValidationErrorView>>) -> Seq<Value>
    decreases results.len(),
{
    if results.len() == 0 {
        Seq::empty()
    } else {
        successes(results.drop_last()) + value_of(results.last())
    }
}

impl<Value> ArrayScope<Value> {
    /// The path of the element at `index`.
    pub open spec fn element_path(self, index: nat) -> Seq<SegmentView> {
        self.base.push(SegmentView::Array(self.name, index))
    }

    /// The scope after recording `result` for the element at `index`.
    ///
    /// A value is added to the list. A failure adds one entry at the path of
    /// the element, behind the entries so far, and nothing to the list.
    pub open spec fn record(self, index: nat, result: Result<Value, ValidationErrorView>) -> Self {
        ArrayScope {
            base: self.base,
            name: self.name,
            errors: self.errors + failure_of(self.element_path(index), result),
            values: self.values + value_of(result),
        }
    }

    /// The scope after recording each of `results` for the element at its
    /// position, first to last.
    pub open spec fn record_all(self, results: Seq<Result<Value, ValidationErrorView>>) -> Self
        decreases results.len(),
    {
        if results.len() == 0 {
            self
        } else {
            self.record_all(results.drop_last()).record((results.len() - 1) as nat, results.last())
        }
    }

    /// The scope after a struct scope for one element finished with `child`.
    ///
    /// A value is added to the list. Errors are added behind the entries so
    /// far, in the child's order, and nothing to the list.
    pub open spec fn adopt(self, child: Result<Value, Seq<Entry>>) -> Self {
        ArrayScope {
            base: self.base,
            name: self.name,
            errors: self.errors + errors_of(child),
            values: self.values + value_of(child),
        }
    }

    /// Recording the results for the elements of an array adds, behind the
    /// earlier entries, exactly one entry per result that failed and none for
    /// one that succeeded; the values of those that succeeded are added in
    /// order.
    pub proof fn lemma_record_all(self, results: Seq<Result<Value, ValidationErrorView>>)
        ensures
            self.record_all(results).base == self.base,
            self.record_all(results).name == self.name,
            self.record_all(results).errors == self.errors + failures(self, results),
            self.record_all(results).values == self.values + successes(results),
            failures(self, results).len() + successes(results).len() == results.len(),
        decreases results.len(),
    {
        if results.len() == 0 {
            assert(self.errors + failures(self, results) =~= self.errors);
            assert(self.values + successes(results) =~= self.values);
        } else {
            let front = results.drop_last();
            self.lemma_record_all(front);
            let before = self.record_all(front);
            assert(before.element_path((results.len() - 1) as nat) == self.element_path(
                (results.len() - 1) as nat,
            ));
            assert(self.record_all(results).errors =~= self.errors + failures(self, results));
            assert(self.record_all(results).values =~= self.values + successes(results));
        }
    }

    /// Each entry that recording `results` brings belongs to a result that
    /// failed: it holds that result's error and the path of the element at
    /// that result's position. Entries of earlier positions come first.
    pub proof fn lemma_failures_tagged(
        self,
        results: Seq<Result<Value, ValidationErrorView>>,
        k: int,
    ) -> (position: int)
        requires
            0 <= k < failures(self, results).len(),
        ensures
            0 <= position < results.len(),
            results[position] is Err,
            failures(self, results)[k] == (Entry {
                path: self.element_path(position as nat),
                error: results[position]->Err_0,
            }),
            failures(self, results.take(position)).len() == k,
        decreases results.len(),
    {
        let front = results.drop_last();
        let last = results.len() - 1;
        if results.last() is Err && k == failures(self, front).len() {
            assert(results.take(last) =~= front);
            last
        } else {
            let position = self.lemma_failures_tagged(front, k);
            assert(results.take(position) =~= front.take(position));
            position
        }
    }

    /// If every result succeeded, recording them adds no entry at all, and the
    /// values of all elements stand in the order of the elements.
    pub proof fn lemma_all_succeeded(self, results: Seq<Result<Value, ValidationErrorView>>)
        requires
            forall|i: int| 0 <= i < results.len() ==> results[i] is Ok,
        ensures
            self.record_all(results).errors == self.errors,
            successes(results).len() == results.len(),
            forall|i: int| 0 <= i < results.len() ==> successes(results)[i] == results[i]->Ok_0,
        decreases results.len(),
    {
        self.lemma_record_all(results);
        if results.len() > 0 {
            let front = results.drop_last();
            assert forall|i: int| 0 <= i < front.len() implies front[i] is Ok by {
                assert(front[i] == results[i]);
            }
            self.lemma_all_succeeded(front);
            self.lemma_record_all(front);
            assert(results.last() is Ok);
            assert(failures(self, results) =~= failures(self, front));
            assert forall|i: int| 0 <= i < results.len() implies successes(results)[i]
                == results[i]->Ok_0 by {
                if i < front.len() {
                    assert(successes(results)[i] == successes(front)[i]);
                    assert(front[i] == results[i]);
                }
            }
        }
        assert(self.errors + failures(self, results) =~= self.errors);
    }
}

} // verus!
