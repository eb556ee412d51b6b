//! Typed lists of recorded values, one slot per recording.
//!
//! A list grows at its end by [`Append::append`]. A slot holds the value of a
//! recording that succeeded, or nothing where the recording failed or was
//! skipped. A list without empty slots turns into a tuple of its values, in
//! recording order.

use vstd::prelude::*;

verus! {

/// A list of slots, each of which may hold a value.
pub trait ValueList: Sized {
    /// For each slot, in recording order: whether it holds a value.
    spec fn slots(self) -> Seq<bool>;
}

/// Whether every slot holds a value.
pub open spec fn all_present(slots: Seq<bool>) -> bool {
    forall|i: int| 0 <= i < slots.len() ==> slots[i]
}

/// A list with one more slot is without empty slots exactly if the list was
/// and the new slot holds a value.
pub proof fn lemma_push_present(slots: Seq<bool>, last: bool)
    ensures
        all_present(slots.push(last)) <==> all_present(slots) && last,
{
    let pushed = slots.push(last);
    if all_present(pushed) {
        assert(pushed[slots.len() as int]);
        assert forall|i: int| 0 <= i < slots.len() implies slots[i] by {
            assert(pushed[i]);
        }
    }
}

/// A list that can take one more slot for a value of type `E` at its end.
pub trait Append<E>: ValueList {
    /// The type of the list with the new slot.
    type Output: ValueList;

    /// This list with one more slot at its end, holding `elem`.
    spec fn appended(self, elem: Option<E>) -> Self::Output;

    /// The new slot comes last and no other slot changes.
    proof fn lemma_appended_slots(self, elem: Option<E>)
        ensures
            self.appended(elem).slots() == self.slots().push(elem is Some),
    ;

    /// Add a slot holding `elem` at the end of the list.
    fn append(self, elem: Option<E>) -> (out: Self::Output)
        ensures
            out == self.appended(elem),
            out.slots() == self.slots().push(elem is Some),
    ;
}

/// A list that turns into the tuple of its values.
pub trait ToTuple: ValueList {
    /// The tuple type, one component per slot.
    type List;

    /// The values of the slots, in recording order.
    spec fn tuple(self) -> Self::List;

    /// Take the values out of the slots.
    fn unwrap_tuple(self) -> (values: Self::List)
        requires
            all_present(self.slots()),
        ensures
            values == self.tuple(),
    ;
}

/// A list that lends the tuple of its values.
pub trait AsRefTuple<'t>: ValueList {
    /// The tuple type, one reference per slot.
    type Ref;

    /// References to the values of the slots, in recording order.
    spec fn ref_tuple(&'t self) -> Self::Ref;

    /// Borrow the values in the slots.
    fn as_unwraped_tuple(&'t self) -> (values: Self::Ref)
        requires
            all_present(self.slots()),
        ensures
            values == self.ref_tuple(),
    ;
}

/// The list without slots.
#[derive(Debug, Clone, Copy, PartialEq, Eq)]
pub struct Nil;

/// A list of at least one slot.
#[derive(Debug, PartialEq, Eq)]
pub struct Cons<Head, Tail> {
    /// The first slot.
    pub head: Option<Head>,
    /// The slots after the first.
    pub tail: Tail,
}

/// The list of one slot.
pub type List1<A> = Cons<A, Nil>;

/// The list of two slots.
pub type List2<A, B> = Cons<A, List1<B>>;

/// The list of three slots.
pub type List3<A, B, C> = Cons<A, List2<B, C>>;

/// The list of four slots.
pub type List4<A, B, C, D> = Cons<A, List3<B, C, D>>;

/// The list of five slots.
pub type List5<A, B, C, D, E> = Cons<A, List4<B, C, D, E>>;

/// The list of six slots.
pub type List6<A, B, C, D, E, F> = Cons<A, List5<B, C, D, E, F>>;

/// The list of seven slots.
pub type List7<A, B, C, D, E, F, G> = Cons<A, List6<B, C, D, E, F, G>>;

/// The list of eight slots.
pub type List8<A, B, C, D, E, F, G, H> = Cons<A, List7<B, C, D, E, F, G, H>>;

/// The list of nine slots.
pub type List9<A, B, C, D, E, F, G, H, I> = Cons<A, List8<B, C, D, E, F, G, H, I>>;

/// The list of ten slots.
pub type List10<A, B, C, D, E, F, G, H, I, J> = Cons<A, List9<B, C, D, E, F, G, H, I, J>>;

/// The list of eleven slots.
pub type List11<A, B, C, D, E, F, G, H, I, J, K> = Cons<A, List10<B, C, D, E, F, G, H, I, J, K>>;

/// The list of twelve slots.
pub type List12<A, B, C, D, E, F, G, H, I, J, K, L> = Cons<
    A,
    List11<B, C, D, E, F, G, H, I, J, K, L>,
>;

impl<Head: Clone, Tail: Clone> Clone for Cons<Head, Tail> {
    fn clone(&self) -> (copy: Self)
        ensures
            self.head is None ==> copy.head is None,
            self.head is Some ==> copy.head is Some && cloned::<Head>(self.head->0, copy.head->0),
            cloned::<Tail>(self.tail, copy.tail),
    {
        Cons { head: self.head.clone(), tail: self.tail.clone() }
    }
}

impl ValueList for Nil {
    open spec fn slots(self) -> Seq<bool> {
        Seq::empty()
    }
}

impl<H, T: ValueList> ValueList for Cons<H, T> {
    open spec fn slots(self) -> Seq<bool> {
        seq![self.head is Some] + self.tail.slots()
    }
}

/// A list is without empty slots exactly if its first slot holds a value and
/// the rest is without empty slots.
pub proof fn lemma_cons_present<H, T: ValueList>(list: Cons<H, T>)
    ensures
        all_present(list.slots()) <==> list.head is Some && all_present(list.tail.slots()),
{
    let slots = list.slots();
    let rest = list.tail.slots();
    assert(slots[0] == (list.head is Some));
    assert forall|i: int| 0 <= i < rest.len() implies rest[i] == slots[i + 1] by {}
    if list.head is Some && all_present(rest) {
        assert forall|i: int| 0 <= i < slots.len() implies slots[i] by {
            if i > 0 {
                assert(slots[i] == rest[i - 1]);
            }
        }
    }
    if all_present(slots) {
        assert forall|i: int| 0 <= i < rest.len() implies rest[i] by {
            assert(slots[i + 1]);
        }
    }
}

/// Two values recorded one after the other come out in that order.
pub proof fn lemma_recording_order<A, B>(first: A, second: B)
    ensures
        Nil.appended(Some(first)).appended(Some(second)).tuple() == (first, second),
        all_present(Nil.appended(Some(first)).appended(Some(second)).slots()),
{
    let list = Nil.appended(Some(first)).appended(Some(second));
    lemma_cons_present(list);
    lemma_cons_present(list.tail);
}

impl<E> Append<E> for Nil {
    type Output = Cons<E, Nil>;

    open spec fn appended(self, elem: Option<E>) -> Cons<E, Nil> {
        Cons { head: elem, tail: Nil }
    }

    proof fn lemma_appended_slots(self, elem: Option<E>) {
        assert(self.appended(elem).slots() =~= self.slots().push(elem is Some));
    }

    fn append(self, elem: Option<E>) -> (out: Cons<E, Nil>) {
        proof {
            self.lemma_appended_slots(elem);
        }
        Cons { head: elem, tail: Nil }
    }
}

impl<H, T, E> Append<E> for Cons<H, T> where T: Append<E> {
    type Output = Cons<H, T::Output>;

    open spec fn appended(self, elem: Option<E>) -> Cons<H, T::Output> {
        Cons { head: self.head, tail: self.tail.appended(elem) }
    }

    proof fn lemma_appended_slots(self, elem: Option<E>) {
        self.tail.lemma_appended_slots(elem);
        assert(self.appended(elem).slots() =~= self.slots().push(elem is Some));
    }

    fn append(self, elem: Option<E>) -> (out: Cons<H, T::Output>) {
        proof {
            self.lemma_appended_slots(elem);
        }
        Cons { head: self.head, tail: self.tail.append(elem) }
    }
}

impl ToTuple for Nil {
    type List = ();

    open spec fn tuple(self) -> () {
        ()
    }

    fn unwrap_tuple(self) -> (values: ()) {
    }
}

impl<'t> AsRefTuple<'t> for Nil {
    type Ref = ();

    open spec fn ref_tuple(&'t self) -> () {
        ()
    }

    fn as_unwraped_tuple(&'t self) -> (values: ()) {
    }
}

impl<A> ToTuple for List1<A> {
    type List = (A,);

    open spec fn tuple(self) -> (A,) {
        (self.head->0,)
    }

    fn unwrap_tuple(self) -> (values: (A,)) {
        proof {
            lemma_cons_present(self);
        }
        (self.head.unwrap(),)
    }
}

impl<'t, A: 't> AsRefTuple<'t> for List1<A> {
    type Ref = (&'t A,);

    open spec fn ref_tuple(&'t self) -> (&'t A,) {
        (&self.head->0,)
    }

    fn as_unwraped_tuple(&'t self) -> (values: (&'t A,)) {
        proof {
            lemma_cons_present(*self);
        }
        (self.head.as_ref().unwrap(),)
    }
}

impl<A, B> ToTuple for List2<A, B> {
    type List = (A, B);

    open spec fn tuple(self) -> (A, B) {
        (self.head->0, self.tail.head->0)
    }

    fn unwrap_tuple(self) -> (values: (A, B)) {
        proof {
            lemma_cons_present(self);
            lemma_cons_present(self.tail);
        }
        (self.head.unwrap(), self.tail.head.unwrap())
    }
}

impl<'t, A: 't, B: 't> AsRefTuple<'t> for List2<A, B> {
    type Ref = (&'t A, &'t B);

    open spec fn ref_tuple(&'t self) -> (&'t A, &'t B) {
        (&self.head->0, &self.tail.head->0)
    }

    fn as_unwraped_tuple(&'t self) -> (values: (&'t A, &'t B)) {
        proof {
            lemma_cons_present(*self);
            lemma_cons_present(self.tail);
        }
        (self.head.as_ref().unwrap(), self.tail.head.as_ref().unwrap())
    }
}

impl<A, B, C> ToTuple for List3<A, B, C> {
    type List = (A, B, C);

    open spec fn tuple(self) -> (A, B, C) {
        (self.head->0, self.tail.head->0, self.tail.tail.head->0)
    }

    fn unwrap_tuple(self) -> (values: (A, B, C)) {
        proof {
            lemma_cons_present(self);
            lemma_cons_present(self.tail);
            lemma_cons_present(self.tail.tail);
        }
        (self.head.unwrap(), self.tail.head.unwrap(), self.tail.tail.head.unwrap())
    }
}

impl<'t, A: 't, B: 't, C: 't> AsRefTuple<'t> for List3<A, B, C> {
    type Ref = (&'t A, &'t B, &'t C);

    open spec fn ref_tuple(&'t self) -> (&'t A, &'t B, &'t C) {
        (&self.head->0, &self.tail.head->0, &self.tail.tail.head->0)
    }

    fn as_unwraped_tuple(&'t self) -> (values: (&'t A, &'t B, &'t C)) {
        proof {
            lemma_cons_present(*self);
            lemma_cons_present(self.tail);
            lemma_cons_present(self.tail.tail);
        }
        (
            self.head.as_ref().unwrap(),
            self.tail.head.as_ref().unwrap(),
            self.tail.tail.head.as_ref().unwrap(),
        )
    }
}

impl<A, B, C, D> ToTuple for List4<A, B, C, D> {
    type List = (A, B, C, D);

    open spec fn tuple(self) -> (A, B, C, D) {
        (self.head->0, self.tail.head->0, self.tail.tail.head->0, self.tail.tail.tail.head->0)
    }

    fn unwrap_tuple(self) -> (values: (A, B, C, D)) {
        proof {
            lemma_cons_present(self);
            lemma_cons_present(self.tail);
            lemma_cons_present(self.tail.tail);
            lemma_cons_present(self.tail.tail.tail);
        }
        (
            self.head.unwrap(),
            self.tail.head.unwrap(),
            self.tail.tail.head.unwrap(),
            self.tail.tail.tail.head.unwrap(),
        )
    }
}

impl<'t, A: 't, B: 't, C: 't, D: 't> AsRefTuple<'t> for List4<A, B, C, D> {
    type Ref = (&'t A, &'t B, &'t C, &'t D);

    open spec fn ref_tuple(&'t self) -> (&'t A, &'t B, &'t C, &'t D) {
        (&self.head->0, &self.tail.head->0, &self.tail.tail.head->0, &self.tail.tail.tail.head->0)
    }

    fn as_unwraped_tuple(&'t self) -> (values: (&'t A, &'t B, &'t C, &'t D)) {
        proof {
            lemma_cons_present(*self);
            lemma_cons_present(self.tail);
            lemma_cons_present(self.tail.tail);
            lemma_cons_present(self.tail.tail.tail);
        }
        (
            self.head.as_ref().unwrap(),
            self.tail.head.as_ref().unwrap(),
            self.tail.tail.head.as_ref().unwrap(),
            self.tail.tail.tail.head.as_ref().unwrap(),
        )
    }
}

impl<A, B, C, D, E> ToTuple for List5<A, B, C, D, E> {
    type List = (A, B, C, D, E);

    open spec fn tuple(self) -> (A, B, C, D, E) {
        (
            self.head->0,
            self.tail.head->0,
            self.tail.tail.head->0,
            self.tail.tail.tail.head->0,
            self.tail.tail.tail.tail.head->0,
        )
    }

    fn unwrap_tuple(self) -> (values: (A, B, C, D, E)) {
        proof {
            lemma_cons_present(self);
            lemma_cons_present(self.tail);
            lemma_cons_present(self.tail.tail);
            lemma_cons_present(self.tail.tail.tail);
            lemma_cons_present(self.tail.tail.tail.tail);
        }
        (
            self.head.unwrap(),
            self.tail.head.unwrap(),
            self.tail.tail.head.unwrap(),
            self.tail.tail.tail.head.unwrap(),
            self.tail.tail.tail.tail.head.unwrap(),
        )
    }
}

impl<'t, A: 't, B: 't, C: 't, D: 't, E: 't> AsRefTuple<'t> for List5<A, B, C, D, E> {
    type Ref = (&'t A, &'t B, &'t C, &'t D, &'t E);

    open spec fn ref_tuple(&'t self) -> (&'t A, &'t B, &'t C, &'t D, &'t E) {
        (
            &self.head->0,
            &self.tail.head->0,
            &self.tail.tail.head->0,
            &self.tail.tail.tail.head->0,
            &self.tail.tail.tail.tail.head->0,
        )
    }

    fn as_unwraped_tuple(&'t self) -> (values: (&'t A, &'t B, &'t C, &'t D, &'t E)) {
        proof {
            lemma_cons_present(*self);
            lemma_cons_present(self.tail);
            lemma_cons_present(self.tail.tail);
            lemma_cons_present(self.tail.tail.tail);
            lemma_cons_present(self.tail.tail.tail.tail);
        }
        (
            self.head.as_ref().unwrap(),
            self.tail.head.as_ref().unwrap(),
            self.tail.tail.head.as_ref().unwrap(),
            self.tail.tail.tail.head.as_ref().unwrap(),
            self.tail.tail.tail.tail.head.as_ref().unwrap(),
        )
    }
}

impl<A, B, C, D, E, F> ToTuple for List6<A, B, C, D, E, F> {
    type List = (A, B, C, D, E, F);

    open spec fn tuple(self) -> (A, B, C, D, E, F) {
        (
            self.head->0,
            self.tail.head->0,
            self.tail.tail.head->0,
            self.tail.tail.tail.head->0,
            self.tail.tail.tail.tail.head->0,
            self.tail.tail.tail.tail.tail.head->0,
        )
    }

    fn unwrap_tuple(self) -> (values: (A, B, C, D, E, F)) {
        proof {
            lemma_cons_present(self);
            lemma_cons_present(self.tail);
            lemma_cons_present(self.tail.tail);
            lemma_cons_present(self.tail.tail.tail);
            lemma_cons_present(self.tail.tail.tail.tail);
            lemma_cons_present(self.tail.tail.tail.tail.tail);
        }
        (
            self.head.unwrap(),
            self.tail.head.unwrap(),
            self.tail.tail.head.unwrap(),
            self.tail.tail.tail.head.unwrap(),
            self.tail.tail.tail.tail.head.unwrap(),
            self.tail.tail.tail.tail.tail.head.unwrap(),
        )
    }
}

impl<'t, A: 't, B: 't, C: 't, D: 't, E: 't, F: 't> AsRefTuple<'t> for List6<A, B, C, D, E, F> {
    type Ref = (&'t A, &'t B, &'t C, &'t D, &'t E, &'t F);

    open spec fn ref_tuple(&'t self) -> (&'t A, &'t B, &'t C, &'t D, &'t E, &'t F) {
        (
            &self.head->0,
            &self.tail.head->0,
            &self.tail.tail.head->0,
            &self.tail.tail.tail.head->0,
            &self.tail.tail.tail.tail.head->0,
            &self.tail.tail.tail.tail.tail.head->0,
        )
    }

    fn as_unwraped_tuple(&'t self) -> (values: (&'t A, &'t B, &'t C, &'t D, &'t E, &'t F)) {
        proof {
            lemma_cons_present(*self);
            lemma_cons_present(self.tail);
            lemma_cons_present(self.tail.tail);
            lemma_cons_present(self.tail.tail.tail);
            lemma_cons_present(self.tail.tail.tail.tail);
            lemma_cons_present(self.tail.tail.tail.tail.tail);
        }
        (
            self.head.as_ref().unwrap(),
            self.tail.head.as_ref().unwrap(),
            self.tail.tail.head.as_ref().unwrap(),
            self.tail.tail.tail.head.as_ref().unwrap(),
            self.tail.tail.tail.tail.head.as_ref().unwrap(),
            self.tail.tail.tail.tail.tail.head.as_ref().unwrap(),
        )
    }
}

impl<A, B, C, D, E, F, G> ToTuple for List7<A, B, C, D, E, F, G> {
    type List = (A, B, C, D, E, F, G);

    open spec fn tuple(self) -> (A, B, C, D, E, F, G) {
        (
            self.head->0,
            self.tail.head->0,
            self.tail.tail.head->0,
            self.tail.tail.tail.head->0,
            self.tail.tail.tail.tail.head->0,
            self.tail.tail.tail.tail.tail.head->0,
            self.tail.tail.tail.tail.tail.tail.head->0,
        )
    }

    fn unwrap_tuple(self) -> (values: (A, B, C, D, E, F, G)) {
        proof {
            lemma_cons_present(self);
            lemma_cons_present(self.tail);
            lemma_cons_present(self.tail.tail);
            lemma_cons_present(self.tail.tail.tail);
            lemma_cons_present(self.tail.tail.tail.tail);
            lemma_cons_present(self.tail.tail.tail.tail.tail);
            lemma_cons_present(self.tail.tail.tail.tail.tail.tail);
        }
        (
            self.head.unwrap(),
            self.tail.head.unwrap(),
            self.tail.tail.head.unwrap(),
            self.tail.tail.tail.head.unwrap(),
            self.tail.tail.tail.tail.head.unwrap(),
            self.tail.tail.tail.tail.tail.head.unwrap(),
            self.tail.tail.tail.tail.tail.tail.head.unwrap(),
        )
    }
}

impl<
    't,
    A: 't,
    B: 't,
    C: 't,
    D: 't,
    E: 't,
    F: 't,
    G: 't,
> AsRefTuple<'t> for List7<A, B, C, D, E, F, G> {
    type Ref = (&'t A, &'t B, &'t C, &'t D, &'t E, &'t F, &'t G);

    open spec fn ref_tuple(&'t self) -> (&'t A, &'t B, &'t C, &'t D, &'t E, &'t F, &'t G) {
        (
            &self.head->0,
            &self.tail.head->0,
            &self.tail.tail.head->0,
            &self.tail.tail.tail.head->0,
            &self.tail.tail.tail.tail.head->0,
            &self.tail.tail.tail.tail.tail.head->0,
            &self.tail.tail.tail.tail.tail.tail.head->0,
        )
    }

    fn as_unwraped_tuple(&'t self) -> (values: (&'t A, &'t B, &'t C, &'t D, &'t E, &'t F, &'t G)) {
        proof {
            lemma_cons_present(*self);
            lemma_cons_present(self.tail);
            lemma_cons_present(self.tail.tail);
            lemma_cons_present(self.tail.tail.tail);
            lemma_cons_present(self.tail.tail.tail.tail);
            lemma_cons_present(self.tail.tail.tail.tail.tail);
            lemma_cons_present(self.tail.tail.tail.tail.tail.tail);
        }
        (
            self.head.as_ref().unwrap(),
            self.tail.head.as_ref().unwrap(),
            self.tail.tail.head.as_ref().unwrap(),
            self.tail.tail.tail.head.as_ref().unwrap(),
            self.tail.tail.tail.tail.head.as_ref().unwrap(),
            self.tail.tail.tail.tail.tail.head.as_ref().unwrap(),
            self.tail.tail.tail.tail.tail.tail.head.as_ref().unwrap(),
        )
    }
}

impl<A, B, C, D, E, F, G, H> ToTuple for List8<A, B, C, D, E, F, G, H> {
    type List = (A, B, C, D, E, F, G, H);

    open spec fn tuple(self) -> (A, B, C, D, E, F, G, H) {
        (
            self.head->0,
            self.tail.head->0,
            self.tail.tail.head->0,
            self.tail.tail.tail.head->0,
            self.tail.tail.tail.tail.head->0,
            self.tail.tail.tail.tail.tail.head->0,
            self.tail.tail.tail.tail.tail.tail.head->0,
            self.tail.tail.tail.tail.tail.tail.tail.head->0,
        )
    }

    fn unwrap_tuple(self) -> (values: (A, B, C, D, E, F, G, H)) {
        proof {
            lemma_cons_present(self);
            lemma_cons_present(self.tail);
            lemma_cons_present(self.tail.tail);
            lemma_cons_present(self.tail.tail.tail);
            lemma_cons_present(self.tail.tail.tail.tail);
            lemma_cons_present(self.tail.tail.tail.tail.tail);
            lemma_cons_present(self.tail.tail.tail.tail.tail.tail);
            lemma_cons_present(self.tail.tail.tail.tail.tail.tail.tail);
        }
        (
            self.head.unwrap(),
            self.tail.head.unwrap(),
            self.tail.tail.head.unwrap(),
            self.tail.tail.tail.head.unwrap(),
            self.tail.tail.tail.tail.head.unwrap(),
            self.tail.tail.tail.tail.tail.head.unwrap(),
            self.tail.tail.tail.tail.tail.tail.head.unwrap(),
            self.tail.tail.tail.tail.tail.tail.tail.head.unwrap(),
        )
    }
}

impl<
    't,
    A: 't,
    B: 't,
    C: 't,
    D: 't,
    E: 't,
    F: 't,
    G: 't,
    H: 't,
> AsRefTuple<'t> for List8<A, B, C, D, E, F, G, H> {
    type Ref = (&'t A, &'t B, &'t C, &'t D, &'t E, &'t F, &'t G, &'t H);

    open spec fn ref_tuple(&'t self) -> (&'t A, &'t B, &'t C, &'t D, &'t E, &'t F, &'t G, &'t H) {
        (
            &self.head->0,
            &self.tail.head->0,
            &self.tail.tail.head->0,
            &self.tail.tail.tail.head->0,
            &self.tail.tail.tail.tail.head->0,
            &self.tail.tail.tail.tail.tail.head->0,
            &self.tail.tail.tail.tail.tail.tail.head->0,
            &self.tail.tail.tail.tail.tail.tail.tail.head->0,
        )
    }

    fn as_unwraped_tuple(&'t self) -> (values: (
        &'t A,
        &'t B,
        &'t C,
        &'t D,
        &'t E,
        &'t F,
        &'t G,
        &'t H,
    )) {
        proof {
            lemma_cons_present(*self);
            lemma_cons_present(self.tail);
            lemma_cons_present(self.tail.tail);
            lemma_cons_present(self.tail.tail.tail);
            lemma_cons_present(self.tail.tail.tail.tail);
            lemma_cons_present(self.tail.tail.tail.tail.tail);
            lemma_cons_present(self.tail.tail.tail.tail.tail.tail);
            lemma_cons_present(self.tail.tail.tail.tail.tail.tail.tail);
        }
        (
            self.head.as_ref().unwrap(),
            self.tail.head.as_ref().unwrap(),
            self.tail.tail.head.as_ref().unwrap(),
            self.tail.tail.tail.head.as_ref().unwrap(),
            self.tail.tail.tail.tail.head.as_ref().unwrap(),
            self.tail.tail.tail.tail.tail.head.as_ref().unwrap(),
            self.tail.tail.tail.tail.tail.tail.head.as_ref().unwrap(),
            self.tail.tail.tail.tail.tail.tail.tail.head.as_ref().unwrap(),
        )
    }
}

impl<A, B, C, D, E, F, G, H, I> ToTuple for List9<A, B, C, D, E, F, G, H, I> {
    type List = (A, B, C, D, E, F, G, H, I);

    open spec fn tuple(self) -> (A, B, C, D, E, F, G, H, I) {
        (
            self.head->0,
            self.tail.head->0,
            self.tail.tail.head->0,
            self.tail.tail.tail.head->0,
            self.tail.tail.tail.tail.head->0,
            self.tail.tail.tail.tail.tail.head->0,
            self.tail.tail.tail.tail.tail.tail.head->0,
            self.tail.tail.tail.tail.tail.tail.tail.head->0,
            self.tail.tail.tail.tail.tail.tail.tail.tail.head->0,
        )
    }

    fn unwrap_tuple(self) -> (values: (A, B, C, D, E, F, G, H, I)) {
        proof {
            lemma_cons_present(self);
            lemma_cons_present(self.tail);
            lemma_cons_present(self.tail.tail);
            lemma_cons_present(self.tail.tail.tail);
            lemma_cons_present(self.tail.tail.tail.tail);
            lemma_cons_present(self.tail.tail.tail.tail.tail);
            lemma_cons_present(self.tail.tail.tail.tail.tail.tail);
            lemma_cons_present(self.tail.tail.tail.tail.tail.tail.tail);
            lemma_cons_present(self.tail.tail.tail.tail.tail.tail.tail.tail);
        }
        (
            self.head.unwrap(),
            self.tail.head.unwrap(),
            self.tail.tail.head.unwrap(),
            self.tail.tail.tail.head.unwrap(),
            self.tail.tail.tail.tail.head.unwrap(),
            self.tail.tail.tail.tail.tail.head.unwrap(),
            self.tail.tail.tail.tail.tail.tail.head.unwrap(),
            self.tail.tail.tail.tail.tail.tail.tail.head.unwrap(),
            self.tail.tail.tail.tail.tail.tail.tail.tail.head.unwrap(),
        )
    }
}

impl<
    't,
    A: 't,
    B: 't,
    C: 't,
    D: 't,
    E: 't,
    F: 't,
    G: 't,
    H: 't,
    I: 't,
> AsRefTuple<'t> for List9<A, B, C, D, E, F, G, H, I> {
    type Ref = (&'t A, &'t B, &'t C, &'t D, &'t E, &'t F, &'t G, &'t H, &'t I);

    open spec fn ref_tuple(&'t self) -> (
        &'t A,
        &'t B,
        &'t C,
        &'t D,
        &'t E,
        &'t F,
        &'t G,
        &'t H,
        &'t I,
    ) {
        (
            &self.head->0,
            &self.tail.head->0,
            &self.tail.tail.head->0,
            &self.tail.tail.tail.head->0,
            &self.tail.tail.tail.tail.head->0,
            &self.tail.tail.tail.tail.tail.head->0,
            &self.tail.tail.tail.tail.tail.tail.head->0,
            &self.tail.tail.tail.tail.tail.tail.tail.head->0,
            &self.tail.tail.tail.tail.tail.tail.tail.tail.head->0,
        )
    }

    fn as_unwraped_tuple(&'t self) -> (values: (
        &'t A,
        &'t B,
        &'t C,
        &'t D,
        &'t E,
        &'t F,
        &'t G,
        &'t H,
        &'t I,
    )) {
        proof {
            lemma_cons_present(*self);
            lemma_cons_present(self.tail);
            lemma_cons_present(self.tail.tail);
            lemma_cons_present(self.tail.tail.tail);
            lemma_cons_present(self.tail.tail.tail.tail);
            lemma_cons_present(self.tail.tail.tail.tail.tail);
            lemma_cons_present(self.tail.tail.tail.tail.tail.tail);
            lemma_cons_present(self.tail.tail.tail.tail.tail.tail.tail);
            lemma_cons_present(self.tail.tail.tail.tail.tail.tail.tail.tail);
        }
        (
            self.head.as_ref().unwrap(),
            self.tail.head.as_ref().unwrap(),
            self.tail.tail.head.as_ref().unwrap(),
            self.tail.tail.tail.head.as_ref().unwrap(),
            self.tail.tail.tail.tail.head.as_ref().unwrap(),
            self.tail.tail.tail.tail.tail.head.as_ref().unwrap(),
            self.tail.tail.tail.tail.tail.tail.head.as_ref().unwrap(),
            self.tail.tail.tail.tail.tail.tail.tail.head.as_ref().unwrap(),
            self.tail.tail.tail.tail.tail.tail.tail.tail.head.as_ref().unwrap(),
        )
    }
}

impl<A, B, C, D, E, F, G, H, I, J> ToTuple for List10<A, B, C, D, E, F, G, H, I, J> {
    type List = (A, B, C, D, E, F, G, H, I, J);

    open spec fn tuple(self) -> (A, B, C, D, E, F, G, H, I, J) {
        (
            self.head->0,
            self.tail.head->0,
            self.tail.tail.head->0,
            self.tail.tail.tail.head->0,
            self.tail.tail.tail.tail.head->0,
            self.tail.tail.tail.tail.tail.head->0,
            self.tail.tail.tail.tail.tail.tail.head->0,
            self.tail.tail.tail.tail.tail.tail.tail.head->0,
            self.tail.tail.tail.tail.tail.tail.tail.tail.head->0,
            self.tail.tail.tail.tail.tail.tail.tail.tail.tail.head->0,
        )
    }

    fn unwrap_tuple(self) -> (values: (A, B, C, D, E, F, G, H, I, J)) {
        proof {
            lemma_cons_present(self);
            lemma_cons_present(self.tail);
            lemma_cons_present(self.tail.tail);
            lemma_cons_present(self.tail.tail.tail);
            lemma_cons_present(self.tail.tail.tail.tail);
            lemma_cons_present(self.tail.tail.tail.tail.tail);
            lemma_cons_present(self.tail.tail.tail.tail.tail.tail);
            lemma_cons_present(self.tail.tail.tail.tail.tail.tail.tail);
            lemma_cons_present(self.tail.tail.tail.tail.tail.tail.tail.tail);
            lemma_cons_present(self.tail.tail.tail.tail.tail.tail.tail.tail.tail);
        }
        (
            self.head.unwrap(),
            self.tail.head.unwrap(),
            self.tail.tail.head.unwrap(),
            self.tail.tail.tail.head.unwrap(),
            self.tail.tail.tail.tail.head.unwrap(),
            self.tail.tail.tail.tail.tail.head.unwrap(),
            self.tail.tail.tail.tail.tail.tail.head.unwrap(),
            self.tail.tail.tail.tail.tail.tail.tail.head.unwrap(),
            self.tail.tail.tail.tail.tail.tail.tail.tail.head.unwrap(),
            self.tail.tail.tail.tail.tail.tail.tail.tail.tail.head.unwrap(),
        )
    }
}

impl<
    't,
    A: 't,
    B: 't,
    C: 't,
    D: 't,
    E: 't,
    F: 't,
    G: 't,
    H: 't,
    I: 't,
    J: 't,
> AsRefTuple<'t> for List10<A, B, C, D, E, F, G, H, I, J> {
    type Ref = (&'t A, &'t B, &'t C, &'t D, &'t E, &'t F, &'t G, &'t H, &'t I, &'t J);

    open spec fn ref_tuple(&'t self) -> (
        &'t A,
        &'t B,
        &'t C,
        &'t D,
        &'t E,
        &'t F,
        &'t G,
        &'t H,
        &'t I,
        &'t J,
    ) {
        (
            &self.head->0,
            &self.tail.head->0,
            &self.tail.tail.head->0,
            &self.tail.tail.tail.head->0,
            &self.tail.tail.tail.tail.head->0,
            &self.tail.tail.tail.tail.tail.head->0,
            &self.tail.tail.tail.tail.tail.tail.head->0,
            &self.tail.tail.tail.tail.tail.tail.tail.head->0,
            &self.tail.tail.tail.tail.tail.tail.tail.tail.head->0,
            &self.tail.tail.tail.tail.tail.tail.tail.tail.tail.head->0,
        )
    }

    fn as_unwraped_tuple(&'t self) -> (values: (
        &'t A,
        &'t B,
        &'t C,
        &'t D,
        &'t E,
        &'t F,
        &'t G,
        &'t H,
        &'t I,
        &'t J,
    )) {
        proof {
            lemma_cons_present(*self);
            lemma_cons_present(self.tail);
            lemma_cons_present(self.tail.tail);
            lemma_cons_present(self.tail.tail.tail);
            lemma_cons_present(self.tail.tail.tail.tail);
            lemma_cons_present(self.tail.tail.tail.tail.tail);
            lemma_cons_present(self.tail.tail.tail.tail.tail.tail);
            lemma_cons_present(self.tail.tail.tail.tail.tail.tail.tail);
            lemma_cons_present(self.tail.tail.tail.tail.tail.tail.tail.tail);
            lemma_cons_present(self.tail.tail.tail.tail.tail.tail.tail.tail.tail);
        }
        (
            self.head.as_ref().unwrap(),
            self.tail.head.as_ref().unwrap(),
            self.tail.tail.head.as_ref().unwrap(),
            self.tail.tail.tail.head.as_ref().unwrap(),
            self.tail.tail.tail.tail.head.as_ref().unwrap(),
            self.tail.tail.tail.tail.tail.head.as_ref().unwrap(),
            self.tail.tail.tail.tail.tail.tail.head.as_ref().unwrap(),
            self.tail.tail.tail.tail.tail.tail.tail.head.as_ref().unwrap(),
            self.tail.tail.tail.tail.tail.tail.tail.tail.head.as_ref().unwrap(),
            self.tail.tail.tail.tail.tail.tail.tail.tail.tail.head.as_ref().unwrap(),
        )
    }
}

impl<A, B, C, D, E, F, G, H, I, J, K> ToTuple for List11<A, B, C, D, E, F, G, H, I, J, K> {
    type List = (A, B, C, D, E, F, G, H, I, J, K);

    open spec fn tuple(self) -> (A, B, C, D, E, F, G, H, I, J, K) {
        (
            self.head->0,
            self.tail.head->0,
            self.tail.tail.head->0,
            self.tail.tail.tail.head->0,
            self.tail.tail.tail.tail.head->0,
            self.tail.tail.tail.tail.tail.head->0,
            self.tail.tail.tail.tail.tail.tail.head->0,
            self.tail.tail.tail.tail.tail.tail.tail.head->0,
            self.tail.tail.tail.tail.tail.tail.tail.tail.head->0,
            self.tail.tail.tail.tail.tail.tail.tail.tail.tail.head->0,
            self.tail.tail.tail.tail.tail.tail.tail.tail.tail.tail.head->0,
        )
    }

    fn unwrap_tuple(self) -> (values: (A, B, C, D, E, F, G, H, I, J, K)) {
        proof {
            lemma_cons_present(self);
            lemma_cons_present(self.tail);
            lemma_cons_present(self.tail.tail);
            lemma_cons_present(self.tail.tail.tail);
            lemma_cons_present(self.tail.tail.tail.tail);
            lemma_cons_present(self.tail.tail.tail.tail.tail);
            lemma_cons_present(self.tail.tail.tail.tail.tail.tail);
            lemma_cons_present(self.tail.tail.tail.tail.tail.tail.tail);
            lemma_cons_present(self.tail.tail.tail.tail.tail.tail.tail.tail);
            lemma_cons_present(self.tail.tail.tail.tail.tail.tail.tail.tail.tail);
            lemma_cons_present(self.tail.tail.tail.tail.tail.tail.tail.tail.tail.tail);
        }
        (
            self.head.unwrap(),
            self.tail.head.unwrap(),
            self.tail.tail.head.unwrap(),
            self.tail.tail.tail.head.unwrap(),
            self.tail.tail.tail.tail.head.unwrap(),
            self.tail.tail.tail.tail.tail.head.unwrap(),
            self.tail.tail.tail.tail.tail.tail.head.unwrap(),
            self.tail.tail.tail.tail.tail.tail.tail.head.unwrap(),
            self.tail.tail.tail.tail.tail.tail.tail.tail.head.unwrap(),
            self.tail.tail.tail.tail.tail.tail.tail.tail.tail.head.unwrap(),
            self.tail.tail.tail.tail.tail.tail.tail.tail.tail.tail.head.unwrap(),
        )
    }
}

impl<
    't,
    A: 't,
    B: 't,
    C: 't,
    D: 't,
    E: 't,
    F: 't,
    G: 't,
    H: 't,
    I: 't,
    J: 't,
    K: 't,
> AsRefTuple<'t> for List11<A, B, C, D, E, F, G, H, I, J, K> {
    type Ref = (&'t A, &'t B, &'t C, &'t D, &'t E, &'t F, &'t G, &'t H, &'t I, &'t J, &'t K);

    open spec fn ref_tuple(&'t self) -> (
        &'t A,
        &'t B,
        &'t C,
        &'t D,
        &'t E,
        &'t F,
        &'t G,
        &'t H,
        &'t I,
        &'t J,
        &'t K,
    ) {
        (
            &self.head->0,
            &self.tail.head->0,
            &self.tail.tail.head->0,
            &self.tail.tail.tail.head->0,
            &self.tail.tail.tail.tail.head->0,
            &self.tail.tail.tail.tail.tail.head->0,
            &self.tail.tail.tail.tail.tail.tail.head->0,
            &self.tail.tail.tail.tail.tail.tail.tail.head->0,
            &self.tail.tail.tail.tail.tail.tail.tail.tail.head->0,
            &self.tail.tail.tail.tail.tail.tail.tail.tail.tail.head->0,
            &self.tail.tail.tail.tail.tail.tail.tail.tail.tail.tail.head->0,
        )
    }

    fn as_unwraped_tuple(&'t self) -> (values: (
        &'t A,
        &'t B,
        &'t C,
        &'t D,
        &'t E,
        &'t F,
        &'t G,
        &'t H,
        &'t I,
        &'t J,
        &'t K,
    )) {
        proof {
            lemma_cons_present(*self);
            lemma_cons_present(self.tail);
            lemma_cons_present(self.tail.tail);
            lemma_cons_present(self.tail.tail.tail);
            lemma_cons_present(self.tail.tail.tail.tail);
            lemma_cons_present(self.tail.tail.tail.tail.tail);
            lemma_cons_present(self.tail.tail.tail.tail.tail.tail);
            lemma_cons_present(self.tail.tail.tail.tail.tail.tail.tail);
            lemma_cons_present(self.tail.tail.tail.tail.tail.tail.tail.tail);
            lemma_cons_present(self.tail.tail.tail.tail.tail.tail.tail.tail.tail);
            lemma_cons_present(self.tail.tail.tail.tail.tail.tail.tail.tail.tail.tail);
        }
        (
            self.head.as_ref().unwrap(),
            self.tail.head.as_ref().unwrap(),
            self.tail.tail.head.as_ref().unwrap(),
            self.tail.tail.tail.head.as_ref().unwrap(),
            self.tail.tail.tail.tail.head.as_ref().unwrap(),
            self.tail.tail.tail.tail.tail.head.as_ref().unwrap(),
            self.tail.tail.tail.tail.tail.tail.head.as_ref().unwrap(),
            self.tail.tail.tail.tail.tail.tail.tail.head.as_ref().unwrap(),
            self.tail.tail.tail.tail.tail.tail.tail.tail.head.as_ref().unwrap(),
            self.tail.tail.tail.tail.tail.tail.tail.tail.tail.head.as_ref().unwrap(),
            self.tail.tail.tail.tail.tail.tail.tail.tail.tail.tail.head.as_ref().unwrap(),
        )
    }
}

impl<A, B, C, D, E, F, G, H, I, J, K, L> ToTuple for List12<A, B, C, D, E, F, G, H, I, J, K, L> {
    type List = (A, B, C, D, E, F, G, H, I, J, K, L);

    open spec fn tuple(self) -> (A, B, C, D, E, F, G, H, I, J, K, L) {
        (
            self.head->0,
            self.tail.head->0,
            self.tail.tail.head->0,
            self.tail.tail.tail.head->0,
            self.tail.tail.tail.tail.head->0,
            self.tail.tail.tail.tail.tail.head->0,
            self.tail.tail.tail.tail.tail.tail.head->0,
            self.tail.tail.tail.tail.tail.tail.tail.head->0,
            self.tail.tail.tail.tail.tail.tail.tail.tail.head->0,
            self.tail.tail.tail.tail.tail.tail.tail.tail.tail.head->0,
            self.tail.tail.tail.tail.tail.tail.tail.tail.tail.tail.head->0,
            self.tail.tail.tail.tail.tail.tail.tail.tail.tail.tail.tail.head->0,
        )
    }

    fn unwrap_tuple(self) -> (values: (A, B, C, D, E, F, G, H, I, J, K, L)) {
        proof {
            lemma_cons_present(self);
            lemma_cons_present(self.tail);
            lemma_cons_present(self.tail.tail);
            lemma_cons_present(self.tail.tail.tail);
            lemma_cons_present(self.tail.tail.tail.tail);
            lemma_cons_present(self.tail.tail.tail.tail.tail);
            lemma_cons_present(self.tail.tail.tail.tail.tail.tail);
            lemma_cons_present(self.tail.tail.tail.tail.tail.tail.tail);
            lemma_cons_present(self.tail.tail.tail.tail.tail.tail.tail.tail);
            lemma_cons_present(self.tail.tail.tail.tail.tail.tail.tail.tail.tail);
            lemma_cons_present(self.tail.tail.tail.tail.tail.tail.tail.tail.tail.tail);
            lemma_cons_present(self.tail.tail.tail.tail.tail.tail.tail.tail.tail.tail.tail);
        }
        (
            self.head.unwrap(),
            self.tail.head.unwrap(),
            self.tail.tail.head.unwrap(),
            self.tail.tail.tail.head.unwrap(),
            self.tail.tail.tail.tail.head.unwrap(),
            self.tail.tail.tail.tail.tail.head.unwrap(),
            self.tail.tail.tail.tail.tail.tail.head.unwrap(),
            self.tail.tail.tail.tail.tail.tail.tail.head.unwrap(),
            self.tail.tail.tail.tail.tail.tail.tail.tail.head.unwrap(),
            self.tail.tail.tail.tail.tail.tail.tail.tail.tail.head.unwrap(),
            self.tail.tail.tail.tail.tail.tail.tail.tail.tail.tail.head.unwrap(),
            self.tail.tail.tail.tail.tail.tail.tail.tail.tail.tail.tail.head.unwrap(),
        )
    }
}

impl<
    't,
    A: 't,
    B: 't,
    C: 't,
    D: 't,
    E: 't,
    F: 't,
    G: 't,
    H: 't,
    I: 't,
    J: 't,
    K: 't,
    L: 't,
> AsRefTuple<'t> for List12<A, B, C, D, E, F, G, H, I, J, K, L> {
    type Ref = (&'t A, &'t B, &'t C, &'t D, &'t E, &'t F, &'t G, &'t H, &'t I, &'t J, &'t K, &'t L);

    open spec fn ref_tuple(&'t self) -> (
        &'t A,
        &'t B,
        &'t C,
        &'t D,
        &'t E,
        &'t F,
        &'t G,
        &'t H,
        &'t I,
        &'t J,
        &'t K,
        &'t L,
    ) {
        (
            &self.head->0,
            &self.tail.head->0,
            &self.tail.tail.head->0,
            &self.tail.tail.tail.head->0,
            &self.tail.tail.tail.tail.head->0,
            &self.tail.tail.tail.tail.tail.head->0,
            &self.tail.tail.tail.tail.tail.tail.head->0,
            &self.tail.tail.tail.tail.tail.tail.tail.head->0,
            &self.tail.tail.tail.tail.tail.tail.tail.tail.head->0,
            &self.tail.tail.tail.tail.tail.tail.tail.tail.tail.head->0,
            &self.tail.tail.tail.tail.tail.tail.tail.tail.tail.tail.head->0,
            &self.tail.tail.tail.tail.tail.tail.tail.tail.tail.tail.tail.head->0,
        )
    }

    fn as_unwraped_tuple(&'t self) -> (values: (
        &'t A,
        &'t B,
        &'t C,
        &'t D,
        &'t E,
        &'t F,
        &'t G,
        &'t H,
        &'t I,
        &'t J,
        &'t K,
        &'t L,
    )) {
        proof {
            lemma_cons_present(*self);
            lemma_cons_present(self.tail);
            lemma_cons_present(self.tail.tail);
            lemma_cons_present(self.tail.tail.tail);
            lemma_cons_present(self.tail.tail.tail.tail);
            lemma_cons_present(self.tail.tail.tail.tail.tail);
            lemma_cons_present(self.tail.tail.tail.tail.tail.tail);
            lemma_cons_present(self.tail.tail.tail.tail.tail.tail.tail);
            lemma_cons_present(self.tail.tail.tail.tail.tail.tail.tail.tail);
            lemma_cons_present(self.tail.tail.tail.tail.tail.tail.tail.tail.tail);
            lemma_cons_present(self.tail.tail.tail.tail.tail.tail.tail.tail.tail.tail);
            lemma_cons_present(self.tail.tail.tail.tail.tail.tail.tail.tail.tail.tail.tail);
        }
        (
            self.head.as_ref().unwrap(),
            self.tail.head.as_ref().unwrap(),
            self.tail.tail.head.as_ref().unwrap(),
            self.tail.tail.tail.head.as_ref().unwrap(),
            self.tail.tail.tail.tail.head.as_ref().unwrap(),
            self.tail.tail.tail.tail.tail.head.as_ref().unwrap(),
            self.tail.tail.tail.tail.tail.tail.head.as_ref().unwrap(),
            self.tail.tail.tail.tail.tail.tail.tail.head.as_ref().unwrap(),
            self.tail.tail.tail.tail.tail.tail.tail.tail.head.as_ref().unwrap(),
            self.tail.tail.tail.tail.tail.tail.tail.tail.tail.head.as_ref().unwrap(),
            self.tail.tail.tail.tail.tail.tail.tail.tail.tail.tail.head.as_ref().unwrap(),
            self.tail.tail.tail.tail.tail.tail.tail.tail.tail.tail.tail.head.as_ref().unwrap(),
        )
    }
}

} // verus!
