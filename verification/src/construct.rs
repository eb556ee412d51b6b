//! Helper traits to enable some of this crate's type magic.
//!
//! Closures of up to twelve arguments are constructors and validators. What
//! such a closure accepts and gives is what its own contract says: the lemmas
//! beside the impls state this for each number of arguments.

use crate::cons::{
    all_present, AsRefTuple, List1, List10, List11, List12, List2, List3, List4, List5, List6,
    List7, List8, List9, Nil, ValueList,
};
use crate::error::ValidationError;
use vstd::prelude::*;

verus! {

/// Marker trait for types that can turn a list of values into something else.
///
/// This is used for `on_ok()` methods so the provided closures can take each
/// recorded value as separate argument instead of deconstructing tuples.
///
/// There are implementations for closures with up to 12 arguments.
pub trait Constructor<In, Out>: Sized {
    /// Whether this constructor may be handed `input`.
    spec fn can_construct(self, input: In) -> bool;

    /// Whether this constructor may turn `input` into `out`.
    spec fn constructs(self, input: In, out: Out) -> bool;

    /// Take the input and convert it into output.
    fn construct(self, input: In) -> (out: Out)
        requires
            self.can_construct(input),
        ensures
            self.constructs(input, out),
    ;
}

/// Marker trait for types that can validate a list of values into something
/// potentially fallible.
///
/// There are implementations for closures with up to 12 reference
/// arguments.
pub trait ListValidator<List: ValueList, Out>: Sized {
    /// Whether this validator may be handed `values`.
    spec fn can_validate(self, values: &List) -> bool;

    /// Whether this validator may answer `out` when handed `values`.
    spec fn validates(self, values: &List, out: Result<Out, ValidationError>) -> bool;

    /// Transform an input. May fail doing so.
    fn validate(self, values: &List) -> (out: Result<Out, ValidationError>)
        requires
            all_present(values.slots()),
            self.can_validate(values),
        ensures
            self.validates(values, out),
    ;
}

impl<Out, Func> Constructor<(), Out> for Func
where
    Func: FnMut() -> Out,
{
    open spec fn can_construct(self, input: ()) -> bool {
        call_requires(self, input)
    }

    open spec fn constructs(self, input: (), out: Out) -> bool {
        call_ensures(self, input, out)
    }

    fn construct(self, input: ()) -> (out: Out) {
        let mut construct = self;
        construct()
    }
}

/// What a closure of no arguments accepts and makes as a [`Constructor`]
/// is what its own contract says.
pub proof fn lemma_closure_constructs_0<Out, Func>(construct: Func)
    where Func: FnMut() -> Out,
    ensures
        forall|input: ()|
            #[trigger] construct.can_construct(input) == call_requires(construct, input),
        forall|input: (), out: Out|
            #[trigger] construct.constructs(input, out) == call_ensures(construct, input, out),
{
}

impl<A, Out, Func> Constructor<(A,), Out> for Func
where
    Func: FnMut(A) -> Out,
{
    open spec fn can_construct(self, input: (A,)) -> bool {
        call_requires(self, input)
    }

    open spec fn constructs(self, input: (A,), out: Out) -> bool {
        call_ensures(self, input, out)
    }

    fn construct(self, input: (A,)) -> (out: Out) {
        let mut construct = self;
        let (a,) = input;
        construct(a)
    }
}

/// What a closure of one argument accepts and makes as a [`Constructor`]
/// is what its own contract says.
pub proof fn lemma_closure_constructs_1<A, Out, Func>(construct: Func)
    where Func: FnMut(A) -> Out,
    ensures
        forall|input: (A,)|
            #[trigger] construct.can_construct(input) == call_requires(construct, input),
        forall|input: (A,), out: Out|
            #[trigger] construct.constructs(input, out) == call_ensures(construct, input, out),
{
}

impl<A, B, Out, Func> Constructor<(A, B), Out> for Func
where
    Func: FnMut(A, B) -> Out,
{
    open spec fn can_construct(self, input: (A, B)) -> bool {
        call_requires(self, input)
    }

    open spec fn constructs(self, input: (A, B), out: Out) -> bool {
        call_ensures(self, input, out)
    }

    fn construct(self, input: (A, B)) -> (out: Out) {
        let mut construct = self;
        let (a, b) = input;
        construct(a, b)
    }
}

/// What a closure of two arguments accepts and makes as a [`Constructor`]
/// is what its own contract says.
pub proof fn lemma_closure_constructs_2<A, B, Out, Func>(construct: Func)
    where Func: FnMut(A, B) -> Out,
    ensures
        forall|input: (A, B)|
            #[trigger] construct.can_construct(input) == call_requires(construct, input),
        forall|input: (A, B), out: Out|
            #[trigger] construct.constructs(input, out) == call_ensures(construct, input, out),
{
}

impl<A, B, C, Out, Func> Constructor<(A, B, C), Out> for Func
where
    Func: FnMut(A, B, C) -> Out,
{
    open spec fn can_construct(self, input: (A, B, C)) -> bool {
        call_requires(self, input)
    }

    open spec fn constructs(self, input: (A, B, C), out: Out) -> bool {
        call_ensures(self, input, out)
    }

    fn construct(self, input: (A, B, C)) -> (out: Out) {
        let mut construct = self;
        let (a, b, c) = input;
        construct(a, b, c)
    }
}

/// What a closure of three arguments accepts and makes as a [`Constructor`]
/// is what its own contract says.
pub proof fn lemma_closure_constructs_3<A, B, C, Out, Func>(construct: Func)
    where Func: FnMut(A, B, C) -> Out,
    ensures
        forall|input: (A, B, C)|
            #[trigger] construct.can_construct(input) == call_requires(construct, input),
        forall|input: (A, B, C), out: Out|
            #[trigger] construct.constructs(input, out) == call_ensures(construct, input, out),
{
}

impl<A, B, C, D, Out, Func> Constructor<(A, B, C, D), Out> for Func
where
    Func: FnMut(A, B, C, D) -> Out,
{
    open spec fn can_construct(self, input: (A, B, C, D)) -> bool {
        call_requires(self, input)
    }

    open spec fn constructs(self, input: (A, B, C, D), out: Out) -> bool {
        call_ensures(self, input, out)
    }

    fn construct(self, input: (A, B, C, D)) -> (out: Out) {
        let mut construct = self;
        let (a, b, c, d) = input;
        construct(a, b, c, d)
    }
}

/// What a closure of four arguments accepts and makes as a [`Constructor`]
/// is what its own contract says.
pub proof fn lemma_closure_constructs_4<A, B, C, D, Out, Func>(construct: Func)
    where Func: FnMut(A, B, C, D) -> Out,
    ensures
        forall|input: (A, B, C, D)|
            #[trigger] construct.can_construct(input) == call_requires(construct, input),
        forall|input: (A, B, C, D), out: Out|
            #[trigger] construct.constructs(input, out) == call_ensures(construct, input, out),
{
}

impl<A, B, C, D, E, Out, Func> Constructor<(A, B, C, D, E), Out> for Func
where
    Func: FnMut(A, B, C, D, E) -> Out,
{
    open spec fn can_construct(self, input: (A, B, C, D, E)) -> bool {
        call_requires(self, input)
    }

    open spec fn constructs(self, input: (A, B, C, D, E), out: Out) -> bool {
        call_ensures(self, input, out)
    }

    fn construct(self, input: (A, B, C, D, E)) -> (out: Out) {
        let mut construct = self;
        let (a, b, c, d, e) = input;
        construct(a, b, c, d, e)
    }
}

/// What a closure of five arguments accepts and makes as a [`Constructor`]
/// is what its own contract says.
pub proof fn lemma_closure_constructs_5<A, B, C, D, E, Out, Func>(construct: Func)
    where Func: FnMut(A, B, C, D, E) -> Out,
    ensures
        forall|input: (A, B, C, D, E)|
            #[trigger] construct.can_construct(input) == call_requires(construct, input),
        forall|input: (A, B, C, D, E), out: Out|
            #[trigger] construct.constructs(input, out) == call_ensures(construct, input, out),
{
}

impl<A, B, C, D, E, F, Out, Func> Constructor<(A, B, C, D, E, F), Out> for Func
where
    Func: FnMut(A, B, C, D, E, F) -> Out,
{
    open spec fn can_construct(self, input: (A, B, C, D, E, F)) -> bool {
        call_requires(self, input)
    }

    open spec fn constructs(self, input: (A, B, C, D, E, F), out: Out) -> bool {
        call_ensures(self, input, out)
    }

    fn construct(self, input: (A, B, C, D, E, F)) -> (out: Out) {
        let mut construct = self;
        let (a, b, c, d, e, f) = input;
        construct(a, b, c, d, e, f)
    }
}

/// What a closure of six arguments accepts and makes as a [`Constructor`]
/// is what its own contract says.
pub proof fn lemma_closure_constructs_6<A, B, C, D, E, F, Out, Func>(construct: Func)
    where Func: FnMut(A, B, C, D, E, F) -> Out,
    ensures
        forall|input: (A, B, C, D, E, F)|
            #[trigger] construct.can_construct(input) == call_requires(construct, input),
        forall|input: (A, B, C, D, E, F), out: Out|
            #[trigger] construct.constructs(input, out) == call_ensures(construct, input, out),
{
}

impl<A, B, C, D, E, F, G, Out, Func> Constructor<(A, B, C, D, E, F, G), Out> for Func
where
    Func: FnMut(A, B, C, D, E, F, G) -> Out,
{
    open spec fn can_construct(self, input: (A, B, C, D, E, F, G)) -> bool {
        call_requires(self, input)
    }

    open spec fn constructs(self, input: (A, B, C, D, E, F, G), out: Out) -> bool {
        call_ensures(self, input, out)
    }

    fn construct(self, input: (A, B, C, D, E, F, G)) -> (out: Out) {
        let mut construct = self;
        let (a, b, c, d, e, f, g) = input;
        construct(a, b, c, d, e, f, g)
    }
}

/// What a closure of seven arguments accepts and makes as a [`Constructor`]
/// is what its own contract says.
pub proof fn lemma_closure_constructs_7<A, B, C, D, E, F, G, Out, Func>(construct: Func)
    where Func: FnMut(A, B, C, D, E, F, G) -> Out,
    ensures
        forall|input: (A, B, C, D, E, F, G)|
            #[trigger] construct.can_construct(input) == call_requires(construct, input),
        forall|input: (A, B, C, D, E, F, G), out: Out|
            #[trigger] construct.constructs(input, out) == call_ensures(construct, input, out),
{
}

impl<A, B, C, D, E, F, G, H, Out, Func> Constructor<(A, B, C, D, E, F, G, H), Out> for Func
where
    Func: FnMut(A, B, C, D, E, F, G, H) -> Out,
{
    open spec fn can_construct(self, input: (A, B, C, D, E, F, G, H)) -> bool {
        call_requires(self, input)
    }

    open spec fn constructs(self, input: (A, B, C, D, E, F, G, H), out: Out) -> bool {
        call_ensures(self, input, out)
    }

    fn construct(self, input: (A, B, C, D, E, F, G, H)) -> (out: Out) {
        let mut construct = self;
        let (a, b, c, d, e, f, g, h) = input;
        construct(a, b, c, d, e, f, g, h)
    }
}

/// What a closure of eight arguments accepts and makes as a [`Constructor`]
/// is what its own contract says.
pub proof fn lemma_closure_constructs_8<A, B, C, D, E, F, G, H, Out, Func>(construct: Func)
    where Func: FnMut(A, B, C, D, E, F, G, H) -> Out,
    ensures
        forall|input: (A, B, C, D, E, F, G, H)|
            #[trigger] construct.can_construct(input) == call_requires(construct, input),
        forall|input: (A, B, C, D, E, F, G, H), out: Out|
            #[trigger] construct.constructs(input, out) == call_ensures(construct, input, out),
{
}

impl<A, B, C, D, E, F, G, H, I, Out, Func> Constructor<(A, B, C, D, E, F, G, H, I), Out> for Func
where
    Func: FnMut(A, B, C, D, E, F, G, H, I) -> Out,
{
    open spec fn can_construct(self, input: (A, B, C, D, E, F, G, H, I)) -> bool {
        call_requires(self, input)
    }

    open spec fn constructs(self, input: (A, B, C, D, E, F, G, H, I), out: Out) -> bool {
        call_ensures(self, input, out)
    }

    fn construct(self, input: (A, B, C, D, E, F, G, H, I)) -> (out: Out) {
        let mut construct = self;
        let (a, b, c, d, e, f, g, h, i) = input;
        construct(a, b, c, d, e, f, g, h, i)
    }
}

/// What a closure of nine arguments accepts and makes as a [`Constructor`]
/// is what its own contract says.
pub proof fn lemma_closure_constructs_9<A, B, C, D, E, F, G, H, I, Out, Func>(construct: Func)
    where Func: FnMut(A, B, C, D, E, F, G, H, I) -> Out,
    ensures
        forall|input: (A, B, C, D, E, F, G, H, I)|
            #[trigger] construct.can_construct(input) == call_requires(construct, input),
        forall|input: (A, B, C, D, E, F, G, H, I), out: Out|
            #[trigger] construct.constructs(input, out) == call_ensures(construct, input, out),
{
}

impl<
    A,
    B,
    C,
    D,
    E,
    F,
    G,
    H,
    I,
    J,
    Out,
    Func,
> Constructor<(A, B, C, D, E, F, G, H, I, J), Out> for Func
where
    Func: FnMut(A, B, C, D, E, F, G, H, I, J) -> Out,
{
    open spec fn can_construct(self, input: (A, B, C, D, E, F, G, H, I, J)) -> bool {
        call_requires(self, input)
    }

    open spec fn constructs(self, input: (A, B, C, D, E, F, G, H, I, J), out: Out) -> bool {
        call_ensures(self, input, out)
    }

    fn construct(self, input: (A, B, C, D, E, F, G, H, I, J)) -> (out: Out) {
        let mut construct = self;
        let (a, b, c, d, e, f, g, h, i, j) = input;
        construct(a, b, c, d, e, f, g, h, i, j)
    }
}

/// What a closure of ten arguments accepts and makes as a [`Constructor`]
/// is what its own contract says.
pub proof fn lemma_closure_constructs_10<A, B, C, D, E, F, G, H, I, J, Out, Func>(construct: Func)
    where Func: FnMut(A, B, C, D, E, F, G, H, I, J) -> Out,
    ensures
        forall|input: (A, B, C, D, E, F, G, H, I, J)|
            #[trigger] construct.can_construct(input) == call_requires(construct, input),
        forall|input: (A, B, C, D, E, F, G, H, I, J), out: Out|
            #[trigger] construct.constructs(input, out) == call_ensures(construct, input, out),
{
}

impl<
    A,
    B,
    C,
    D,
    E,
    F,
    G,
    H,
    I,
    J,
    K,
    Out,
    Func,
> Constructor<(A, B, C, D, E, F, G, H, I, J, K), Out> for Func
where
    Func: FnMut(A, B, C, D, E, F, G, H, I, J, K) -> Out,
{
    open spec fn can_construct(self, input: (A, B, C, D, E, F, G, H, I, J, K)) -> bool {
        call_requires(self, input)
    }

    open spec fn constructs(self, input: (A, B, C, D, E, F, G, H, I, J, K), out: Out) -> bool {
        call_ensures(self, input, out)
    }

    fn construct(self, input: (A, B, C, D, E, F, G, H, I, J, K)) -> (out: Out) {
        let mut construct = self;
        let (a, b, c, d, e, f, g, h, i, j, k) = input;
        construct(a, b, c, d, e, f, g, h, i, j, k)
    }
}

/// What a closure of eleven arguments accepts and makes as a [`Constructor`]
/// is what its own contract says.
pub proof fn lemma_closure_constructs_11<
    A,
    B,
    C,
    D,
    E,
    F,
    G,
    H,
    I,
    J,
    K,
    Out,
    Func,
>(construct: Func)
    where Func: FnMut(A, B, C, D, E, F, G, H, I, J, K) -> Out,
    ensures
        forall|input: (A, B, C, D, E, F, G, H, I, J, K)|
            #[trigger] construct.can_construct(input) == call_requires(construct, input),
        forall|input: (A, B, C, D, E, F, G, H, I, J, K), out: Out|
            #[trigger] construct.constructs(input, out) == call_ensures(construct, input, out),
{
}

impl<
    A,
    B,
    C,
    D,
    E,
    F,
    G,
    H,
    I,
    J,
    K,
    L,
    Out,
    Func,
> Constructor<(A, B, C, D, E, F, G, H, I, J, K, L), Out> for Func
where
    Func: FnMut(A, B, C, D, E, F, G, H, I, J, K, L) -> Out,
{
    open spec fn can_construct(self, input: (A, B, C, D, E, F, G, H, I, J, K, L)) -> bool {
        call_requires(self, input)
    }

    open spec fn constructs(self, input: (A, B, C, D, E, F, G, H, I, J, K, L), out: Out) -> bool {
        call_ensures(self, input, out)
    }

    fn construct(self, input: (A, B, C, D, E, F, G, H, I, J, K, L)) -> (out: Out) {
        let mut construct = self;
        let (a, b, c, d, e, f, g, h, i, j, k, l) = input;
        construct(a, b, c, d, e, f, g, h, i, j, k, l)
    }
}

/// What a closure of twelve arguments accepts and makes as a [`Constructor`]
/// is what its own contract says.
pub proof fn lemma_closure_constructs_12<
    A,
    B,
    C,
    D,
    E,
    F,
    G,
    H,
    I,
    J,
    K,
    L,
    Out,
    Func,
>(construct: Func)
    where Func: FnMut(A, B, C, D, E, F, G, H, I, J, K, L) -> Out,
    ensures
        forall|input: (A, B, C, D, E, F, G, H, I, J, K, L)|
            #[trigger] construct.can_construct(input) == call_requires(construct, input),
        forall|input: (A, B, C, D, E, F, G, H, I, J, K, L), out: Out|
            #[trigger] construct.constructs(input, out) == call_ensures(construct, input, out),
{
}

impl<Out, Func> ListValidator<Nil, Out> for Func
where
    Func: FnMut() -> Result<Out, ValidationError>,
{
    open spec fn can_validate(self, values: &Nil) -> bool {
        call_requires(self, values.ref_tuple())
    }

    open spec fn validates(self, values: &Nil, out: Result<Out, ValidationError>) -> bool {
        call_ensures(self, values.ref_tuple(), out)
    }

    fn validate(self, values: &Nil) -> (out: Result<Out, ValidationError>) {
        let mut validate = self;
        validate()
    }
}

/// What a closure of no arguments accepts and answers as a
/// [`ListValidator`] is what its own contract says.
pub proof fn lemma_closure_validates_0<Out, Func>(validate: Func)
    where Func: FnMut() -> Result<Out, ValidationError>,
    ensures
        forall|values: &Nil|
            #[trigger] validate.can_validate(values) == call_requires(
                validate,
                values.ref_tuple(),
            ),
        forall|values: &Nil, out: Result<Out, ValidationError>|
            #[trigger] validate.validates(values, out) == call_ensures(
                validate,
                values.ref_tuple(),
                out,
            ),
{
}

impl<A, Out, Func> ListValidator<List1<A>, Out> for Func
where
    Func: for<'a> FnMut(&'a A) -> Result<Out, ValidationError>,
{
    open spec fn can_validate(self, values: &List1<A>) -> bool {
        call_requires(self, values.ref_tuple())
    }

    open spec fn validates(self, values: &List1<A>, out: Result<Out, ValidationError>) -> bool {
        call_ensures(self, values.ref_tuple(), out)
    }

    fn validate(self, values: &List1<A>) -> (out: Result<Out, ValidationError>) {
        let mut validate = self;
        let (a,) = values.as_unwraped_tuple();
        validate(a)
    }
}

/// What a closure of one argument accepts and answers as a
/// [`ListValidator`] is what its own contract says.
pub proof fn lemma_closure_validates_1<A, Out, Func>(validate: Func)
    where Func: for<'a> FnMut(&'a A) -> Result<Out, ValidationError>,
    ensures
        forall|values: &List1<A>|
            #[trigger] validate.can_validate(values) == call_requires(
                validate,
                values.ref_tuple(),
            ),
        forall|values: &List1<A>, out: Result<Out, ValidationError>|
            #[trigger] validate.validates(values, out) == call_ensures(
                validate,
                values.ref_tuple(),
                out,
            ),
{
}

impl<A, B, Out, Func> ListValidator<List2<A, B>, Out> for Func
where
    Func: for<'a> FnMut(&'a A, &'a B) -> Result<Out, ValidationError>,
{
    open spec fn can_validate(self, values: &List2<A, B>) -> bool {
        call_requires(self, values.ref_tuple())
    }

    open spec fn validates(self, values: &List2<A, B>, out: Result<Out, ValidationError>) -> bool {
        call_ensures(self, values.ref_tuple(), out)
    }

    fn validate(self, values: &List2<A, B>) -> (out: Result<Out, ValidationError>) {
        let mut validate = self;
        let (a, b) = values.as_unwraped_tuple();
        validate(a, b)
    }
}

/// What a closure of two arguments accepts and answers as a
/// [`ListValidator`] is what its own contract says.
pub proof fn lemma_closure_validates_2<A, B, Out, Func>(validate: Func)
    where Func: for<'a> FnMut(&'a A, &'a B) -> Result<Out, ValidationError>,
    ensures
        forall|values: &List2<A, B>|
            #[trigger] validate.can_validate(values) == call_requires(
                validate,
                values.ref_tuple(),
            ),
        forall|values: &List2<A, B>, out: Result<Out, ValidationError>|
            #[trigger] validate.validates(values, out) == call_ensures(
                validate,
                values.ref_tuple(),
                out,
            ),
{
}

impl<A, B, C, Out, Func> ListValidator<List3<A, B, C>, Out> for Func
where
    Func: for<'a> FnMut(&'a A, &'a B, &'a C) -> Result<Out, ValidationError>,
{
    open spec fn can_validate(self, values: &List3<A, B, C>) -> bool {
        call_requires(self, values.ref_tuple())
    }

    open spec fn validates(
        self,
        values: &List3<A, B, C>,
        out: Result<Out, ValidationError>,
    ) -> bool {
        call_ensures(self, values.ref_tuple(), out)
    }

    fn validate(self, values: &List3<A, B, C>) -> (out: Result<Out, ValidationError>) {
        let mut validate = self;
        let (a, b, c) = values.as_unwraped_tuple();
        validate(a, b, c)
    }
}

/// What a closure of three arguments accepts and answers as a
/// [`ListValidator`] is what its own contract says.
pub proof fn lemma_closure_validates_3<A, B, C, Out, Func>(validate: Func)
    where Func: for<'a> FnMut(&'a A, &'a B, &'a C) -> Result<Out, ValidationError>,
    ensures
        forall|values: &List3<A, B, C>|
            #[trigger] validate.can_validate(values) == call_requires(
                validate,
                values.ref_tuple(),
            ),
        forall|values: &List3<A, B, C>, out: Result<Out, ValidationError>|
            #[trigger] validate.validates(values, out) == call_ensures(
                validate,
                values.ref_tuple(),
                out,
            ),
{
}

impl<A, B, C, D, Out, Func> ListValidator<List4<A, B, C, D>, Out> for Func
where
    Func: for<'a> FnMut(&'a A, &'a B, &'a C, &'a D) -> Result<Out, ValidationError>,
{
    open spec fn can_validate(self, values: &List4<A, B, C, D>) -> bool {
        call_requires(self, values.ref_tuple())
    }

    open spec fn validates(
        self,
        values: &List4<A, B, C, D>,
        out: Result<Out, ValidationError>,
    ) -> bool {
        call_ensures(self, values.ref_tuple(), out)
    }

    fn validate(self, values: &List4<A, B, C, D>) -> (out: Result<Out, ValidationError>) {
        let mut validate = self;
        let (a, b, c, d) = values.as_unwraped_tuple();
        validate(a, b, c, d)
    }
}

/// What a closure of four arguments accepts and answers as a
/// [`ListValidator`] is what its own contract says.
pub proof fn lemma_closure_validates_4<A, B, C, D, Out, Func>(validate: Func)
    where Func: for<'a> FnMut(&'a A, &'a B, &'a C, &'a D) -> Result<Out, ValidationError>,
    ensures
        forall|values: &List4<A, B, C, D>|
            #[trigger] validate.can_validate(values) == call_requires(
                validate,
                values.ref_tuple(),
            ),
        forall|values: &List4<A, B, C, D>, out: Result<Out, ValidationError>|
            #[trigger] validate.validates(values, out) == call_ensures(
                validate,
                values.ref_tuple(),
                out,
            ),
{
}

impl<A, B, C, D, E, Out, Func> ListValidator<List5<A, B, C, D, E>, Out> for Func
where
    Func: for<'a> FnMut(&'a A, &'a B, &'a C, &'a D, &'a E) -> Result<Out, ValidationError>,
{
    open spec fn can_validate(self, values: &List5<A, B, C, D, E>) -> bool {
        call_requires(self, values.ref_tuple())
    }

    open spec fn validates(
        self,
        values: &List5<A, B, C, D, E>,
        out: Result<Out, ValidationError>,
    ) -> bool {
        call_ensures(self, values.ref_tuple(), out)
    }

    fn validate(self, values: &List5<A, B, C, D, E>) -> (out: Result<Out, ValidationError>) {
        let mut validate = self;
        let (a, b, c, d, e) = values.as_unwraped_tuple();
        validate(a, b, c, d, e)
    }
}

/// What a closure of five arguments accepts and answers as a
/// [`ListValidator`] is what its own contract says.
pub proof fn lemma_closure_validates_5<A, B, C, D, E, Out, Func>(validate: Func)
    where Func: for<'a> FnMut(&'a A, &'a B, &'a C, &'a D, &'a E) -> Result<Out, ValidationError>,
    ensures
        forall|values: &List5<A, B, C, D, E>|
            #[trigger] validate.can_validate(values) == call_requires(
                validate,
                values.ref_tuple(),
            ),
        forall|values: &List5<A, B, C, D, E>, out: Result<Out, ValidationError>|
            #[trigger] validate.validates(values, out) == call_ensures(
                validate,
                values.ref_tuple(),
                out,
            ),
{
}

impl<A, B, C, D, E, F, Out, Func> ListValidator<List6<A, B, C, D, E, F>, Out> for Func
where
    Func: for<'a> FnMut(&'a A, &'a B, &'a C, &'a D, &'a E, &'a F) -> Result<Out, ValidationError>,
{
    open spec fn can_validate(self, values: &List6<A, B, C, D, E, F>) -> bool {
        call_requires(self, values.ref_tuple())
    }

    open spec fn validates(
        self,
        values: &List6<A, B, C, D, E, F>,
        out: Result<Out, ValidationError>,
    ) -> bool {
        call_ensures(self, values.ref_tuple(), out)
    }

    fn validate(self, values: &List6<A, B, C, D, E, F>) -> (out: Result<Out, ValidationError>) {
        let mut validate = self;
        let (a, b, c, d, e, f) = values.as_unwraped_tuple();
        validate(a, b, c, d, e, f)
    }
}

/// What a closure of six arguments accepts and answers as a
/// [`ListValidator`] is what its own contract says.
pub proof fn lemma_closure_validates_6<A, B, C, D, E, F, Out, Func>(validate: Func)
    where Func: for<'a> FnMut(
        &'a A,
        &'a B,
        &'a C,
        &'a D,
        &'a E,
        &'a F,
    ) -> Result<Out, ValidationError>,
    ensures
        forall|values: &List6<A, B, C, D, E, F>|
            #[trigger] validate.can_validate(values) == call_requires(
                validate,
                values.ref_tuple(),
            ),
        forall|values: &List6<A, B, C, D, E, F>, out: Result<Out, ValidationError>|
            #[trigger] validate.validates(values, out) == call_ensures(
                validate,
                values.ref_tuple(),
                out,
            ),
{
}

impl<A, B, C, D, E, F, G, Out, Func> ListValidator<List7<A, B, C, D, E, F, G>, Out> for Func
where
    Func: for<'a> FnMut(
        &'a A,
        &'a B,
        &'a C,
        &'a D,
        &'a E,
        &'a F,
        &'a G,
    ) -> Result<Out, ValidationError>,
{
    open spec fn can_validate(self, values: &List7<A, B, C, D, E, F, G>) -> bool {
        call_requires(self, values.ref_tuple())
    }

    open spec fn validates(
        self,
        values: &List7<A, B, C, D, E, F, G>,
        out: Result<Out, ValidationError>,
    ) -> bool {
        call_ensures(self, values.ref_tuple(), out)
    }

    fn validate(self, values: &List7<A, B, C, D, E, F, G>) -> (out: Result<Out, ValidationError>) {
        let mut validate = self;
        let (a, b, c, d, e, f, g) = values.as_unwraped_tuple();
        validate(a, b, c, d, e, f, g)
    }
}

/// What a closure of seven arguments accepts and answers as a
/// [`ListValidator`] is what its own contract says.
pub proof fn lemma_closure_validates_7<A, B, C, D, E, F, G, Out, Func>(validate: Func)
    where Func: for<'a> FnMut(
        &'a A,
        &'a B,
        &'a C,
        &'a D,
        &'a E,
        &'a F,
        &'a G,
    ) -> Result<Out, ValidationError>,
    ensures
        forall|values: &List7<A, B, C, D, E, F, G>|
            #[trigger] validate.can_validate(values) == call_requires(
                validate,
                values.ref_tuple(),
            ),
        forall|values: &List7<A, B, C, D, E, F, G>, out: Result<Out, ValidationError>|
            #[trigger] validate.validates(values, out) == call_ensures(
                validate,
                values.ref_tuple(),
                out,
            ),
{
}

impl<A, B, C, D, E, F, G, H, Out, Func> ListValidator<List8<A, B, C, D, E, F, G, H>, Out> for Func
where
    Func: for<'a> FnMut(
        &'a A,
        &'a B,
        &'a C,
        &'a D,
        &'a E,
        &'a F,
        &'a G,
        &'a H,
    ) -> Result<Out, ValidationError>,
{
    open spec fn can_validate(self, values: &List8<A, B, C, D, E, F, G, H>) -> bool {
        call_requires(self, values.ref_tuple())
    }

    open spec fn validates(
        self,
        values: &List8<A, B, C, D, E, F, G, H>,
        out: Result<Out, ValidationError>,
    ) -> bool {
        call_ensures(self, values.ref_tuple(), out)
    }

    fn validate(
        self,
        values: &List8<A, B, C, D, E, F, G, H>,
    ) -> (out: Result<Out, ValidationError>) {
        let mut validate = self;
        let (a, b, c, d, e, f, g, h) = values.as_unwraped_tuple();
        validate(a, b, c, d, e, f, g, h)
    }
}

/// What a closure of eight arguments accepts and answers as a
/// [`ListValidator`] is what its own contract says.
pub proof fn lemma_closure_validates_8<A, B, C, D, E, F, G, H, Out, Func>(validate: Func)
    where Func: for<'a> FnMut(
        &'a A,
        &'a B,
        &'a C,
        &'a D,
        &'a E,
        &'a F,
        &'a G,
        &'a H,
    ) -> Result<Out, ValidationError>,
    ensures
        forall|values: &List8<A, B, C, D, E, F, G, H>|
            #[trigger] validate.can_validate(values) == call_requires(
                validate,
                values.ref_tuple(),
            ),
        forall|values: &List8<A, B, C, D, E, F, G, H>, out: Result<Out, ValidationError>|
            #[trigger] validate.validates(values, out) == call_ensures(
                validate,
                values.ref_tuple(),
                out,
            ),
{
}

impl<
    A,
    B,
    C,
    D,
    E,
    F,
    G,
    H,
    I,
    Out,
    Func,
> ListValidator<List9<A, B, C, D, E, F, G, H, I>, Out> for Func
where
    Func: for<'a> FnMut(
        &'a A,
        &'a B,
        &'a C,
        &'a D,
        &'a E,
        &'a F,
        &'a G,
        &'a H,
        &'a I,
    ) -> Result<Out, ValidationError>,
{
    open spec fn can_validate(self, values: &List9<A, B, C, D, E, F, G, H, I>) -> bool {
        call_requires(self, values.ref_tuple())
    }

    open spec fn validates(
        self,
        values: &List9<A, B, C, D, E, F, G, H, I>,
        out: Result<Out, ValidationError>,
    ) -> bool {
        call_ensures(self, values.ref_tuple(), out)
    }

    fn validate(
        self,
        values: &List9<A, B, C, D, E, F, G, H, I>,
    ) -> (out: Result<Out, ValidationError>) {
        let mut validate = self;
        let (a, b, c, d, e, f, g, h, i) = values.as_unwraped_tuple();
        validate(a, b, c, d, e, f, g, h, i)
    }
}

/// What a closure of nine arguments accepts and answers as a
/// [`ListValidator`] is what its own contract says.
pub proof fn lemma_closure_validates_9<A, B, C, D, E, F, G, H, I, Out, Func>(validate: Func)
    where Func: for<'a> FnMut(
        &'a A,
        &'a B,
        &'a C,
        &'a D,
        &'a E,
        &'a F,
        &'a G,
        &'a H,
        &'a I,
    ) -> Result<Out, ValidationError>,
    ensures
        forall|values: &List9<A, B, C, D, E, F, G, H, I>|
            #[trigger] validate.can_validate(values) == call_requires(
                validate,
                values.ref_tuple(),
            ),
        forall|values: &List9<A, B, C, D, E, F, G, H, I>, out: Result<Out, ValidationError>|
            #[trigger] validate.validates(values, out) == call_ensures(
                validate,
                values.ref_tuple(),
                out,
            ),
{
}

impl<
    A,
    B,
    C,
    D,
    E,
    F,
    G,
    H,
    I,
    J,
    Out,
    Func,
> ListValidator<List10<A, B, C, D, E, F, G, H, I, J>, Out> for Func
where
    Func: for<'a> FnMut(
        &'a A,
        &'a B,
        &'a C,
        &'a D,
        &'a E,
        &'a F,
        &'a G,
        &'a H,
        &'a I,
        &'a J,
    ) -> Result<Out, ValidationError>,
{
    open spec fn can_validate(self, values: &List10<A, B, C, D, E, F, G, H, I, J>) -> bool {
        call_requires(self, values.ref_tuple())
    }

    open spec fn validates(
        self,
        values: &List10<A, B, C, D, E, F, G, H, I, J>,
        out: Result<Out, ValidationError>,
    ) -> bool {
        call_ensures(self, values.ref_tuple(), out)
    }

    fn validate(
        self,
        values: &List10<A, B, C, D, E, F, G, H, I, J>,
    ) -> (out: Result<Out, ValidationError>) {
        let mut validate = self;
        let (a, b, c, d, e, f, g, h, i, j) = values.as_unwraped_tuple();
        validate(a, b, c, d, e, f, g, h, i, j)
    }
}

/// What a closure of ten arguments accepts and answers as a
/// [`ListValidator`] is what its own contract says.
pub proof fn lemma_closure_validates_10<A, B, C, D, E, F, G, H, I, J, Out, Func>(validate: Func)
    where Func: for<'a> FnMut(
        &'a A,
        &'a B,
        &'a C,
        &'a D,
        &'a E,
        &'a F,
        &'a G,
        &'a H,
        &'a I,
        &'a J,
    ) -> Result<Out, ValidationError>,
    ensures
        forall|values: &List10<A, B, C, D, E, F, G, H, I, J>|
            #[trigger] validate.can_validate(values) == call_requires(
                validate,
                values.ref_tuple(),
            ),
        forall|values: &List10<A, B, C, D, E, F, G, H, I, J>, out: Result<Out, ValidationError>|
            #[trigger] validate.validates(values, out) == call_ensures(
                validate,
                values.ref_tuple(),
                out,
            ),
{
}

impl<
    A,
    B,
    C,
    D,
    E,
    F,
    G,
    H,
    I,
    J,
    K,
    Out,
    Func,
> ListValidator<List11<A, B, C, D, E, F, G, H, I, J, K>, Out> for Func
where
    Func: for<'a> FnMut(
        &'a A,
        &'a B,
        &'a C,
        &'a D,
        &'a E,
        &'a F,
        &'a G,
        &'a H,
        &'a I,
        &'a J,
        &'a K,
    ) -> Result<Out, ValidationError>,
{
    open spec fn can_validate(self, values: &List11<A, B, C, D, E, F, G, H, I, J, K>) -> bool {
        call_requires(self, values.ref_tuple())
    }

    open spec fn validates(
        self,
        values: &List11<A, B, C, D, E, F, G, H, I, J, K>,
        out: Result<Out, ValidationError>,
    ) -> bool {
        call_ensures(self, values.ref_tuple(), out)
    }

    fn validate(
        self,
        values: &List11<A, B, C, D, E, F, G, H, I, J, K>,
    ) -> (out: Result<Out, ValidationError>) {
        let mut validate = self;
        let (a, b, c, d, e, f, g, h, i, j, k) = values.as_unwraped_tuple();
        validate(a, b, c, d, e, f, g, h, i, j, k)
    }
}

/// What a closure of eleven arguments accepts and answers as a
/// [`ListValidator`] is what its own contract says.
pub proof fn lemma_closure_validates_11<A, B, C, D, E, F, G, H, I, J, K, Out, Func>(validate: Func)
    where Func: for<'a> FnMut(
        &'a A,
        &'a B,
        &'a C,
        &'a D,
        &'a E,
        &'a F,
        &'a G,
        &'a H,
        &'a I,
        &'a J,
        &'a K,
    ) -> Result<Out, ValidationError>,
    ensures
        forall|values: &List11<A, B, C, D, E, F, G, H, I, J, K>|
            #[trigger] validate.can_validate(values) == call_requires(
                validate,
                values.ref_tuple(),
            ),
        forall|values: &List11<A, B, C, D, E, F, G, H, I, J, K>, out: Result<Out, ValidationError>|
            #[trigger] validate.validates(values, out) == call_ensures(
                validate,
                values.ref_tuple(),
                out,
            ),
{
}

impl<
    A,
    B,
    C,
    D,
    E,
    F,
    G,
    H,
    I,
    J,
    K,
    L,
    Out,
    Func,
> ListValidator<List12<A, B, C, D, E, F, G, H, I, J, K, L>, Out> for Func
where
    Func: for<'a> FnMut(
        &'a A,
        &'a B,
        &'a C,
        &'a D,
        &'a E,
        &'a F,
        &'a G,
        &'a H,
        &'a I,
        &'a J,
        &'a K,
        &'a L,
    ) -> Result<Out, ValidationError>,
{
    open spec fn can_validate(self, values: &List12<A, B, C, D, E, F, G, H, I, J, K, L>) -> bool {
        call_requires(self, values.ref_tuple())
    }

    open spec fn validates(
        self,
        values: &List12<A, B, C, D, E, F, G, H, I, J, K, L>,
        out: Result<Out, ValidationError>,
    ) -> bool {
        call_ensures(self, values.ref_tuple(), out)
    }

    fn validate(
        self,
        values: &List12<A, B, C, D, E, F, G, H, I, J, K, L>,
    ) -> (out: Result<Out, ValidationError>) {
        let mut validate = self;
        let (a, b, c, d, e, f, g, h, i, j, k, l) = values.as_unwraped_tuple();
        validate(a, b, c, d, e, f, g, h, i, j, k, l)
    }
}

/// What a closure of twelve arguments accepts and answers as a
/// [`ListValidator`] is what its own contract says.
pub proof fn lemma_closure_validates_12<
    A,
    B,
    C,
    D,
    E,
    F,
    G,
    H,
    I,
    J,
    K,
    L,
    Out,
    Func,
>(validate: Func)
    where Func: for<'a> FnMut(
        &'a A,
        &'a B,
        &'a C,
        &'a D,
        &'a E,
        &'a F,
        &'a G,
        &'a H,
        &'a I,
        &'a J,
        &'a K,
        &'a L,
    ) -> Result<Out, ValidationError>,
    ensures
        forall|values: &List12<A, B, C, D, E, F, G, H, I, J, K, L>|
            #[trigger] validate.can_validate(values) == call_requires(
                validate,
                values.ref_tuple(),
            ),
        forall|
            values: &List12<A, B, C, D, E, F, G, H, I, J, K, L>,
            out: Result<Out, ValidationError>,
        |
            #[trigger] validate.validates(values, out) == call_ensures(
                validate,
                values.ref_tuple(),
                out,
            ),
{
}

} // verus!
