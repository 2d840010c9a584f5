use vstd::prelude::*;

verus! {

/// A struct with a fixed-size prefix and a last field that may be unsized.
/// It is unsized exactly when `T` is.
pub struct MaybeUnsizedStruct<T: ?Sized> {
    pub regular: u32,
    pub rest: T,
}

/// The same shape without the fixed-size prefix.
pub struct MaybeUnsizedStruct2<T: ?Sized> {
    value: T,
}

impl<T> MaybeUnsizedStruct2<T> {
    /// Wraps `value`.
    pub fn new(value: T) -> (r: Self)
        ensures
            r.spec_value() == value,
    {
        MaybeUnsizedStruct2 { value }
    }
}

impl<T: ?Sized> MaybeUnsizedStruct2<T> {
    /// The wrapped value.
    pub closed spec fn spec_value(&self) -> &T {
        &self.value
    }

    pub fn value(&self) -> (r: &T)
        ensures
            r == self.spec_value(),
    {
        &self.value
    }
}

/// A value that ends in a sequence of elements: an array, a slice, or a
/// struct whose last field does.
pub trait Trailing {
    type Elem;

    /// The innermost trailing sequence.
    spec fn trailing(&self) -> Seq<Self::Elem>;

    fn trailing_slice(&self) -> (r: &[Self::Elem])
        ensures
            r@ == self.trailing(),
    ;
}

impl<E, const N: usize> Trailing for [E; N] {
    type Elem = E;

    open spec fn trailing(&self) -> Seq<E> {
        self@
    }

    fn trailing_slice(&self) -> (r: &[E]) {
        self.as_slice()
    }
}

impl<E> Trailing for [E] {
    type Elem = E;

    open spec fn trailing(&self) -> Seq<E> {
        self@
    }

    fn trailing_slice(&self) -> (r: &[E]) {
        self
    }
}

impl<T: ?Sized + Trailing> Trailing for MaybeUnsizedStruct<T> {
    type Elem = T::Elem;

    open spec fn trailing(&self) -> Seq<T::Elem> {
        self.rest.trailing()
    }

    fn trailing_slice(&self) -> (r: &[T::Elem]) {
        self.rest.trailing_slice()
    }
}

impl<T: ?Sized + Trailing> Trailing for MaybeUnsizedStruct2<T> {
    type Elem = T::Elem;

    open spec fn trailing(&self) -> Seq<T::Elem> {
        self.spec_value().trailing()
    }

    fn trailing_slice(&self) -> (r: &[T::Elem]) {
        self.value.trailing_slice()
    }
}

/// A struct whose last field is an array has a trailing sequence of the
/// array's length, whatever its value: its size follows from its type alone,
/// so two values of the type end in sequences of the same length.
pub proof fn lemma_sized_count_fixed<E, const N: usize>(
    a: &MaybeUnsizedStruct<[E; N]>,
    b: &MaybeUnsizedStruct<[E; N]>,
)
    ensures
        a.trailing().len() == N,
        b.trailing().len() == a.trailing().len(),
{
}

/// Takes a value and drops it.
pub fn ignore<T>(x: T) {
}

} // verus!
