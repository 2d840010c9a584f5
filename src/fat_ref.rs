use vstd::prelude::*;

use vstd::layout::size_of;

use crate::containers::{MaybeUnsizedStruct, MaybeUnsizedStruct2, Trailing};

verus! {

/// A reference to a value that ends in a sequence, paired with the number of
/// elements in that sequence: the address and the length that an unsized
/// view of the value carries.
pub struct FatRef<'a, T: ?Sized> {
    target: &'a T,
    len: usize,
}

impl<'a, T: ?Sized + Trailing> FatRef<'a, T> {
    /// The referent.
    pub closed spec fn spec_target(&self) -> &'a T {
        self.target
    }

    /// The element count that the reference carries.
    pub closed spec fn spec_len(&self) -> nat {
        self.len as nat
    }

    /// The count matches the referent's trailing sequence.
    pub closed spec fn wf(&self) -> bool {
        self.len as nat == self.target.trailing().len()
    }

    /// Views `target` as unsized: keeps the reference and records the length
    /// of its trailing sequence.
    pub fn new(target: &'a T) -> (r: Self)
        ensures
            r.wf(),
            r.spec_target() == target,
            r.spec_len() == target.trailing().len(),
    {
        let len = target.trailing_slice().len();
        FatRef { target, len }
    }

    pub fn target(&self) -> (r: &'a T)
        ensures
            r == self.spec_target(),
    {
        self.target
    }

    pub fn len(&self) -> (r: usize)
        ensures
            r as nat == self.spec_len(),
    {
        self.len
    }

    /// The trailing sequence, as many elements as the reference carries.
    pub fn tail(&self) -> (r: &'a [T::Elem])
        requires
            self.wf(),
        ensures
            r@ == self.spec_target().trailing(),
            r@.len() == self.spec_len(),
    {
        self.target.trailing_slice()
    }
}

/// A fat reference to a struct whose last field is an array carries the
/// array's length, and its trailing sequence is the array's elements.
pub proof fn lemma_unsized_count<'a, E, const N: usize>(
    s: &'a MaybeUnsizedStruct<[E; N]>,
    f: FatRef<'a, MaybeUnsizedStruct<[E; N]>>,
)
    requires
        f.wf(),
        f.spec_target() == s,
    ensures
        f.spec_len() == N,
        f.spec_target().trailing() == s.rest@,
        f.spec_target().regular == s.regular,
{
}

/// The same holds without the fixed-size prefix: a fat reference to a
/// wrapped array carries the array's length and views its elements.
pub proof fn lemma_unsized_wrapper_count<'a, E, const N: usize>(
    s: &'a MaybeUnsizedStruct2<[E; N]>,
    f: FatRef<'a, MaybeUnsizedStruct2<[E; N]>>,
)
    requires
        f.wf(),
        f.spec_target() == s,
    ensures
        f.spec_len() == N,
        f.spec_target().trailing() == s.spec_value()@,
{
}

/// A fat reference to a struct that nests another one as its last field
/// carries the length of the innermost array alone.
pub proof fn lemma_nested_unsized_count<'a, E, const N: usize>(
    s: &'a MaybeUnsizedStruct<MaybeUnsizedStruct<[E; N]>>,
    f: FatRef<'a, MaybeUnsizedStruct<MaybeUnsizedStruct<[E; N]>>>,
)
    requires
        f.wf(),
        f.spec_target() == s,
    ensures
        f.spec_len() == N,
        f.spec_target().trailing() == s.rest.rest@,
{
}

/// A reference to a reference is plain: its referent has a fixed size, so it
/// is one machine word, whether or not the inner reference is fat. The same
/// holds of a reference to a `FatRef`.
pub proof fn lemma_ref_to_fat_ref_is_plain<'a, T: ?Sized>()
    ensures
        size_of::<&&'a T>() == size_of::<usize>(),
        size_of::<&FatRef<'a, T>>() == size_of::<usize>(),
{
}

} // verus!
