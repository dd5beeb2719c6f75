//! What the wrappers ask of the arrays they hold.

use vstd::prelude::*;
use vstd::slice::slice_to_vec;
use crate::kind::ElementKind;

verus! {

/// An array value of some array library, as far as the wrappers look into it:
/// its shape, its element kind, and a second handle on its storage.
pub trait RawArray: Sized {
    /// Returns the sizes of the array's axes, outermost first.
    fn size(&self) -> Vec<i64>;

    /// Returns the representation of the array's elements.
    fn element_kind(&self) -> ElementKind;

    /// Returns a second handle on the same storage: no element is copied.
    fn shallow_clone(&self) -> Self;
}

/// Whether `array` can report the shape `shape` and the element kind `kind`.
pub open spec fn reports<A: RawArray>(array: &A, shape: Seq<i64>, kind: ElementKind) -> bool {
    &&& exists|dims: Vec<i64>| dims@ == shape && call_ensures(A::size, (array,), dims)
    &&& call_ensures(A::element_kind, (array,), kind)
}

/// Whether `array` has the shape `shape` and the element kind `kind`: it
/// reports these and no others.
pub open spec fn is_of<A: RawArray>(array: &A, shape: Seq<i64>, kind: ElementKind) -> bool {
    forall|s: Seq<i64>, k: ElementKind| #[trigger] reports(array, s, k) ==> s == shape && k == kind
}

/// The shape and element kind of an array that is kept elsewhere, with the
/// number under which its storage is known there.
#[derive(Debug)]
pub struct ArrayDescriptor {
    pub dims: Vec<i64>,
    pub kind: ElementKind,
    pub storage: u64,
}

impl ArrayDescriptor {
    /// Describes an array of the given shape and kind in the given storage.
    pub fn new(dims: &[i64], kind: ElementKind, storage: u64) -> (d: Self)
        ensures
            d.dims@ == dims@,
            d.kind == kind,
            d.storage == storage,
    {
        ArrayDescriptor { dims: slice_to_vec(dims), kind, storage }
    }
}

impl RawArray for ArrayDescriptor {
    fn size(&self) -> (dims: Vec<i64>)
        ensures
            dims@ == self.dims@,
    {
        slice_to_vec(self.dims.as_slice())
    }

    fn element_kind(&self) -> (kind: ElementKind)
        ensures
            kind == self.kind,
    {
        self.kind
    }

    fn shallow_clone(&self) -> (handle: Self)
        ensures
            handle.dims@ == self.dims@,
            handle.kind == self.kind,
            handle.storage == self.storage,
    {
        ArrayDescriptor {
            dims: slice_to_vec(self.dims.as_slice()),
            kind: self.kind,
            storage: self.storage,
        }
    }
}

/// A descriptor has the shape and the kind that it holds.
pub proof fn lemma_descriptor_is_of(d: &ArrayDescriptor)
    ensures
        is_of(d, d.dims@, d.kind),
{
}

} // verus!
