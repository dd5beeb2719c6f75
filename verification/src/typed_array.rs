//! Arrays wrapped under a wrapper type whose expected shape is registered.

use vstd::prelude::*;
use vstd::string::StringExecFns;
use crate::array::{reports, RawArray};
use crate::error::{ErrorView, TensorTypeError};
use crate::global::{wrap_error, TensorType};
use crate::kind::ElementKind;

verus! {

/// An array together with the wrapper type it was checked against. When it
/// was made, the array had the shape and the element kind that the wrapper
/// type expects.
pub struct TypedArray<'a, A, const N: usize> {
    array: A,
    ty: &'a TensorType<N>,
}

/// Whether `made` is what wrapping `array` under `ty` gives. Before a shape
/// is registered it is `Uninitialized`, and the array is not looked at.
/// After that the array is wrapped where the shape and the kind that it
/// reports are the expected ones, and else `made` is the error of that
/// check.
pub open spec fn wrapped_as<'a, A: RawArray, const N: usize>(
    ty: &'a TensorType<N>,
    array: A,
    made: Result<TypedArray<'a, A, N>, TensorTypeError>,
) -> bool {
    if ty@.dims is None {
        made matches Err(e) && e@ == (ErrorView::Uninitialized { name: ty@.name })
    } else {
        exists|shape: Seq<i64>, kind: ElementKind|
            reports(&array, shape, kind) && match made {
                Ok(t) => wrap_error(ty@, shape, kind) is None && t.array() == array && t.wrapper()
                    == ty,
                Err(e) => wrap_error(ty@, shape, kind) == Some(e@),
            }
    }
}

impl<'a, A: RawArray, const N: usize> TypedArray<'a, A, N> {
    /// The wrapped array.
    pub closed spec fn array(&self) -> A {
        self.array
    }

    /// The wrapper type that the array is held under.
    pub closed spec fn wrapper(&self) -> &'a TensorType<N> {
        self.ty
    }

    /// Wraps `array` under `ty`, if `ty` has its expected shape registered and
    /// the array has that shape and the element kind of `ty`. The shape is
    /// checked before the kind.
    pub fn new(ty: &'a TensorType<N>, array: A) -> (made: Result<Self, TensorTypeError>)
        ensures
            wrapped_as(ty, array, made),
    {
        if !ty.is_initialized() {
            return Err(TensorTypeError::Uninitialized { name: String::from_str(ty.name()) });
        }
        let found = array.size();
        let kind = array.element_kind();
        let checked = ty.check(found.as_slice(), kind);
        proof {
            assert(reports(&array, found@, kind));
        }
        match checked {
            Ok(_) => Ok(TypedArray { array, ty }),
            Err(e) => Err(e),
        }
    }

    /// Returns the wrapped array.
    pub fn tensor(&self) -> (array: &A)
        ensures
            *array == self.array(),
    {
        &self.array
    }

    /// Returns the wrapped array for changes in place. Nothing is checked
    /// again when it is given back.
    pub fn tensor_mut(&mut self) -> (array: &mut A)
        ensures
            *array == old(self).array(),
            final(self).array() == *final(array),
            final(self).wrapper() == old(self).wrapper(),
    {
        &mut self.array
    }

    /// Runs `transform` on the wrapped array and wraps what it returns under
    /// the same wrapper type, after the same checks as [`TypedArray::new`].
    pub fn apply<F: FnOnce(&A) -> A>(&self, transform: F) -> (made: Result<Self, TensorTypeError>)
        requires
            call_requires(transform, (&self.array(),)),
        ensures
            exists|out: A|
                call_ensures(transform, (&self.array(),), out) && wrapped_as(
                    self.wrapper(),
                    out,
                    made,
                ),
    {
        let out = transform(&self.array);
        let ghost returned = out;
        let made = Self::new(self.ty, out);
        assert(call_ensures(transform, (&self.array(),), returned) && wrapped_as(
            self.wrapper(),
            returned,
            made,
        ));
        made
    }

    /// Returns a second wrapper on the same storage, after the same checks as
    /// [`TypedArray::new`]: what it wraps is the second handle that the
    /// array gives of itself, so that no element is copied.
    pub fn clone(&self) -> (made: Result<Self, TensorTypeError>)
        ensures
            exists|handle: A|
                call_ensures(A::shallow_clone, (&self.array(),), handle) && wrapped_as(
                    self.wrapper(),
                    handle,
                    made,
                ),
    {
        let handle = self.array.shallow_clone();
        let ghost returned = handle;
        let made = Self::new(self.ty, handle);
        assert(call_ensures(A::shallow_clone, (&self.array(),), returned) && wrapped_as(
            self.wrapper(),
            returned,
            made,
        ));
        made
    }

    /// Gives the wrapped array back and ends the wrapper.
    pub fn into_inner(self) -> (array: A)
        ensures
            array == self.array(),
    {
        self.array
    }
}

} // verus!
