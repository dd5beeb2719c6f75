//! Wrapper types whose expected shape is read from a parameter record at
//! each call.

use vstd::prelude::*;
use vstd::slice::slice_to_vec;
use vstd::string::StringExecFns;
use crate::array::{reports, RawArray};
use crate::error::{ErrorView, TensorTypeError};
use crate::kind::ElementKind;
use crate::validator::{mismatch, validate};

verus! {

/// The shape that a list of fields reads out of a parameter record: at each
/// position the value of the field declared for it. A field may stand at
/// several positions.
pub open spec fn expected_dims(fields: Seq<usize>, params: Seq<i64>) -> Seq<i64> {
    Seq::new(fields.len(), |i: int| params[fields[i] as int])
}

/// A wrapper type over parameter records of `M` fields: its name, its
/// element kind, and for each dimension the field that holds its size.
#[derive(Debug)]
pub struct ParamTensorType<const M: usize> {
    name: String,
    kind: ElementKind,
    fields: Vec<usize>,
}

/// The mathematical content of a [`ParamTensorType`].
pub ghost struct ParamTensorTypeView {
    pub name: Seq<char>,
    pub kind: ElementKind,
    pub fields: Seq<usize>,
}

impl<const M: usize> View for ParamTensorType<M> {
    type V = ParamTensorTypeView;

    closed spec fn view(&self) -> ParamTensorTypeView {
        ParamTensorTypeView { name: self.name@, kind: self.kind, fields: self.fields@ }
    }
}

/// The error of wrapping an array of the given shape and kind under `ty`
/// with the record `params`, or `None` where it is wrapped.
pub open spec fn param_error(
    ty: ParamTensorTypeView,
    params: Seq<i64>,
    shape: Seq<i64>,
    kind: ElementKind,
) -> Option<ErrorView> {
    mismatch(ty.name, shape, kind, expected_dims(ty.fields, params), ty.kind)
}

impl<const M: usize> ParamTensorType<M> {
    #[verifier::type_invariant]
    spec fn fields_in_record(&self) -> bool {
        forall|i: int| 0 <= i < self.fields@.len() ==> self.fields@[i] < M
    }

    /// Declares a wrapper type with the given name and element kind whose
    /// dimensions are the given fields, in this order. A field that a record
    /// of `M` fields does not have refuses the declaration.
    pub fn declare(name: &str, fields: &[usize], kind: ElementKind) -> (made: Option<Self>)
        ensures
            made is Some <==> forall|i: int| 0 <= i < fields@.len() ==> fields@[i] < M,
            made matches Some(ty) ==> ty@ == (ParamTensorTypeView {
                name: name@,
                kind,
                fields: fields@,
            }),
    {
        let mut i: usize = 0;
        while i < fields.len()
            invariant
                i <= fields@.len(),
                forall|j: int| 0 <= j < i ==> fields@[j] < M,
            decreases fields@.len() - i,
        {
            if fields[i] >= M {
                return None;
            }
            i += 1;
        }
        Some(ParamTensorType { name: String::from_str(name), kind, fields: slice_to_vec(fields) })
    }

    /// Returns the wrapper type's name.
    pub fn name(&self) -> (name: &str)
        ensures
            name@ == self@.name,
    {
        self.name.as_str()
    }

    /// Returns the element kind that the wrapper type was declared with.
    pub fn kind(&self) -> (kind: ElementKind)
        ensures
            kind == self@.kind,
    {
        self.kind
    }

    /// Returns the fields that hold the sizes, one for each dimension. Each
    /// is a field of a record of `M` fields.
    pub fn fields(&self) -> (fields: &[usize])
        ensures
            fields@ == self@.fields,
            forall|i: int| 0 <= i < fields@.len() ==> fields@[i] < M,
    {
        proof {
            use_type_invariant(self);
        }
        self.fields.as_slice()
    }

    /// Checks a shape and an element kind against what the wrapper type
    /// expects under `params`: the shape first, then the kind.
    pub fn check(&self, found_shape: &[i64], found_kind: ElementKind, params: &[i64; M]) -> (checked:
        Result<(), TensorTypeError>)
        ensures
            match checked {
                Ok(_) => param_error(self@, params@, found_shape@, found_kind) is None,
                Err(e) => param_error(self@, params@, found_shape@, found_kind) == Some(e@),
            },
    {
        let expected = self.expected_shape(params);
        validate(self.name.as_str(), found_shape, found_kind, expected.as_slice(), self.kind)
    }

    /// Reads the expected shape out of `params`.
    pub fn expected_shape(&self, params: &[i64; M]) -> (dims: Vec<i64>)
        ensures
            dims@ == expected_dims(self@.fields, params@),
    {
        proof {
            use_type_invariant(self);
        }
        let mut dims: Vec<i64> = Vec::new();
        let mut i: usize = 0;
        while i < self.fields.len()
            invariant
                i <= self.fields@.len(),
                forall|j: int| 0 <= j < self.fields@.len() ==> self.fields@[j] < M,
                dims@.len() == i,
                forall|j: int| 0 <= j < i ==> dims@[j] == params@[self.fields@[j] as int],
            decreases self.fields@.len() - i,
        {
            dims.push(params[self.fields[i]]);
            i += 1;
        }
        assert(dims@ =~= expected_dims(self@.fields, params@));
        dims
    }
}

/// An array together with the wrapper type it was checked against. When it
/// was made, the array had the shape that the parameter record gave and the
/// element kind that the wrapper type expects.
pub struct ParamTypedArray<'a, A, const M: usize> {
    array: A,
    ty: &'a ParamTensorType<M>,
}

/// Whether `made` is what wrapping `array` under `ty` with the record
/// `params` gives: the array is wrapped where the shape and the kind that it
/// reports are the expected ones, and else `made` is the error of that
/// check.
pub open spec fn wrapped_with<'a, A: RawArray, const M: usize>(
    ty: &'a ParamTensorType<M>,
    array: A,
    params: Seq<i64>,
    made: Result<ParamTypedArray<'a, A, M>, TensorTypeError>,
) -> bool {
    exists|shape: Seq<i64>, kind: ElementKind|
        reports(&array, shape, kind) && match made {
            Ok(t) => param_error(ty@, params, shape, kind) is None && t.array() == array
                && t.wrapper() == ty,
            Err(e) => param_error(ty@, params, shape, kind) == Some(e@),
        }
}

impl<'a, A: RawArray, const M: usize> ParamTypedArray<'a, A, M> {
    /// The wrapped array.
    pub closed spec fn array(&self) -> A {
        self.array
    }

    /// The wrapper type that the array is held under.
    pub closed spec fn wrapper(&self) -> &'a ParamTensorType<M> {
        self.ty
    }

    /// Wraps `array` under `ty`, if the array has the shape that `ty` reads
    /// out of `params` and the element kind of `ty`. The shape is checked
    /// before the kind.
    pub fn new(ty: &'a ParamTensorType<M>, array: A, params: &[i64; M]) -> (made: Result<
        Self,
        TensorTypeError,
    >)
        ensures
            wrapped_with(ty, array, params@, made),
    {
        let found = array.size();
        let kind = array.element_kind();
        let checked = ty.check(found.as_slice(), kind, params);
        proof {
            assert(reports(&array, found@, kind));
        }
        match checked {
            Ok(_) => Ok(ParamTypedArray { array, ty }),
            Err(e) => Err(e),
        }
    }

    /// Returns the wrapped array.
    pub fn tensor(&self) -> (array: &A)
        ensures
            *array == self.array(),
    {
        &self.array
    }

    /// Returns the wrapped array for changes in place. Nothing is checked
    /// again when it is given back.
    pub fn tensor_mut(&mut self) -> (array: &mut A)
        ensures
            *array == old(self).array(),
            final(self).array() == *final(array),
            final(self).wrapper() == old(self).wrapper(),
    {
        &mut self.array
    }

    /// Runs `transform` on the wrapped array and wraps what it returns under
    /// the same wrapper type, after the same checks as
    /// [`ParamTypedArray::new`] with `params`.
    pub fn apply_fn<F: FnOnce(&A) -> A>(&self, transform: F, params: &[i64; M]) -> (made: Result<
        Self,
        TensorTypeError,
    >)
        requires
            call_requires(transform, (&self.array(),)),
        ensures
            exists|out: A|
                call_ensures(transform, (&self.array(),), out) && wrapped_with(
                    self.wrapper(),
                    out,
                    params@,
                    made,
                ),
    {
        let out = transform(&self.array);
        Self::new(self.ty, out, params)
    }

    /// Returns a second wrapper on the same storage, after the same checks as
    /// [`ParamTypedArray::new`] with `params`: what it wraps is the second
    /// handle that the array gives of itself, so that no element is copied.
    pub fn clone(&self, params: &[i64; M]) -> (made: Result<Self, TensorTypeError>)
        ensures
            exists|handle: A|
                call_ensures(A::shallow_clone, (&self.array(),), handle) && wrapped_with(
                    self.wrapper(),
                    handle,
                    params@,
                    made,
                ),
    {
        Self::new(self.ty, self.array.shallow_clone(), params)
    }

    /// Gives the wrapped array back and ends the wrapper.
    pub fn into_inner(self) -> (array: A)
        ensures
            array == self.array(),
    {
        self.array
    }
}

} // verus!
