//! What holds of registering, wrapping and transforming, whatever the
//! wrapper type and the array.

use vstd::prelude::*;
use crate::array::{is_of, RawArray};
use crate::error::{ErrorView, TensorTypeError};
use crate::explicit::{expected_dims, param_error, wrapped_with, ParamTensorType, ParamTypedArray};
use crate::global::{after_set, set_error, wrap_error, TensorType, TensorTypeView};
use crate::kind::ElementKind;
use crate::typed_array::{wrapped_as, TypedArray};
use crate::validator::mismatch;

verus! {

/// Two shapes are equal exactly where they have the same length and the same
/// size at each position.
pub proof fn lemma_shapes_equal_by_position(a: Seq<i64>, b: Seq<i64>)
    ensures
        a == b <==> (a.len() == b.len() && forall|i: int| 0 <= i < a.len() ==> a[i] == b[i]),
{
    if a.len() == b.len() && (forall|i: int| 0 <= i < a.len() ==> a[i] == b[i]) {
        assert(a =~= b);
    }
}

/// A shape and a kind are accepted exactly where both are the expected
/// ones. Where the shape differs the error is `ShapeMismatch`, whatever the
/// kind, and holds the two shapes that were compared; where only the kind
/// differs it is `KindMismatch` and holds the two kinds.
pub proof fn lemma_mismatch_cases(
    name: Seq<char>,
    found_shape: Seq<i64>,
    found_kind: ElementKind,
    expected_shape: Seq<i64>,
    expected_kind: ElementKind,
)
    ensures
        mismatch(name, found_shape, found_kind, expected_shape, expected_kind) is None <==> (
        found_shape == expected_shape && found_kind == expected_kind),
        found_shape != expected_shape ==> mismatch(
            name,
            found_shape,
            found_kind,
            expected_shape,
            expected_kind,
        ) == Some(ErrorView::ShapeMismatch { name, expected: expected_shape, found: found_shape }),
        found_shape == expected_shape && found_kind != expected_kind ==> mismatch(
            name,
            found_shape,
            found_kind,
            expected_shape,
            expected_kind,
        ) == Some(ErrorView::KindMismatch { name, expected: expected_kind, found: found_kind }),
{
}

/// Wrapping an array that has one shape and one kind has one outcome: the
/// array is wrapped where [`wrap_error`] gives no error, and else the error
/// is the one that [`wrap_error`] gives.
pub proof fn lemma_wrapping_is_decided<'a, A: RawArray, const N: usize>(
    ty: &'a TensorType<N>,
    array: A,
    shape: Seq<i64>,
    kind: ElementKind,
    made: Result<TypedArray<'a, A, N>, TensorTypeError>,
)
    requires
        is_of(&array, shape, kind),
        wrapped_as(ty, array, made),
    ensures
        match made {
            Ok(t) => wrap_error(ty@, shape, kind) is None && t.array() == array && t.wrapper()
                == ty,
            Err(e) => wrap_error(ty@, shape, kind) == Some(e@),
        },
{
}

/// Once the shape `values` has been registered for a wrapper type that had
/// none, an array of that shape and of the declared element kind is wrapped.
pub proof fn lemma_set_then_new_succeeds<'a, A: RawArray, const N: usize>(
    before: TensorTypeView,
    ty: &'a TensorType<N>,
    values: Seq<i64>,
    array: A,
    made: Result<TypedArray<'a, A, N>, TensorTypeError>,
)
    requires
        before.dims is None,
        ty@ == after_set(before, values),
        is_of(&array, values, before.kind),
        wrapped_as(ty, array, made),
    ensures
        set_error(before) is None,
        made matches Ok(t) && t.array() == array && t.wrapper() == ty,
{
}

/// Of two attempts to register a shape the first succeeds and the second
/// fails with `AlreadyInitialized`; after both, the registered shape is the
/// one of the first attempt.
pub proof fn lemma_set_twice(ty: TensorTypeView, first: Seq<i64>, second: Seq<i64>)
    requires
        ty.dims is None,
    ensures
        set_error(ty) is None,
        set_error(after_set(ty, first)) == Some(ErrorView::AlreadyInitialized { name: ty.name }),
        after_set(after_set(ty, first), second).dims == Some(first),
{
}

/// A registered shape stays: no later attempt to register changes the
/// wrapper type.
pub proof fn lemma_registered_shape_is_kept(ty: TensorTypeView, values: Seq<i64>)
    requires
        ty.dims is Some,
    ensures
        after_set(ty, values) == ty,
        set_error(ty) is Some,
{
}

/// Before a shape is registered, wrapping fails with `Uninitialized`,
/// whatever the array.
pub proof fn lemma_new_before_set<'a, A: RawArray, const N: usize>(
    ty: &'a TensorType<N>,
    array: A,
    made: Result<TypedArray<'a, A, N>, TensorTypeError>,
)
    requires
        ty@.dims is None,
        wrapped_as(ty, array, made),
    ensures
        made matches Err(e) && e@ == (ErrorView::Uninitialized { name: ty@.name }),
{
}

/// An array whose shape is not the registered one is refused with
/// `ShapeMismatch`, which holds the registered shape and the array's.
pub proof fn lemma_new_with_wrong_shape<'a, A: RawArray, const N: usize>(
    ty: &'a TensorType<N>,
    expected: Seq<i64>,
    array: A,
    shape: Seq<i64>,
    kind: ElementKind,
    made: Result<TypedArray<'a, A, N>, TensorTypeError>,
)
    requires
        ty@.dims == Some(expected),
        is_of(&array, shape, kind),
        shape != expected,
        wrapped_as(ty, array, made),
    ensures
        made matches Err(e) && e@ == (ErrorView::ShapeMismatch {
            name: ty@.name,
            expected,
            found: shape,
        }),
{
}

/// An array of the registered shape whose element kind is not the declared
/// one is refused with `KindMismatch`, which holds the declared kind and the
/// array's.
pub proof fn lemma_new_with_wrong_kind<'a, A: RawArray, const N: usize>(
    ty: &'a TensorType<N>,
    array: A,
    shape: Seq<i64>,
    kind: ElementKind,
    made: Result<TypedArray<'a, A, N>, TensorTypeError>,
)
    requires
        ty@.dims == Some(shape),
        is_of(&array, shape, kind),
        kind != ty@.kind,
        wrapped_as(ty, array, made),
    ensures
        made matches Err(e) && e@ == (ErrorView::KindMismatch {
            name: ty@.name,
            expected: ty@.kind,
            found: kind,
        }),
{
}

/// Where the wrapped array is one that the wrapper type accepts and the
/// transform returns an array of the same shape and element kind, `apply`
/// wraps what the transform returned, under the same wrapper type.
pub proof fn lemma_apply_keeping_shape_and_kind<'a, A: RawArray, const N: usize>(
    ty: &'a TensorType<N>,
    shape: Seq<i64>,
    kind: ElementKind,
    out: A,
    made: Result<TypedArray<'a, A, N>, TensorTypeError>,
)
    requires
        wrap_error(ty@, shape, kind) is None,
        is_of(&out, shape, kind),
        wrapped_as(ty, out, made),
    ensures
        made matches Ok(t) && t.array() == out && t.wrapper() == ty,
{
}

/// Where the wrapped array is one that the wrapper type accepts and the
/// transform returns an array of another shape, `apply` fails with
/// `ShapeMismatch`, whose expected shape is the one registered for the
/// wrapper type: the shape of the array that went in.
pub proof fn lemma_apply_changing_shape<'a, A: RawArray, const N: usize>(
    ty: &'a TensorType<N>,
    shape: Seq<i64>,
    kind: ElementKind,
    out: A,
    out_shape: Seq<i64>,
    out_kind: ElementKind,
    made: Result<TypedArray<'a, A, N>, TensorTypeError>,
)
    requires
        wrap_error(ty@, shape, kind) is None,
        is_of(&out, out_shape, out_kind),
        out_shape != shape,
        wrapped_as(ty, out, made),
    ensures
        ty@.dims == Some(shape),
        made matches Err(e) && e@ == (ErrorView::ShapeMismatch {
            name: ty@.name,
            expected: shape,
            found: out_shape,
        }),
{
}

/// Wrapping an array that has one shape and one kind under a parameter
/// record has one outcome: the array is wrapped where [`param_error`] gives
/// no error, and else the error is the one that [`param_error`] gives.
pub proof fn lemma_wrapping_with_params_is_decided<'a, A: RawArray, const M: usize>(
    ty: &'a ParamTensorType<M>,
    array: A,
    params: Seq<i64>,
    shape: Seq<i64>,
    kind: ElementKind,
    made: Result<ParamTypedArray<'a, A, M>, TensorTypeError>,
)
    requires
        is_of(&array, shape, kind),
        wrapped_with(ty, array, params, made),
    ensures
        match made {
            Ok(t) => param_error(ty@, params, shape, kind) is None && t.array() == array
                && t.wrapper() == ty,
            Err(e) => param_error(ty@, params, shape, kind) == Some(e@),
        },
{
}

/// Under a parameter record, a transform that changes the shape of an
/// accepted array makes `apply_fn` fail with `ShapeMismatch`, whose expected
/// shape is the one that the record gives for the wrapper type.
pub proof fn lemma_apply_fn_changing_shape<'a, A: RawArray, const M: usize>(
    ty: &'a ParamTensorType<M>,
    params: Seq<i64>,
    shape: Seq<i64>,
    kind: ElementKind,
    out: A,
    out_shape: Seq<i64>,
    out_kind: ElementKind,
    made: Result<ParamTypedArray<'a, A, M>, TensorTypeError>,
)
    requires
        param_error(ty@, params, shape, kind) is None,
        is_of(&out, out_shape, out_kind),
        out_shape != shape,
        wrapped_with(ty, out, params, made),
    ensures
        made matches Err(e) && e@ == (ErrorView::ShapeMismatch {
            name: ty@.name,
            expected: expected_dims(ty@.fields, params),
            found: out_shape,
        }),
{
}

/// The expected shape that a parameter record gives has one size for each
/// declared field, and at each position the value of the field declared
/// there: a field that stands at two positions gives the same size at both.
pub proof fn lemma_expected_dims(fields: Seq<usize>, params: Seq<i64>, i: int, j: int)
    requires
        0 <= i < fields.len(),
        0 <= j < fields.len(),
    ensures
        expected_dims(fields, params).len() == fields.len(),
        expected_dims(fields, params)[i] == params[fields[i] as int],
        fields[i] == fields[j] ==> expected_dims(fields, params)[i] == expected_dims(
            fields,
            params,
        )[j],
{
}

} // verus!
