//! The comparison of an array's shape and kind with the expected ones.

use vstd::prelude::*;
use vstd::slice::slice_to_vec;
use vstd::string::StringExecFns;
use crate::error::{ErrorView, TensorTypeError};
use crate::kind::ElementKind;

verus! {

/// The error that a check of `found_shape` and `found_kind` against the
/// expected ones gives for the wrapper type `name`, or `None` where both
/// agree. The shapes are compared first: where shape and kind both differ,
/// the error speaks of the shape.
pub open spec fn mismatch(
    name: Seq<char>,
    found_shape: Seq<i64>,
    found_kind: ElementKind,
    expected_shape: Seq<i64>,
    expected_kind: ElementKind,
) -> Option<ErrorView> {
    if found_shape != expected_shape {
        Some(ErrorView::ShapeMismatch { name, expected: expected_shape, found: found_shape })
    } else if found_kind != expected_kind {
        Some(ErrorView::KindMismatch { name, expected: expected_kind, found: found_kind })
    } else {
        None
    }
}

/// Whether two shapes have the same length and the same size at each position.
pub fn same_shape(a: &[i64], b: &[i64]) -> (same: bool)
    ensures
        same == (a@ == b@),
{
    if a.len() != b.len() {
        return false;
    }
    let mut i: usize = 0;
    while i < a.len()
        invariant
            a@.len() == b@.len(),
            i <= a@.len(),
            forall|j: int| 0 <= j < i ==> a@[j] == b@[j],
        decreases a@.len() - i,
    {
        if a[i] != b[i] {
            return false;
        }
        i += 1;
    }
    assert(a@ =~= b@);
    true
}

/// Checks an array's shape, then its kind, against what the wrapper type
/// `name` expects.
pub fn validate(
    name: &str,
    found_shape: &[i64],
    found_kind: ElementKind,
    expected_shape: &[i64],
    expected_kind: ElementKind,
) -> (checked: Result<(), TensorTypeError>)
    ensures
        match checked {
            Ok(_) => mismatch(name@, found_shape@, found_kind, expected_shape@, expected_kind)
                is None,
            Err(e) => mismatch(name@, found_shape@, found_kind, expected_shape@, expected_kind)
                == Some(e@),
        },
{
    if !same_shape(found_shape, expected_shape) {
        return Err(
            TensorTypeError::ShapeMismatch {
                name: String::from_str(name),
                expected: slice_to_vec(expected_shape),
                found: slice_to_vec(found_shape),
            },
        );
    }
    if found_kind != expected_kind {
        return Err(
            TensorTypeError::KindMismatch {
                name: String::from_str(name),
                expected: expected_kind,
                found: found_kind,
            },
        );
    }
    Ok(())
}

} // verus!
