//! Wrapper types whose expected shape is registered once and then trusted.

use vstd::prelude::*;
use vstd::array::array_as_slice;
use vstd::slice::slice_to_vec;
use vstd::string::StringExecFns;
use crate::error::{ErrorView, TensorTypeError};
use crate::kind::ElementKind;
use crate::validator::{mismatch, validate};

verus! {

/// Whether the expected shape of a wrapper type of `N` dimensions has been
/// registered, and with which sizes.
#[derive(Debug, Clone, Copy)]
pub enum RegistrationState<const N: usize> {
    Unregistered,
    Registered([i64; N]),
}

impl<const N: usize> RegistrationState<N> {
    /// The registered shape, if there is one.
    pub open spec fn dims(self) -> Option<Seq<i64>> {
        match self {
            RegistrationState::Unregistered => None,
            RegistrationState::Registered(dims) => Some(dims@),
        }
    }
}

/// A wrapper type of `N` dimensions: its name, its element kind, and the
/// write-once registry of its expected shape.
#[derive(Debug)]
pub struct TensorType<const N: usize> {
    name: String,
    kind: ElementKind,
    state: RegistrationState<N>,
}

/// The mathematical content of a [`TensorType`].
pub ghost struct TensorTypeView {
    pub name: Seq<char>,
    pub kind: ElementKind,
    pub dims: Option<Seq<i64>>,
}

impl<const N: usize> View for TensorType<N> {
    type V = TensorTypeView;

    closed spec fn view(&self) -> TensorTypeView {
        TensorTypeView { name: self.name@, kind: self.kind, dims: self.state.dims() }
    }
}

/// The wrapper type after an attempt to register `values`: the first attempt
/// stores them, a later one changes nothing.
pub open spec fn after_set(before: TensorTypeView, values: Seq<i64>) -> TensorTypeView {
    if before.dims is None {
        TensorTypeView { name: before.name, kind: before.kind, dims: Some(values) }
    } else {
        before
    }
}

/// The error of an attempt to register a shape, or `None` where it succeeds.
pub open spec fn set_error(before: TensorTypeView) -> Option<ErrorView> {
    if before.dims is None {
        None
    } else {
        Some(ErrorView::AlreadyInitialized { name: before.name })
    }
}

/// The error of wrapping an array of the given shape and kind, or `None`
/// where it is wrapped.
pub open spec fn wrap_error(ty: TensorTypeView, shape: Seq<i64>, kind: ElementKind) -> Option<
    ErrorView,
> {
    match ty.dims {
        None => Some(ErrorView::Uninitialized { name: ty.name }),
        Some(dims) => mismatch(ty.name, shape, kind, dims, ty.kind),
    }
}

/// Declares a wrapper type of `N` dimensions with the given name and element
/// kind. Its expected shape is not registered yet.
pub fn tensor_type<const N: usize>(name: &str, kind: ElementKind) -> (ty: TensorType<N>)
    ensures
        ty@ == (TensorTypeView { name: name@, kind, dims: None }),
{
    TensorType { name: String::from_str(name), kind, state: RegistrationState::Unregistered }
}

impl<const N: usize> TensorType<N> {
    /// A registered shape has one size for each declared dimension.
    pub proof fn lemma_arity(&self)
        ensures
            self@.dims matches Some(dims) ==> dims.len() == N,
    {
        broadcast use vstd::array::array_len_matches_n;

    }

    /// Returns the wrapper type's name.
    pub fn name(&self) -> (name: &str)
        ensures
            name@ == self@.name,
    {
        self.name.as_str()
    }

    /// Returns the element kind that the wrapper type was declared with.
    pub fn kind(&self) -> (kind: ElementKind)
        ensures
            kind == self@.kind,
    {
        self.kind
    }

    /// Whether the expected shape has been registered.
    pub fn is_initialized(&self) -> (set: bool)
        ensures
            set == self@.dims is Some,
    {
        match self.state {
            RegistrationState::Unregistered => false,
            RegistrationState::Registered(_) => true,
        }
    }

    /// Returns the registered shape, if there is one.
    pub fn get_dims(&self) -> (dims: Option<Vec<i64>>)
        ensures
            match dims {
                Some(v) => self@.dims == Some(v@) && v@.len() == N,
                None => self@.dims is None,
            },
    {
        broadcast use vstd::array::array_len_matches_n;

        match &self.state {
            RegistrationState::Unregistered => None,
            RegistrationState::Registered(dims) => Some(slice_to_vec(array_as_slice(dims))),
        }
    }

    /// Returns the element kind, once the expected shape has been registered.
    pub fn get_kind(&self) -> (kind: Option<ElementKind>)
        ensures
            kind == if self@.dims is Some {
                Some(self@.kind)
            } else {
                None
            },
    {
        match self.state {
            RegistrationState::Unregistered => None,
            RegistrationState::Registered(_) => Some(self.kind),
        }
    }

    /// Checks a shape and an element kind against what the wrapper type
    /// expects: that its expected shape is registered, then the shape, then
    /// the kind.
    pub fn check(&self, found_shape: &[i64], found_kind: ElementKind) -> (checked: Result<
        (),
        TensorTypeError,
    >)
        ensures
            match checked {
                Ok(_) => wrap_error(self@, found_shape@, found_kind) is None,
                Err(e) => wrap_error(self@, found_shape@, found_kind) == Some(e@),
            },
    {
        match &self.state {
            RegistrationState::Unregistered => Err(
                TensorTypeError::Uninitialized { name: self.name.clone() },
            ),
            RegistrationState::Registered(dims) => validate(
                self.name.as_str(),
                found_shape,
                found_kind,
                array_as_slice(dims),
                self.kind,
            ),
        }
    }

    /// Registers the expected shape, one size for each declared dimension.
    /// Only the first call does so: a later one fails and changes nothing.
    pub fn set(&mut self, values: [i64; N]) -> (done: Result<(), TensorTypeError>)
        ensures
            final(self)@ == after_set(old(self)@, values@),
            match done {
                Ok(_) => set_error(old(self)@) is None,
                Err(e) => set_error(old(self)@) == Some(e@),
            },
    {
        match self.state {
            RegistrationState::Unregistered => {
                self.state = RegistrationState::Registered(values);
                Ok(())
            },
            RegistrationState::Registered(_) => Err(
                TensorTypeError::AlreadyInitialized { name: self.name.clone() },
            ),
        }
    }
}

} // verus!
