//! The errors that wrapping, transforming and registering can return.

use vstd::prelude::*;
use vstd::string::StringExecFns;
use crate::kind::ElementKind;
use crate::text::{debug_quoted, list_text, push_list, quoted};

verus! {

/// What went wrong, with the name of the wrapper type it went wrong on.
#[derive(Debug, Clone)]
#[allow(inconsistent_fields)]
pub enum TensorTypeError {
    /// The array's shape is not the expected one.
    ShapeMismatch { name: String, expected: Vec<i64>, found: Vec<i64> },
    /// The array's element kind is not the expected one.
    KindMismatch { name: String, expected: ElementKind, found: ElementKind },
    /// An array was wrapped before the expected shape was registered.
    Uninitialized { name: String },
    /// The expected shape was registered a second time.
    AlreadyInitialized { name: String },
}

/// The mathematical content of a [`TensorTypeError`].
#[allow(inconsistent_fields)]
pub ghost enum ErrorView {
    ShapeMismatch { name: Seq<char>, expected: Seq<i64>, found: Seq<i64> },
    KindMismatch { name: Seq<char>, expected: ElementKind, found: ElementKind },
    Uninitialized { name: Seq<char> },
    AlreadyInitialized { name: Seq<char> },
}

impl View for TensorTypeError {
    type V = ErrorView;

    open spec fn view(&self) -> ErrorView {
        match *self {
            TensorTypeError::ShapeMismatch { name, expected, found } => ErrorView::ShapeMismatch {
                name: name@,
                expected: expected@,
                found: found@,
            },
            TensorTypeError::KindMismatch { name, expected, found } => ErrorView::KindMismatch {
                name: name@,
                expected,
                found,
            },
            TensorTypeError::Uninitialized { name } => ErrorView::Uninitialized {
                name: name@,
            },
            TensorTypeError::AlreadyInitialized { name } => ErrorView::AlreadyInitialized {
                name: name@,
            },
        }
    }
}

impl ErrorView {
    /// The name of the wrapper type that the error is about.
    pub open spec fn name(self) -> Seq<char> {
        match self {
            ErrorView::ShapeMismatch { name, .. } => name,
            ErrorView::KindMismatch { name, .. } => name,
            ErrorView::Uninitialized { name } => name,
            ErrorView::AlreadyInitialized { name } => name,
        }
    }
}

/// The text of an error, given the quoted name of the wrapper type: what
/// went wrong on which type, then what was expected, then what was found.
pub open spec fn rendered(e: ErrorView, quoted_name: Seq<char>) -> Seq<char> {
    match e {
        ErrorView::ShapeMismatch { name, expected, found } => "shape mismatch on TensorType "@
            + quoted_name + ": expected dimensions "@ + list_text(expected) + ", found "@
            + list_text(found),
        ErrorView::KindMismatch { name, expected, found } => "kind mismatch on TensorType "@
            + quoted_name + ": expected kind "@ + expected.label() + ", found "@ + found.label(),
        ErrorView::Uninitialized { name } => "new() called on uninitialized TensorType "@
            + quoted_name,
        ErrorView::AlreadyInitialized { name } => "set() called on already initialized TensorType "@
            + quoted_name,
    }
}

impl TensorTypeError {
    /// Returns the name of the wrapper type that the error is about.
    pub fn name(&self) -> (name: &str)
        ensures
            name@ == self@.name(),
    {
        match self {
            TensorTypeError::ShapeMismatch { name, .. } => name.as_str(),
            TensorTypeError::KindMismatch { name, .. } => name.as_str(),
            TensorTypeError::Uninitialized { name } => name.as_str(),
            TensorTypeError::AlreadyInitialized { name } => name.as_str(),
        }
    }

    /// Returns the error's text around the given quoted name of the wrapper
    /// type.
    pub fn render(&self, quoted_name: &str) -> (text: String)
        ensures
            text@ == rendered(self@, quoted_name@),
    {
        match self {
            TensorTypeError::ShapeMismatch { name, expected, found } => {
                let mut text = String::from_str("shape mismatch on TensorType ");
                text.append(quoted_name);
                text.append(": expected dimensions ");
                push_list(&mut text, expected.as_slice());
                text.append(", found ");
                push_list(&mut text, found.as_slice());
                text
            },
            TensorTypeError::KindMismatch { name, expected, found } => {
                let mut text = String::from_str("kind mismatch on TensorType ");
                text.append(quoted_name);
                text.append(": expected kind ");
                text.append(expected.name());
                text.append(", found ");
                text.append(found.name());
                text
            },
            TensorTypeError::Uninitialized { name } => {
                let mut text = String::from_str("new() called on uninitialized TensorType ");
                text.append(quoted_name);
                text
            },
            TensorTypeError::AlreadyInitialized { name } => {
                let mut text = String::from_str("set() called on already initialized TensorType ");
                text.append(quoted_name);
                text
            },
        }
    }

    /// Returns the error's text: what went wrong on which wrapper type, then
    /// what was expected, then what was found. The name stands in it as
    /// `Debug` writes a string.
    pub fn message(&self) -> (text: String)
        ensures
            text@ == rendered(self@, debug_quoted(self@.name())),
    {
        let quoted_name = quoted(self.name());
        self.render(quoted_name.as_str())
    }
}

} // verus!
