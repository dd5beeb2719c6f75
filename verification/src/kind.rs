//! The element kinds an array can have.

use vstd::prelude::*;

verus! {

/// The representation of an array's elements: a finite tag, fixed for each
/// wrapper type when the type is declared.
#[derive(Clone, Copy, Debug, PartialEq, Eq, Structural, Hash)]
pub enum ElementKind {
    Uint8,
    Int8,
    Int16,
    Int,
    Int64,
    Half,
    Float,
    Double,
    ComplexHalf,
    ComplexFloat,
    ComplexDouble,
    Bool,
    QInt8,
    QUInt8,
    QInt32,
    BFloat16,
    Float8e5m2,
    Float8e4m3fn,
    Float8e5m2fnuz,
    Float8e4m3fnuz,
}

impl ElementKind {
    /// The tag's name as it is written in messages.
    pub open spec fn label(self) -> Seq<char> {
        match self {
            ElementKind::Uint8 => "Uint8"@,
            ElementKind::Int8 => "Int8"@,
            ElementKind::Int16 => "Int16"@,
            ElementKind::Int => "Int"@,
            ElementKind::Int64 => "Int64"@,
            ElementKind::Half => "Half"@,
            ElementKind::Float => "Float"@,
            ElementKind::Double => "Double"@,
            ElementKind::ComplexHalf => "ComplexHalf"@,
            ElementKind::ComplexFloat => "ComplexFloat"@,
            ElementKind::ComplexDouble => "ComplexDouble"@,
            ElementKind::Bool => "Bool"@,
            ElementKind::QInt8 => "QInt8"@,
            ElementKind::QUInt8 => "QUInt8"@,
            ElementKind::QInt32 => "QInt32"@,
            ElementKind::BFloat16 => "BFloat16"@,
            ElementKind::Float8e5m2 => "Float8e5m2"@,
            ElementKind::Float8e4m3fn => "Float8e4m3fn"@,
            ElementKind::Float8e5m2fnuz => "Float8e5m2fnuz"@,
            ElementKind::Float8e4m3fnuz => "Float8e4m3fnuz"@,
        }
    }

    /// Returns the tag's name.
    pub fn name(self) -> (s: &'static str)
        ensures
            s@ == self.label(),
    {
        match self {
            ElementKind::Uint8 => "Uint8",
            ElementKind::Int8 => "Int8",
            ElementKind::Int16 => "Int16",
            ElementKind::Int => "Int",
            ElementKind::Int64 => "Int64",
            ElementKind::Half => "Half",
            ElementKind::Float => "Float",
            ElementKind::Double => "Double",
            ElementKind::ComplexHalf => "ComplexHalf",
            ElementKind::ComplexFloat => "ComplexFloat",
            ElementKind::ComplexDouble => "ComplexDouble",
            ElementKind::Bool => "Bool",
            ElementKind::QInt8 => "QInt8",
            ElementKind::QUInt8 => "QUInt8",
            ElementKind::QInt32 => "QInt32",
            ElementKind::BFloat16 => "BFloat16",
            ElementKind::Float8e5m2 => "Float8e5m2",
            ElementKind::Float8e4m3fn => "Float8e4m3fn",
            ElementKind::Float8e5m2fnuz => "Float8e5m2fnuz",
            ElementKind::Float8e4m3fnuz => "Float8e4m3fnuz",
        }
    }
}

} // verus!
