//! Errors reported by the document model.

use crate::axis::SignedAxis;
use crate::property::ValueType;
use crate::text::{decimal, decimal_text, signed_decimal, signed_decimal_text};
use vstd::prelude::*;
use vstd::string::StringExecFns;

verus! {

/// The broad class an [`Error`] belongs to.
#[derive(Clone, Copy, Debug, PartialEq, Eq, Hash, Structural)]
pub enum ErrorKind {
    /// A required named node is absent.
    NodeNotFound,
    /// A property key is absent from every scope that was searched.
    PropertyNotFound,
    /// A property is present but holds a value of another type than requested.
    PropertyTypeMismatch,
    /// An enumerated value lies outside its valid set.
    InvalidEnumValue,
    /// A numeric value is outside the range accepted for it.
    InvalidNumericValue,
    /// A raw index buffer violates the polygon boundary or length rules.
    MalformedIndexBuffer,
}

/// How a floating-point value is classified.
#[derive(Clone, Copy, Debug, PartialEq, Eq, Hash, Structural)]
pub enum FloatCategory {
    /// Not a number.
    Nan,
    /// Positive or negative infinity.
    Infinite,
    /// Positive or negative zero.
    Zero,
    /// Nonzero, with magnitude below the smallest normal value.
    Subnormal,
    /// Any other value.
    Normal,
}

impl FloatCategory {
    /// The name of this category.
    pub open spec fn spec_name(self) -> Seq<char> {
        match self {
            FloatCategory::Nan => "Nan"@,
            FloatCategory::Infinite => "Infinite"@,
            FloatCategory::Zero => "Zero"@,
            FloatCategory::Subnormal => "Subnormal"@,
            FloatCategory::Normal => "Normal"@,
        }
    }

    /// Returns the name of this category.
    pub fn name(self) -> (r: &'static str)
        ensures
            r@ == self.spec_name(),
    {
        match self {
            FloatCategory::Nan => "Nan",
            FloatCategory::Infinite => "Infinite",
            FloatCategory::Zero => "Zero",
            FloatCategory::Subnormal => "Subnormal",
            FloatCategory::Normal => "Normal",
        }
    }
}

/// An error, with the node, key or value that caused it.
#[derive(Clone, Debug, PartialEq, Eq)]
pub enum Error {
    /// No child node with this name exists where one is required.
    NodeNotFound { name: String },
    /// No property with this key exists in any searched scope.
    PropertyNotFound { key: String },
    /// The property with this key holds a value of type `found`.
    PropertyTypeMismatch { key: String, expected: ValueType, found: ValueType },
    /// The axis code of the named axis is not 0, 1 or 2.
    InvalidAxis { axis_name: String, value: i32 },
    /// The axis sign of the named axis is neither 1 nor -1.
    InvalidAxisSign { axis_name: String, value: i32 },
    /// The three directions do not lie on three different axes.
    InvalidAxisSystem { up: SignedAxis, front: SignedAxis, right: SignedAxis },
    /// The unit scale factor is not a normal floating-point value.
    InvalidUnitScaleFactor { category: FloatCategory },
    /// The polygon that starts at `start` is never closed.
    UnterminatedPolygon { start: usize },
    /// The polygon that starts at `start` has only `len` vertices.
    ShortPolygon { start: usize, len: usize },
}

/// The mathematical content of an [`Error`].
pub ghost enum ErrorView {
    NodeNotFound { name: Seq<char> },
    PropertyNotFound { key: Seq<char> },
    PropertyTypeMismatch { key: Seq<char>, expected: ValueType, found: ValueType },
    InvalidAxis { axis_name: Seq<char>, value: i32 },
    InvalidAxisSign { axis_name: Seq<char>, value: i32 },
    InvalidAxisSystem { up: SignedAxis, front: SignedAxis, right: SignedAxis },
    InvalidUnitScaleFactor { category: FloatCategory },
    UnterminatedPolygon { start: usize },
    ShortPolygon { start: usize, len: usize },
}

impl ErrorView {
    /// The class this error belongs to.
    pub open spec fn kind(self) -> ErrorKind {
        match self {
            ErrorView::NodeNotFound { .. } => ErrorKind::NodeNotFound,
            ErrorView::PropertyNotFound { .. } => ErrorKind::PropertyNotFound,
            ErrorView::PropertyTypeMismatch { .. } => ErrorKind::PropertyTypeMismatch,
            ErrorView::InvalidAxis { .. } => ErrorKind::InvalidEnumValue,
            ErrorView::InvalidAxisSign { .. } => ErrorKind::InvalidEnumValue,
            ErrorView::InvalidAxisSystem { .. } => ErrorKind::InvalidEnumValue,
            ErrorView::InvalidUnitScaleFactor { .. } => ErrorKind::InvalidNumericValue,
            ErrorView::UnterminatedPolygon { .. } => ErrorKind::MalformedIndexBuffer,
            ErrorView::ShortPolygon { .. } => ErrorKind::MalformedIndexBuffer,
        }
    }

    /// A description of this error for a human reader, which names the node,
    /// key or value that caused it.
    pub open spec fn description(self) -> Seq<char> {
        match self {
            ErrorView::NodeNotFound { name } => "expected `/"@ + name + "` node but not found"@,
            ErrorView::PropertyNotFound { key } => "expected `"@ + key
                + "` property but not found"@,
            ErrorView::PropertyTypeMismatch { key, expected, found } => "expected `"@ + key
                + "` property of type "@ + expected.spec_name() + " but got "@ + found.spec_name(),
            ErrorView::InvalidAxis { axis_name, value } => "invalid `"@ + axis_name
                + "Axis` property value: expected 0, 1, or 2 but got "@ + signed_decimal_text(
                value as int,
            ),
            ErrorView::InvalidAxisSign { axis_name, value } => "invalid `"@ + axis_name
                + "AxisSign` property value: expected 1 or -1, but got "@ + signed_decimal_text(
                value as int,
            ),
            ErrorView::InvalidAxisSystem { up, front, right } =>
                "invalid axis system: (up, front, right) = ("@ + up.spec_name() + ", "@
                    + front.spec_name() + ", "@ + right.spec_name() + ")"@,
            ErrorView::InvalidUnitScaleFactor { category } =>
                "expected \"normal\" floating-point number, but got "@ + category.spec_name(),
            ErrorView::UnterminatedPolygon { start } => "polygon that starts at vertex "@
                + decimal_text(start as nat) + " is not closed"@,
            ErrorView::ShortPolygon { start, len } => "polygon that starts at vertex "@
                + decimal_text(start as nat) + " has "@ + decimal_text(len as nat)
                + " vertices, expected at least 3"@,
        }
    }
}

impl View for Error {
    type V = ErrorView;

    open spec fn view(&self) -> ErrorView {
        match *self {
            Error::NodeNotFound { name } => ErrorView::NodeNotFound { name: name@ },
            Error::PropertyNotFound { key } => ErrorView::PropertyNotFound { key: key@ },
            Error::PropertyTypeMismatch { key, expected, found } => ErrorView::PropertyTypeMismatch {
                key: key@,
                expected,
                found,
            },
            Error::InvalidAxis { axis_name, value } => ErrorView::InvalidAxis {
                axis_name: axis_name@,
                value,
            },
            Error::InvalidAxisSign { axis_name, value } => ErrorView::InvalidAxisSign {
                axis_name: axis_name@,
                value,
            },
            Error::InvalidAxisSystem { up, front, right } => ErrorView::InvalidAxisSystem {
                up,
                front,
                right,
            },
            Error::InvalidUnitScaleFactor { category } => ErrorView::InvalidUnitScaleFactor {
                category,
            },
            Error::UnterminatedPolygon { start } => ErrorView::UnterminatedPolygon { start },
            Error::ShortPolygon { start, len } => ErrorView::ShortPolygon { start, len },
        }
    }
}

impl Error {
    /// Returns the class this error belongs to.
    pub fn kind(&self) -> (r: ErrorKind)
        ensures
            r == self@.kind(),
    {
        match self {
            Error::NodeNotFound { .. } => ErrorKind::NodeNotFound,
            Error::PropertyNotFound { .. } => ErrorKind::PropertyNotFound,
            Error::PropertyTypeMismatch { .. } => ErrorKind::PropertyTypeMismatch,
            Error::InvalidAxis { .. } => ErrorKind::InvalidEnumValue,
            Error::InvalidAxisSign { .. } => ErrorKind::InvalidEnumValue,
            Error::InvalidAxisSystem { .. } => ErrorKind::InvalidEnumValue,
            Error::InvalidUnitScaleFactor { .. } => ErrorKind::InvalidNumericValue,
            Error::UnterminatedPolygon { .. } => ErrorKind::MalformedIndexBuffer,
            Error::ShortPolygon { .. } => ErrorKind::MalformedIndexBuffer,
        }
    }
}

impl Error {
    /// Returns a description of this error for a human reader, which names
    /// the node, key or value that caused it.
    pub fn description(&self) -> (r: String)
        ensures
            r@ == self@.description(),
    {
        match self {
            Error::NodeNotFound { name } => "expected `/".to_owned().concat(name.as_str()).concat(
                "` node but not found",
            ),
            Error::PropertyNotFound { key } => "expected `".to_owned().concat(key.as_str()).concat(
                "` property but not found",
            ),
            Error::PropertyTypeMismatch { key, expected, found } => "expected `".to_owned().concat(
                key.as_str(),
            ).concat("` property of type ").concat(expected.name()).concat(" but got ").concat(
                found.name(),
            ),
            Error::InvalidAxis { axis_name, value } => "invalid `".to_owned().concat(
                axis_name.as_str(),
            ).concat("Axis` property value: expected 0, 1, or 2 but got ").concat(
                signed_decimal(*value as i64).as_str(),
            ),
            Error::InvalidAxisSign { axis_name, value } => "invalid `".to_owned().concat(
                axis_name.as_str(),
            ).concat("AxisSign` property value: expected 1 or -1, but got ").concat(
                signed_decimal(*value as i64).as_str(),
            ),
            Error::InvalidAxisSystem { up, front, right } =>
                "invalid axis system: (up, front, right) = (".to_owned().concat(up.name()).concat(
                    ", ",
                ).concat(front.name()).concat(", ").concat(right.name()).concat(")"),
            Error::InvalidUnitScaleFactor { category } =>
                "expected \"normal\" floating-point number, but got ".to_owned().concat(
                    category.name(),
                ),
            Error::UnterminatedPolygon { start } => "polygon that starts at vertex ".to_owned().concat(
                decimal(*start as u64).as_str(),
            ).concat(" is not closed"),
            Error::ShortPolygon { start, len } => "polygon that starts at vertex ".to_owned().concat(
                decimal(*start as u64).as_str(),
            ).concat(" has ").concat(decimal(*len as u64).as_str()).concat(
                " vertices, expected at least 3",
            ),
        }
    }
}

/// The mathematical content of a result: the value as it is, the error by its view.
pub open spec fn result_view<T>(r: Result<T, Error>) -> Result<T, ErrorView> {
    match r {
        Ok(v) => Ok(v),
        Err(e) => Err(e@),
    }
}

/// Two results with the same mathematical content agree: both hold the same
/// value, or both hold errors of the same kind with the same description.
pub proof fn lemma_results_agree<T>(first: Result<T, Error>, second: Result<T, Error>)
    requires
        result_view(first) == result_view(second),
    ensures
        match (first, second) {
            (Ok(a), Ok(b)) => a == b,
            (Err(e), Err(f)) => e@ == f@ && e@.kind() == f@.kind() && e@.description()
                == f@.description(),
            _ => false,
        },
{
}

} // verus!
