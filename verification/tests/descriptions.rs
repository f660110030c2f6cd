use fbxcel_dom::axis::SignedAxis;
use fbxcel_dom::error::{Error, ErrorKind, FloatCategory};
use fbxcel_dom::property::ValueType;
use fbxcel_dom::text::{decimal, digit, signed_decimal};

#[test]
fn decimal_text_is_what_the_standard_library_prints() {
    for n in [0u64, 1, 9, 10, 11, 99, 100, 101, 12345, 1_000_000, u64::MAX, u64::MAX - 1] {
        assert_eq!(decimal(n), format!("{}", n));
    }
    for v in [0i64, 1, -1, 9, -9, 10, -10, 2147483647, -2147483648, i64::MAX, i64::MIN] {
        assert_eq!(signed_decimal(v), format!("{}", v));
    }
    assert_eq!(decimal(4096), "4096");
    assert_eq!(signed_decimal(-4096), "-4096");
    for d in 0..10 {
        assert_eq!(digit(d), format!("{}", d));
    }
}

#[test]
fn descriptions_name_the_node_or_key() {
    assert_eq!(
        Error::NodeNotFound { name: "GlobalSettings".to_string() }.description(),
        "expected `/GlobalSettings` node but not found"
    );
    assert_eq!(
        Error::PropertyNotFound { key: "UpAxis".to_string() }.description(),
        "expected `UpAxis` property but not found"
    );
    assert_eq!(
        Error::PropertyTypeMismatch {
            key: "UnitScaleFactor".to_string(),
            expected: ValueType::F64,
            found: ValueType::String,
        }
        .description(),
        "expected `UnitScaleFactor` property of type f64 but got string"
    );
}

#[test]
fn descriptions_name_the_invalid_component_and_its_value() {
    assert_eq!(
        Error::InvalidAxis { axis_name: "Up".to_string(), value: 3 }.description(),
        "invalid `UpAxis` property value: expected 0, 1, or 2 but got 3"
    );
    assert_eq!(
        Error::InvalidAxis { axis_name: "Coord".to_string(), value: -1 }.description(),
        "invalid `CoordAxis` property value: expected 0, 1, or 2 but got -1"
    );
    assert_eq!(
        Error::InvalidAxisSign { axis_name: "Front".to_string(), value: 0 }.description(),
        "invalid `FrontAxisSign` property value: expected 1 or -1, but got 0"
    );
    assert_eq!(
        Error::InvalidAxisSign { axis_name: "OriginalUp".to_string(), value: i32::MIN }
            .description(),
        "invalid `OriginalUpAxisSign` property value: expected 1 or -1, but got -2147483648"
    );
    assert_eq!(
        Error::InvalidAxisSystem {
            up: SignedAxis::PosY,
            front: SignedAxis::NegY,
            right: SignedAxis::PosX,
        }
        .description(),
        "invalid axis system: (up, front, right) = (+Y, -Y, +X)"
    );
}

#[test]
fn descriptions_of_numeric_and_buffer_errors() {
    assert_eq!(
        Error::InvalidUnitScaleFactor { category: FloatCategory::Subnormal }.description(),
        "expected \"normal\" floating-point number, but got Subnormal"
    );
    assert_eq!(
        Error::UnterminatedPolygon { start: 12 }.description(),
        "polygon that starts at vertex 12 is not closed"
    );
    assert_eq!(
        Error::ShortPolygon { start: 120, len: 2 }.description(),
        "polygon that starts at vertex 120 has 2 vertices, expected at least 3"
    );
}

#[test]
fn every_error_has_its_kind() {
    let errors = [
        (Error::NodeNotFound { name: String::new() }, ErrorKind::NodeNotFound),
        (Error::PropertyNotFound { key: String::new() }, ErrorKind::PropertyNotFound),
        (
            Error::PropertyTypeMismatch {
                key: String::new(),
                expected: ValueType::I32,
                found: ValueType::I16,
            },
            ErrorKind::PropertyTypeMismatch,
        ),
        (Error::InvalidAxis { axis_name: String::new(), value: 3 }, ErrorKind::InvalidEnumValue),
        (
            Error::InvalidAxisSign { axis_name: String::new(), value: 3 },
            ErrorKind::InvalidEnumValue,
        ),
        (
            Error::InvalidAxisSystem {
                up: SignedAxis::PosX,
                front: SignedAxis::PosX,
                right: SignedAxis::PosX,
            },
            ErrorKind::InvalidEnumValue,
        ),
        (
            Error::InvalidUnitScaleFactor { category: FloatCategory::Nan },
            ErrorKind::InvalidNumericValue,
        ),
        (Error::UnterminatedPolygon { start: 0 }, ErrorKind::MalformedIndexBuffer),
        (Error::ShortPolygon { start: 0, len: 1 }, ErrorKind::MalformedIndexBuffer),
    ];
    for (error, kind) in errors {
        assert_eq!(error.kind(), kind);
        assert!(!error.description().is_empty());
    }
}

#[test]
fn names_of_types_axes_and_categories() {
    assert_eq!(ValueType::I16.name(), "i16");
    assert_eq!(ValueType::I32.name(), "i32");
    assert_eq!(ValueType::I64.name(), "i64");
    assert_eq!(ValueType::U16.name(), "u16");
    assert_eq!(ValueType::U32.name(), "u32");
    assert_eq!(ValueType::U64.name(), "u64");
    assert_eq!(ValueType::F32.name(), "f32");
    assert_eq!(ValueType::F64.name(), "f64");
    assert_eq!(ValueType::String.name(), "string");
    assert_eq!(ValueType::Binary.name(), "binary");
    assert_eq!(SignedAxis::PosX.name(), "+X");
    assert_eq!(SignedAxis::NegX.name(), "-X");
    assert_eq!(SignedAxis::PosY.name(), "+Y");
    assert_eq!(SignedAxis::NegY.name(), "-Y");
    assert_eq!(SignedAxis::PosZ.name(), "+Z");
    assert_eq!(SignedAxis::NegZ.name(), "-Z");
    assert_eq!(FloatCategory::Nan.name(), "Nan");
    assert_eq!(FloatCategory::Infinite.name(), "Infinite");
    assert_eq!(FloatCategory::Zero.name(), "Zero");
    assert_eq!(FloatCategory::Subnormal.name(), "Subnormal");
    assert_eq!(FloatCategory::Normal.name(), "Normal");
}
