//! Loaders, which decode a stored property value into a requested type.

use crate::property::{PropertyValue, ValueType};
use std::marker::PhantomData;
use vstd::prelude::*;

verus! {

/// A stored value whose type tag is not the requested one.
#[derive(Clone, Copy, Debug, PartialEq, Eq, Hash, Structural)]
pub struct TypeMismatch {
    /// The requested type.
    pub expected: ValueType,
    /// The type of the stored value.
    pub found: ValueType,
}

/// Decoding of a stored value into the type a caller asks for.
///
/// A loader never converts between types: it either returns the payload of a
/// value that has the expected tag, or reports the tag it found instead.
pub trait LoadProperty {
    /// The type that is decoded.
    type Value;

    /// What the loader decodes from a value.
    spec fn spec_load(&self, value: PropertyValue) -> Result<Self::Value, TypeMismatch>;

    /// Decodes a value.
    fn load(&self, value: &PropertyValue) -> (r: Result<Self::Value, TypeMismatch>)
        ensures
            r == self.spec_load(*value),
    ;
}

/// The mismatch between an expected tag and the tag of a stored value.
pub open spec fn mismatch(expected: ValueType, value: PropertyValue) -> TypeMismatch {
    TypeMismatch { expected, found: value.spec_value_type() }
}

/// Loader of a primitive integer type `T`.
pub struct PrimitiveLoader<T> {
    marker: PhantomData<T>,
}

impl<T> PrimitiveLoader<T> {
    /// Creates a loader.
    pub fn new() -> (r: Self) {
        PrimitiveLoader { marker: PhantomData }
    }
}

impl LoadProperty for PrimitiveLoader<i16> {
    type Value = i16;

    open spec fn spec_load(&self, value: PropertyValue) -> Result<i16, TypeMismatch> {
        match value {
            PropertyValue::I16(v) => Ok(v),
            _ => Err(mismatch(ValueType::I16, value)),
        }
    }

    fn load(&self, value: &PropertyValue) -> (r: Result<i16, TypeMismatch>) {
        match value {
            PropertyValue::I16(v) => Ok(*v),
            _ => Err(TypeMismatch { expected: ValueType::I16, found: value.value_type() }),
        }
    }
}

impl LoadProperty for PrimitiveLoader<i32> {
    type Value = i32;

    open spec fn spec_load(&self, value: PropertyValue) -> Result<i32, TypeMismatch> {
        match value {
            PropertyValue::I32(v) => Ok(v),
            _ => Err(mismatch(ValueType::I32, value)),
        }
    }

    fn load(&self, value: &PropertyValue) -> (r: Result<i32, TypeMismatch>) {
        match value {
            PropertyValue::I32(v) => Ok(*v),
            _ => Err(TypeMismatch { expected: ValueType::I32, found: value.value_type() }),
        }
    }
}

impl LoadProperty for PrimitiveLoader<i64> {
    type Value = i64;

    open spec fn spec_load(&self, value: PropertyValue) -> Result<i64, TypeMismatch> {
        match value {
            PropertyValue::I64(v) => Ok(v),
            _ => Err(mismatch(ValueType::I64, value)),
        }
    }

    fn load(&self, value: &PropertyValue) -> (r: Result<i64, TypeMismatch>) {
        match value {
            PropertyValue::I64(v) => Ok(*v),
            _ => Err(TypeMismatch { expected: ValueType::I64, found: value.value_type() }),
        }
    }
}

impl LoadProperty for PrimitiveLoader<u16> {
    type Value = u16;

    open spec fn spec_load(&self, value: PropertyValue) -> Result<u16, TypeMismatch> {
        match value {
            PropertyValue::U16(v) => Ok(v),
            _ => Err(mismatch(ValueType::U16, value)),
        }
    }

    fn load(&self, value: &PropertyValue) -> (r: Result<u16, TypeMismatch>) {
        match value {
            PropertyValue::U16(v) => Ok(*v),
            _ => Err(TypeMismatch { expected: ValueType::U16, found: value.value_type() }),
        }
    }
}

impl LoadProperty for PrimitiveLoader<u32> {
    type Value = u32;

    open spec fn spec_load(&self, value: PropertyValue) -> Result<u32, TypeMismatch> {
        match value {
            PropertyValue::U32(v) => Ok(v),
            _ => Err(mismatch(ValueType::U32, value)),
        }
    }

    fn load(&self, value: &PropertyValue) -> (r: Result<u32, TypeMismatch>) {
        match value {
            PropertyValue::U32(v) => Ok(*v),
            _ => Err(TypeMismatch { expected: ValueType::U32, found: value.value_type() }),
        }
    }
}

impl LoadProperty for PrimitiveLoader<u64> {
    type Value = u64;

    open spec fn spec_load(&self, value: PropertyValue) -> Result<u64, TypeMismatch> {
        match value {
            PropertyValue::U64(v) => Ok(v),
            _ => Err(mismatch(ValueType::U64, value)),
        }
    }

    fn load(&self, value: &PropertyValue) -> (r: Result<u64, TypeMismatch>) {
        match value {
            PropertyValue::U64(v) => Ok(*v),
            _ => Err(TypeMismatch { expected: ValueType::U64, found: value.value_type() }),
        }
    }
}

/// Loader of a single-precision float, which yields its bit pattern.
#[derive(Clone, Copy, Debug)]
pub struct F32BitsLoader;

impl LoadProperty for F32BitsLoader {
    type Value = u32;

    open spec fn spec_load(&self, value: PropertyValue) -> Result<u32, TypeMismatch> {
        match value {
            PropertyValue::F32(v) => Ok(v),
            _ => Err(mismatch(ValueType::F32, value)),
        }
    }

    fn load(&self, value: &PropertyValue) -> (r: Result<u32, TypeMismatch>) {
        match value {
            PropertyValue::F32(v) => Ok(*v),
            _ => Err(TypeMismatch { expected: ValueType::F32, found: value.value_type() }),
        }
    }
}

/// Loader of a double-precision float, which yields its bit pattern.
#[derive(Clone, Copy, Debug)]
pub struct F64BitsLoader;

impl LoadProperty for F64BitsLoader {
    type Value = u64;

    open spec fn spec_load(&self, value: PropertyValue) -> Result<u64, TypeMismatch> {
        match value {
            PropertyValue::F64(v) => Ok(v),
            _ => Err(mismatch(ValueType::F64, value)),
        }
    }

    fn load(&self, value: &PropertyValue) -> (r: Result<u64, TypeMismatch>) {
        match value {
            PropertyValue::F64(v) => Ok(*v),
            _ => Err(TypeMismatch { expected: ValueType::F64, found: value.value_type() }),
        }
    }
}

} // verus!
