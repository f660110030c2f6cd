//! Property values and the entries of a property node.

use crate::search::{first_index, lemma_first_index};
use vstd::prelude::*;

verus! {

/// The type tag of a property value.
#[derive(Clone, Copy, Debug, PartialEq, Eq, Hash, Structural)]
pub enum ValueType {
    /// Signed 16-bit integer.
    I16,
    /// Signed 32-bit integer.
    I32,
    /// Signed 64-bit integer.
    I64,
    /// Unsigned 16-bit integer.
    U16,
    /// Unsigned 32-bit integer.
    U32,
    /// Unsigned 64-bit integer.
    U64,
    /// Single-precision float.
    F32,
    /// Double-precision float.
    F64,
    /// Text.
    String,
    /// Raw bytes.
    Binary,
}

impl ValueType {
    /// The name of this type.
    pub open spec fn spec_name(self) -> Seq<char> {
        match self {
            ValueType::I16 => "i16"@,
            ValueType::I32 => "i32"@,
            ValueType::I64 => "i64"@,
            ValueType::U16 => "u16"@,
            ValueType::U32 => "u32"@,
            ValueType::U64 => "u64"@,
            ValueType::F32 => "f32"@,
            ValueType::F64 => "f64"@,
            ValueType::String => "string"@,
            ValueType::Binary => "binary"@,
        }
    }

    /// Returns the name of this type.
    pub fn name(self) -> (r: &'static str)
        ensures
            r@ == self.spec_name(),
    {
        match self {
            ValueType::I16 => "i16",
            ValueType::I32 => "i32",
            ValueType::I64 => "i64",
            ValueType::U16 => "u16",
            ValueType::U32 => "u32",
            ValueType::U64 => "u64",
            ValueType::F32 => "f32",
            ValueType::F64 => "f64",
            ValueType::String => "string",
            ValueType::Binary => "binary",
        }
    }
}

/// A tagged primitive value.
///
/// Floating-point payloads are held as their IEEE 754 bit patterns.
#[derive(Clone, Debug, PartialEq, Eq)]
pub enum PropertyValue {
    /// Signed 16-bit integer.
    I16(i16),
    /// Signed 32-bit integer.
    I32(i32),
    /// Signed 64-bit integer.
    I64(i64),
    /// Unsigned 16-bit integer.
    U16(u16),
    /// Unsigned 32-bit integer.
    U32(u32),
    /// Unsigned 64-bit integer.
    U64(u64),
    /// Single-precision float, as its bit pattern.
    F32(u32),
    /// Double-precision float, as its bit pattern.
    F64(u64),
    /// Text.
    String(String),
    /// Raw bytes.
    Binary(Vec<u8>),
}

impl PropertyValue {
    /// The type tag of this value.
    pub open spec fn spec_value_type(&self) -> ValueType {
        match *self {
            PropertyValue::I16(_) => ValueType::I16,
            PropertyValue::I32(_) => ValueType::I32,
            PropertyValue::I64(_) => ValueType::I64,
            PropertyValue::U16(_) => ValueType::U16,
            PropertyValue::U32(_) => ValueType::U32,
            PropertyValue::U64(_) => ValueType::U64,
            PropertyValue::F32(_) => ValueType::F32,
            PropertyValue::F64(_) => ValueType::F64,
            PropertyValue::String(_) => ValueType::String,
            PropertyValue::Binary(_) => ValueType::Binary,
        }
    }

    /// Returns the type tag of this value.
    #[verifier::when_used_as_spec(spec_value_type)]
    pub fn value_type(&self) -> (r: ValueType)
        ensures
            r == self.spec_value_type(),
    {
        match self {
            PropertyValue::I16(_) => ValueType::I16,
            PropertyValue::I32(_) => ValueType::I32,
            PropertyValue::I64(_) => ValueType::I64,
            PropertyValue::U16(_) => ValueType::U16,
            PropertyValue::U32(_) => ValueType::U32,
            PropertyValue::U64(_) => ValueType::U64,
            PropertyValue::F32(_) => ValueType::F32,
            PropertyValue::F64(_) => ValueType::F64,
            PropertyValue::String(_) => ValueType::String,
            PropertyValue::Binary(_) => ValueType::Binary,
        }
    }

    /// Returns the text of a `String` value, and `None` for any other.
    pub fn as_str(&self) -> (r: Option<&str>)
        ensures
            match *self {
                PropertyValue::String(s) => r matches Some(t) && t@ == s@,
                _ => r.is_none(),
            },
    {
        match self {
            PropertyValue::String(s) => Some(s.as_str()),
            _ => None,
        }
    }

    /// Returns the bytes of a `Binary` value, and `None` for any other.
    pub fn as_bytes(&self) -> (r: Option<&[u8]>)
        ensures
            match *self {
                PropertyValue::Binary(b) => r matches Some(t) && t@ == b@,
                _ => r.is_none(),
            },
    {
        match self {
            PropertyValue::Binary(b) => Some(b.as_slice()),
            _ => None,
        }
    }
}

/// One entry of a property node: a value stored against a key.
#[derive(Clone, Debug, PartialEq, Eq)]
pub struct PropertyEntry {
    /// The key, unique within the node.
    pub key: String,
    /// The value stored against the key.
    pub value: PropertyValue,
}

/// Whether the entry is stored against the given key.
pub open spec fn has_this_key(entry: PropertyEntry, key: Seq<char>) -> bool {
    entry.key@ == key
}

/// The position of the first entry with the given key, if there is one.
pub open spec fn find_key(entries: Seq<PropertyEntry>, key: Seq<char>) -> Option<int> {
    first_index(entries, |e: PropertyEntry| has_this_key(e, key))
}

/// The value stored against the given key, if there is one.
pub open spec fn lookup(entries: Seq<PropertyEntry>, key: Seq<char>) -> Option<PropertyValue> {
    match find_key(entries, key) {
        Some(i) => Some(entries[i].value),
        None => None,
    }
}

/// Whether any entry has the given key.
pub open spec fn has_key(entries: Seq<PropertyEntry>, key: Seq<char>) -> bool {
    exists|i: int| 0 <= i < entries.len() && (#[trigger] entries[i]).key@ == key
}

/// Whether no two entries share a key.
pub open spec fn keys_unique(entries: Seq<PropertyEntry>) -> bool {
    forall|i: int, j: int|
        0 <= i < j < entries.len() ==> (#[trigger] entries[i]).key@ != (#[trigger] entries[j]).key@
}

/// `find_key` gives the first position that holds the key, and `None` only
/// when no position holds it.
pub proof fn lemma_find_key(entries: Seq<PropertyEntry>, key: Seq<char>)
    ensures
        match find_key(entries, key) {
            Some(i) => {
                &&& 0 <= i < entries.len()
                &&& entries[i].key@ == key
                &&& forall|j: int| 0 <= j < i ==> (#[trigger] entries[j]).key@ != key
            },
            None => !has_key(entries, key),
        },
{
    lemma_first_index(entries, |e: PropertyEntry| has_this_key(e, key));
    if find_key(entries, key) is None {
        assert forall|j: int| 0 <= j < entries.len() implies (#[trigger] entries[j]).key@
            != key by {
            assert(!has_this_key(entries[j], key));
        }
    }
}

/// A position that holds the key, with none before it that does, is the one
/// that `find_key` gives.
pub proof fn lemma_find_key_is(entries: Seq<PropertyEntry>, key: Seq<char>, i: int)
    requires
        0 <= i < entries.len(),
        entries[i].key@ == key,
        forall|j: int| 0 <= j < i ==> (#[trigger] entries[j]).key@ != key,
    ensures
        find_key(entries, key) == Some(i),
{
    lemma_find_key(entries, key);
}

/// Finds the first entry with the given key.
pub fn find_entry(entries: &Vec<PropertyEntry>, key: &str) -> (r: Option<usize>)
    ensures
        match r {
            Some(i) => find_key(entries@, key@) == Some(i as int) && i < entries.len(),
            None => find_key(entries@, key@).is_none(),
        },
{
    let wanted = key.to_owned();
    let mut i: usize = 0;
    while i < entries.len()
        invariant
            i <= entries.len(),
            wanted@ == key@,
            forall|j: int| 0 <= j < i ==> (#[trigger] entries@[j]).key@ != key@,
        decreases entries.len() - i,
    {
        if entries[i].key == wanted {
            proof {
                lemma_find_key_is(entries@, key@, i as int);
            }
            return Some(i);
        }
        i += 1;
    }
    proof {
        lemma_find_key(entries@, key@);
    }
    None
}

} // verus!
