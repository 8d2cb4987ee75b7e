//! Field values: the tagged union that crosses the runtime boundary, and the
//! typed primitive values that callers read and write.

use vstd::prelude::*;
use crate::kind::{PrimitiveKind, kind_of_tag};

verus! {

/// What a field holds: a value of one primitive kind, or an object reference.
#[derive(Clone, Copy, Debug, PartialEq, Eq, Structural)]
pub enum ValueKind {
    Primitive(PrimitiveKind),
    Object,
}

/// The kind of value that a field with type descriptor `d` holds. The runtime
/// decides it by the descriptor's first character: a primitive tag, `L` for a
/// class type or `[` for an array type. Other descriptors (`V`, a method
/// signature, the empty string) describe no field.
pub open spec fn descriptor_kind(d: Seq<char>) -> Option<ValueKind> {
    if d.len() == 0 {
        None
    } else if d[0] == 'L' || d[0] == '[' {
        Some(ValueKind::Object)
    } else {
        match kind_of_tag(d[0]) {
            Some(k) => Some(ValueKind::Primitive(k)),
            None => None,
        }
    }
}

/// A value as the runtime's field primitives exchange it. `O` is the type of
/// an object reference. A boolean is a byte (zero is false); a float and a
/// double travel as their IEEE 754 bit patterns.
#[derive(Clone, Copy, Debug, PartialEq, Eq)]
pub enum FieldValue<O> {
    Object(O),
    Byte(i8),
    Char(u16),
    Short(i16),
    Int(i32),
    Long(i64),
    Bool(u8),
    Float(u32),
    Double(u64),
    Void,
}

/// A value of a primitive kind, as a native caller reads or writes it.
/// A float and a double are held as their IEEE 754 bit patterns.
#[derive(Clone, Copy, Debug, PartialEq, Eq, Structural)]
pub enum PrimitiveValue {
    Boolean(bool),
    Byte(i8),
    Char(u16),
    Short(i16),
    Int(i32),
    Long(i64),
    Float(u32),
    Double(u64),
}

/// The active tag of `v`; `Void` holds no value and has none.
pub open spec fn value_kind<O>(v: FieldValue<O>) -> Option<ValueKind> {
    match v {
        FieldValue::Object(_) => Some(ValueKind::Object),
        FieldValue::Byte(_) => Some(ValueKind::Primitive(PrimitiveKind::Byte)),
        FieldValue::Char(_) => Some(ValueKind::Primitive(PrimitiveKind::Char)),
        FieldValue::Short(_) => Some(ValueKind::Primitive(PrimitiveKind::Short)),
        FieldValue::Int(_) => Some(ValueKind::Primitive(PrimitiveKind::Int)),
        FieldValue::Long(_) => Some(ValueKind::Primitive(PrimitiveKind::Long)),
        FieldValue::Bool(_) => Some(ValueKind::Primitive(PrimitiveKind::Boolean)),
        FieldValue::Float(_) => Some(ValueKind::Primitive(PrimitiveKind::Float)),
        FieldValue::Double(_) => Some(ValueKind::Primitive(PrimitiveKind::Double)),
        FieldValue::Void => None,
    }
}

/// The kind of a primitive value.
pub open spec fn primitive_kind(v: PrimitiveValue) -> PrimitiveKind {
    match v {
        PrimitiveValue::Boolean(_) => PrimitiveKind::Boolean,
        PrimitiveValue::Byte(_) => PrimitiveKind::Byte,
        PrimitiveValue::Char(_) => PrimitiveKind::Char,
        PrimitiveValue::Short(_) => PrimitiveKind::Short,
        PrimitiveValue::Int(_) => PrimitiveKind::Int,
        PrimitiveValue::Long(_) => PrimitiveKind::Long,
        PrimitiveValue::Float(_) => PrimitiveKind::Float,
        PrimitiveValue::Double(_) => PrimitiveKind::Double,
    }
}

/// The field value that carries `v` to the runtime.
pub open spec fn widen<O>(v: PrimitiveValue) -> FieldValue<O> {
    match v {
        PrimitiveValue::Boolean(b) => FieldValue::Bool(if b { 1u8 } else { 0u8 }),
        PrimitiveValue::Byte(x) => FieldValue::Byte(x),
        PrimitiveValue::Char(x) => FieldValue::Char(x),
        PrimitiveValue::Short(x) => FieldValue::Short(x),
        PrimitiveValue::Int(x) => FieldValue::Int(x),
        PrimitiveValue::Long(x) => FieldValue::Long(x),
        PrimitiveValue::Float(x) => FieldValue::Float(x),
        PrimitiveValue::Double(x) => FieldValue::Double(x),
    }
}

/// The primitive value of kind `k` that `v` holds, or `None` where the active
/// tag of `v` is not `k`: a value is never reinterpreted as another kind.
pub open spec fn narrow<O>(v: FieldValue<O>, k: PrimitiveKind) -> Option<PrimitiveValue> {
    match (v, k) {
        (FieldValue::Bool(b), PrimitiveKind::Boolean) => Some(PrimitiveValue::Boolean(b != 0)),
        (FieldValue::Byte(x), PrimitiveKind::Byte) => Some(PrimitiveValue::Byte(x)),
        (FieldValue::Char(x), PrimitiveKind::Char) => Some(PrimitiveValue::Char(x)),
        (FieldValue::Short(x), PrimitiveKind::Short) => Some(PrimitiveValue::Short(x)),
        (FieldValue::Int(x), PrimitiveKind::Int) => Some(PrimitiveValue::Int(x)),
        (FieldValue::Long(x), PrimitiveKind::Long) => Some(PrimitiveValue::Long(x)),
        (FieldValue::Float(x), PrimitiveKind::Float) => Some(PrimitiveValue::Float(x)),
        (FieldValue::Double(x), PrimitiveKind::Double) => Some(PrimitiveValue::Double(x)),
        _ => None,
    }
}

/// The kind of value that a field with descriptor `d` holds, or `None` where
/// `d` describes no field.
pub fn kind_of_descriptor(d: &str) -> (r: Option<ValueKind>)
    ensures
        r == descriptor_kind(d@),
{
    if d.unicode_len() == 0 {
        return None;
    }
    let c = d.get_char(0);
    if c == 'L' || c == '[' {
        Some(ValueKind::Object)
    } else {
        match PrimitiveKind::from_tag(c) {
            Some(k) => Some(ValueKind::Primitive(k)),
            None => None,
        }
    }
}

impl<O> FieldValue<O> {
    /// The active tag of this value.
    pub fn kind(&self) -> (r: Option<ValueKind>)
        ensures
            r == value_kind(*self),
    {
        match self {
            FieldValue::Object(_) => Some(ValueKind::Object),
            FieldValue::Byte(_) => Some(ValueKind::Primitive(PrimitiveKind::Byte)),
            FieldValue::Char(_) => Some(ValueKind::Primitive(PrimitiveKind::Char)),
            FieldValue::Short(_) => Some(ValueKind::Primitive(PrimitiveKind::Short)),
            FieldValue::Int(_) => Some(ValueKind::Primitive(PrimitiveKind::Int)),
            FieldValue::Long(_) => Some(ValueKind::Primitive(PrimitiveKind::Long)),
            FieldValue::Bool(_) => Some(ValueKind::Primitive(PrimitiveKind::Boolean)),
            FieldValue::Float(_) => Some(ValueKind::Primitive(PrimitiveKind::Float)),
            FieldValue::Double(_) => Some(ValueKind::Primitive(PrimitiveKind::Double)),
            FieldValue::Void => None,
        }
    }

    /// The primitive value of kind `k` held here, or `None` on a kind mismatch.
    pub fn to_primitive(&self, k: PrimitiveKind) -> (r: Option<PrimitiveValue>)
        ensures
            r == narrow(*self, k),
    {
        match (self, k) {
            (FieldValue::Bool(b), PrimitiveKind::Boolean) => Some(PrimitiveValue::Boolean(*b != 0)),
            (FieldValue::Byte(x), PrimitiveKind::Byte) => Some(PrimitiveValue::Byte(*x)),
            (FieldValue::Char(x), PrimitiveKind::Char) => Some(PrimitiveValue::Char(*x)),
            (FieldValue::Short(x), PrimitiveKind::Short) => Some(PrimitiveValue::Short(*x)),
            (FieldValue::Int(x), PrimitiveKind::Int) => Some(PrimitiveValue::Int(*x)),
            (FieldValue::Long(x), PrimitiveKind::Long) => Some(PrimitiveValue::Long(*x)),
            (FieldValue::Float(x), PrimitiveKind::Float) => Some(PrimitiveValue::Float(*x)),
            (FieldValue::Double(x), PrimitiveKind::Double) => Some(PrimitiveValue::Double(*x)),
            _ => None,
        }
    }

    /// The object reference held here, or `None` where the value is not an object.
    pub fn into_object(self) -> (r: Option<O>)
        ensures
            r == (match self {
                FieldValue::Object(o) => Some(o),
                _ => None,
            }),
    {
        match self {
            FieldValue::Object(o) => Some(o),
            _ => None,
        }
    }
}

impl PrimitiveValue {
    /// The kind of this value.
    pub fn kind(&self) -> (r: PrimitiveKind)
        ensures
            r == primitive_kind(*self),
    {
        match self {
            PrimitiveValue::Boolean(_) => PrimitiveKind::Boolean,
            PrimitiveValue::Byte(_) => PrimitiveKind::Byte,
            PrimitiveValue::Char(_) => PrimitiveKind::Char,
            PrimitiveValue::Short(_) => PrimitiveKind::Short,
            PrimitiveValue::Int(_) => PrimitiveKind::Int,
            PrimitiveValue::Long(_) => PrimitiveKind::Long,
            PrimitiveValue::Float(_) => PrimitiveKind::Float,
            PrimitiveValue::Double(_) => PrimitiveKind::Double,
        }
    }

    /// The field value, tagged with this value's kind, that carries it to the runtime.
    pub fn to_field_value<O>(&self) -> (r: FieldValue<O>)
        ensures
            r == widen::<O>(*self),
    {
        match self {
            PrimitiveValue::Boolean(b) => FieldValue::Bool(if *b { 1u8 } else { 0u8 }),
            PrimitiveValue::Byte(x) => FieldValue::Byte(*x),
            PrimitiveValue::Char(x) => FieldValue::Char(*x),
            PrimitiveValue::Short(x) => FieldValue::Short(*x),
            PrimitiveValue::Int(x) => FieldValue::Int(*x),
            PrimitiveValue::Long(x) => FieldValue::Long(*x),
            PrimitiveValue::Float(x) => FieldValue::Float(*x),
            PrimitiveValue::Double(x) => FieldValue::Double(*x),
        }
    }
}

/// A primitive value carried to the runtime and read back under its own kind
/// is the same value, bit for bit; and it carries the tag of that kind.
pub proof fn lemma_widen_narrow<O>(v: PrimitiveValue)
    ensures
        value_kind(widen::<O>(v)) == Some(ValueKind::Primitive(primitive_kind(v))),
        narrow(widen::<O>(v), primitive_kind(v)) == Some(v),
{
}

/// Narrowing succeeds exactly when the active tag is the requested kind, and
/// the result then has that kind: a value of one kind is never read as another.
pub proof fn lemma_narrow_checks_kind<O>(v: FieldValue<O>, k: PrimitiveKind)
    ensures
        (narrow(v, k) is Some) <==> value_kind(v) == Some(ValueKind::Primitive(k)),
        narrow(v, k) is Some ==> primitive_kind(narrow(v, k)->0) == k,
{
}

} // verus!
