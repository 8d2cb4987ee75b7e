//! Typed field access: one getter and one setter per primitive kind, selected
//! by a `PrimitiveKind`, and one pair for object references.

use vstd::prelude::*;
use crate::jvm::JavaEnv;
use jni::objects::JObject;
use crate::field::{FieldError, get_field_value, set_field_value};
use crate::kind::{PrimitiveKind, primitive_descriptor};
use crate::value::{FieldValue, PrimitiveValue, ValueKind, descriptor_kind, primitive_kind, value_kind, widen};

verus! {

/// Reads a primitive field of kind `kind`. The descriptor is the kind's own
/// tag, so only a field declared with that kind is resolved, and the value
/// comes back in that kind: it is never truncated or reinterpreted.
pub fn get_primitive_field<'a>(
    env: &mut JavaEnv<'a>,
    owner: &str,
    name: &str,
    kind: PrimitiveKind,
    receiver: Option<&JObject<'a>>,
) -> (r: Result<PrimitiveValue, FieldError>)
    ensures
        r is Ok ==> primitive_kind(r->Ok_0) == kind,
        r != Err::<PrimitiveValue, FieldError>(FieldError::KindMismatch),
{
    let descriptor = kind.descriptor();
    match get_field_value(env, owner, name, descriptor, receiver) {
        Ok(v) => {
            proof {
                assert(descriptor@[0] == crate::kind::tag_of(kind));
                crate::kind::lemma_tag_identifies_kind(kind, kind);
                crate::value::lemma_narrow_checks_kind(v, kind);
            }
            match v.to_primitive(kind) {
                Some(p) => Ok(p),
                None => Err(FieldError::KindMismatch),
            }
        },
        Err(e) => Err(e),
    }
}

/// Writes a primitive field of the value's own kind, resolved by that kind's tag.
pub fn set_primitive_field<'a>(
    env: &mut JavaEnv<'a>,
    owner: &str,
    name: &str,
    receiver: Option<&JObject<'a>>,
    value: PrimitiveValue,
) -> (r: Result<(), FieldError>)
    ensures
        r != Err::<(), FieldError>(FieldError::KindMismatch),
{
    let kind = value.kind();
    let descriptor = kind.descriptor();
    let carried: FieldValue<&JObject<'a>> = value.to_field_value();
    proof {
        assert(descriptor@[0] == crate::kind::tag_of(kind));
        crate::kind::lemma_tag_identifies_kind(kind, kind);
        crate::value::lemma_widen_narrow::<&JObject<'a>>(value);
    }
    set_field_value(env, owner, name, descriptor, receiver, carried)
}

/// Reads an object field whose type descriptor the caller gives. A descriptor
/// of a primitive kind, or one that describes no field, never yields a value.
pub fn get_object_field<'a>(
    env: &mut JavaEnv<'a>,
    owner: &str,
    name: &str,
    descriptor: &str,
    receiver: Option<&JObject<'a>>,
) -> (r: Result<JObject<'a>, FieldError>)
    ensures
        r is Ok ==> descriptor_kind(descriptor@) == Some(ValueKind::Object),
        descriptor_kind(descriptor@) == Some(ValueKind::Object) ==> r != Err::<JObject<'a>, FieldError>(
            FieldError::KindMismatch,
        ),
{
    match get_field_value(env, owner, name, descriptor, receiver) {
        Ok(v) => match v.into_object() {
            Some(o) => Ok(o),
            None => Err(FieldError::KindMismatch),
        },
        Err(e) => Err(e),
    }
}

/// Writes an object field whose type descriptor the caller gives. A
/// descriptor that does not name an object type fails with `KindMismatch`
/// before the runtime is asked anything; an object that is not an instance of
/// the field's type fails with `NotAssignable` and is not stored.
pub fn set_object_field<'a, 'b>(
    env: &mut JavaEnv<'a>,
    owner: &str,
    name: &str,
    descriptor: &str,
    receiver: Option<&JObject<'a>>,
    value: &'b JObject<'a>,
) -> (r: Result<(), FieldError>)
    ensures
        (r == Err::<(), FieldError>(FieldError::KindMismatch)) <==> descriptor_kind(descriptor@) != Some(
            ValueKind::Object,
        ),
{
    set_field_value(env, owner, name, descriptor, receiver, FieldValue::Object(value))
}

/// What a setter hands the runtime for a primitive value carries the tag of
/// the value's kind and goes to the field that the same kind's getter
/// resolves, by the same descriptor; read back under that kind it is the
/// value itself. So a getter after a setter of one kind, on one owner, name
/// and receiver, returns the value that was set.
pub proof fn lemma_set_then_get<O>(v: PrimitiveValue)
    ensures
        value_kind(widen::<O>(v)) == descriptor_kind(primitive_descriptor(primitive_kind(v))),
        crate::value::narrow(widen::<O>(v), primitive_kind(v)) == Some(v),
{
    crate::value::lemma_widen_narrow::<O>(v);
    crate::kind::lemma_tag_identifies_kind(primitive_kind(v), primitive_kind(v));
}

} // verus!
