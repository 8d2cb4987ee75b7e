//! Field resolution: from an owner class, a field name, a type descriptor and
//! an optional receiver to a read or a write through the runtime.

use vstd::prelude::*;
use crate::jvm::JavaEnv;
use jni::objects::JObject;
use crate::jvm;
use crate::value::{FieldValue, descriptor_kind, kind_of_descriptor, value_kind};

verus! {

/// Why a field access failed. Each of these is a broken precondition of the
/// caller rather than a condition to recover from.
#[derive(Clone, Copy, Debug, PartialEq, Eq, Structural)]
pub enum FieldError {
    /// The owner class could not be resolved.
    ClassNotFound,
    /// No field of that name and descriptor could be resolved, read or written.
    FieldUnavailable,
    /// The receiver is not an instance of the owner class.
    NotAnInstance,
    /// The object to store is not an instance of the field's type.
    NotAssignable,
    /// The value's kind is not the kind that the descriptor names.
    KindMismatch,
}

/// The runtime's internal form of a class name: `.` separators become `/`.
pub open spec fn internal_name(s: Seq<char>) -> Seq<char> {
    Seq::new(s.len(), |i: int| if s[i] == '.' { '/' } else { s[i] })
}

/// The internal form of a fully qualified class name, as class resolution
/// expects it (`com.example.Counter` becomes `com/example/Counter`).
pub fn internal_class_name(owner: &str) -> (r: String)
    ensures
        r@ == internal_name(owner@),
{
    let n = owner.unicode_len();
    let mut out = String::new();
    let mut i: usize = 0;
    while i < n
        invariant
            n == owner@.len(),
            i <= n,
            out@ == internal_name(owner@.subrange(0, i as int)),
        decreases n - i,
    {
        let c = owner.get_char(i);
        let ghost before = out@;
        if c == '.' {
            proof {
                reveal_strlit("/");
            }
            out.append("/");
            assert(out@ =~= before + seq!['/']);
        } else {
            let one = owner.substring_char(i, i + 1);
            assert(one@ =~= seq![c]);
            out.append(one);
        }
        assert(out@ =~= before.push(if c == '.' { '/' } else { c }));
        assert(out@ =~= internal_name(owner@.subrange(0, i + 1)));
        i = i + 1;
    }
    assert(owner@.subrange(0, n as int) =~= owner@);
    out
}

/// The name under which class resolution finds the type that an object
/// descriptor names: the internal name inside `L...;`, and the descriptor
/// itself for an array type.
pub open spec fn descriptor_class(d: Seq<char>) -> Seq<char> {
    if d.len() >= 2 && d[0] == 'L' {
        d.subrange(1, d.len() - 1)
    } else {
        d
    }
}

/// The class name that resolves the type named by an object descriptor.
pub fn descriptor_class_name<'s>(d: &'s str) -> (r: &'s str)
    ensures
        r@ == descriptor_class(d@),
{
    let n = d.unicode_len();
    if n >= 2 && d.get_char(0) == 'L' {
        d.substring_char(1, n - 1)
    } else {
        d
    }
}

/// A field to resolve: the owner class in internal form, the field's name and
/// type descriptor, and whether it is resolved as static.
pub struct FieldDescriptor {
    pub class_name: String,
    pub name: String,
    pub descriptor: String,
    pub is_static: bool,
}

/// The model of a `FieldDescriptor`.
pub struct FieldDescriptorView {
    pub class_name: Seq<char>,
    pub name: Seq<char>,
    pub descriptor: Seq<char>,
    pub is_static: bool,
}

impl View for FieldDescriptor {
    type V = FieldDescriptorView;

    open spec fn view(&self) -> FieldDescriptorView {
        FieldDescriptorView {
            class_name: self.class_name@,
            name: self.name@,
            descriptor: self.descriptor@,
            is_static: self.is_static,
        }
    }
}

/// The field that a call names: staticness is not supplied but derived, true
/// exactly when no receiver is given.
pub open spec fn descriptor_for(
    owner: Seq<char>,
    name: Seq<char>,
    descriptor: Seq<char>,
    has_receiver: bool,
) -> FieldDescriptorView {
    FieldDescriptorView {
        class_name: internal_name(owner),
        name,
        descriptor,
        is_static: !has_receiver,
    }
}

impl FieldDescriptor {
    /// The field named by an owner class, a field name and a type descriptor,
    /// for a call with or without a receiver.
    pub fn new(owner: &str, name: &str, descriptor: &str, has_receiver: bool) -> (r: FieldDescriptor)
        ensures
            r@ == descriptor_for(owner@, name@, descriptor@, has_receiver),
    {
        FieldDescriptor {
            class_name: internal_class_name(owner),
            name: name.to_owned(),
            descriptor: descriptor.to_owned(),
            is_static: !has_receiver,
        }
    }
}

/// Whether a field is resolved as static depends on the receiver alone: with
/// no receiver it is static, with one it is an instance field, and switching
/// the receiver changes nothing else about what is resolved.
pub proof fn lemma_receiver_decides_staticness(owner: Seq<char>, name: Seq<char>, descriptor: Seq<char>)
    ensures
        descriptor_for(owner, name, descriptor, false).is_static,
        !descriptor_for(owner, name, descriptor, true).is_static,
        descriptor_for(owner, name, descriptor, true).class_name == descriptor_for(owner, name, descriptor, false).class_name,
        descriptor_for(owner, name, descriptor, true).name == descriptor_for(owner, name, descriptor, false).name,
        descriptor_for(owner, name, descriptor, true).descriptor == descriptor_for(owner, name, descriptor, false).descriptor,
{
}

/// Reads a field. The owner class is resolved first, and the field is
/// resolved on it by its name and exact descriptor: as static where `receiver`
/// is `None`, and otherwise as an instance field, read from the receiver only
/// once the receiver is known to be an instance of the owner class. A value comes back only in the
/// kind that the descriptor names.
pub fn get_field_value<'a>(
    env: &mut JavaEnv<'a>,
    owner: &str,
    name: &str,
    descriptor: &str,
    receiver: Option<&JObject<'a>>,
) -> (r: Result<FieldValue<JObject<'a>>, FieldError>)
    ensures
        r is Ok ==> descriptor_kind(descriptor@) == value_kind(r->Ok_0),
        r is Ok ==> descriptor_kind(descriptor@) is Some,
        r != Err::<FieldValue<JObject<'a>>, FieldError>(FieldError::KindMismatch),
{
    let field = FieldDescriptor::new(owner, name, descriptor, receiver.is_some());
    let class = match jvm::find_class(env, field.class_name.as_str()) {
        Ok(c) => c,
        Err(_) => return Err(FieldError::ClassNotFound),
    };
    let value = match receiver {
        None => jvm::get_static_field(env, &class, field.name.as_str(), field.descriptor.as_str()),
        Some(obj) => {
            let kind = match kind_of_descriptor(field.descriptor.as_str()) {
                Some(k) => k,
                None => return Err(FieldError::FieldUnavailable),
            };
            match jvm::is_instance_of(env, obj, &class) {
                Ok(true) => {},
                Ok(false) => return Err(FieldError::NotAnInstance),
                Err(_) => return Err(FieldError::FieldUnavailable),
            }
            let ty = jvm::return_type_of(kind);
            jvm::get_instance_field(env, obj, &class, field.name.as_str(), field.descriptor.as_str(), ty)
        },
    };
    match value {
        Ok(v) => Ok(v),
        Err(_) => Err(FieldError::FieldUnavailable),
    }
}

/// Writes a field, resolved as `get_field_value` resolves it. The value must
/// be of the kind that the descriptor names; otherwise the call fails with
/// `KindMismatch` before the runtime is asked anything, so a mismatched write
/// never reaches a field. An object is stored only once it is known to be an
/// instance of the field's type (a null reference always is).
pub fn set_field_value<'a, 'b>(
    env: &mut JavaEnv<'a>,
    owner: &str,
    name: &str,
    descriptor: &str,
    receiver: Option<&JObject<'a>>,
    value: FieldValue<&'b JObject<'a>>,
) -> (r: Result<(), FieldError>)
    ensures
        (r == Err::<(), FieldError>(FieldError::KindMismatch)) <==> !(descriptor_kind(descriptor@) is Some
            && descriptor_kind(descriptor@) == value_kind(value)),
{
    let expected = kind_of_descriptor(descriptor);
    let matches = match (expected, value.kind()) {
        (Some(e), Some(k)) => e == k,
        _ => false,
    };
    if !matches {
        return Err(FieldError::KindMismatch);
    }
    let field = FieldDescriptor::new(owner, name, descriptor, receiver.is_some());
    let class = match jvm::find_class(env, field.class_name.as_str()) {
        Ok(c) => c,
        Err(_) => return Err(FieldError::ClassNotFound),
    };
    match value {
        FieldValue::Object(o) => {
            let type_class = match jvm::find_class(env, descriptor_class_name(field.descriptor.as_str())) {
                Ok(c) => c,
                Err(_) => return Err(FieldError::FieldUnavailable),
            };
            match jvm::is_instance_of(env, o, &type_class) {
                Ok(true) => {},
                Ok(false) => return Err(FieldError::NotAssignable),
                Err(_) => return Err(FieldError::FieldUnavailable),
            }
        },
        _ => {},
    }
    let written = match receiver {
        None => jvm::set_static_field(env, &class, field.name.as_str(), field.descriptor.as_str(), value),
        Some(obj) => {
            match jvm::is_instance_of(env, obj, &class) {
                Ok(true) => {},
                Ok(false) => return Err(FieldError::NotAnInstance),
                Err(_) => return Err(FieldError::FieldUnavailable),
            }
            jvm::set_instance_field(env, obj, &class, field.name.as_str(), field.descriptor.as_str(), value)
        },
    };
    match written {
        Ok(()) => Ok(()),
        Err(_) => Err(FieldError::FieldUnavailable),
    }
}

} // verus!
