//! The calls into the host runtime that this library relies on, made through
//! the `jni` crate. Each item here is trusted: its contract restates what the
//! crate's source guarantees.

use vstd::prelude::*;
use jni::JNIEnv;
use jni::errors::Error;
use jni::objects::{JClass, JObject, JValueGen as J};
use jni::signature::{Primitive, ReturnType};
use jni::sys::{jdouble, jfloat};
use crate::kind::PrimitiveKind;
use crate::value::{FieldValue as V, ValueKind, descriptor_kind, value_kind};

verus! {

#[verifier::external_type_specification]
#[verifier::external_body]
pub struct ExJNIEnv<'local>(JNIEnv<'local>);

#[verifier::external_type_specification]
#[verifier::external_body]
pub struct ExJObject<'local>(JObject<'local>);

#[verifier::external_type_specification]
#[verifier::external_body]
pub struct ExRawObject(jni::sys::_jobject);

#[verifier::external_type_specification]
#[verifier::external_body]
pub struct ExJClass<'local>(JClass<'local>);

#[verifier::external_type_specification]
#[verifier::external_body]
pub struct ExJniError(Error);

#[verifier::external_type_specification]
pub struct ExPrimitive(Primitive);

#[verifier::external_type_specification]
pub struct ExReturnType(ReturnType);

/// The calling thread's interface to the runtime, with a model of the
/// exception pending on that thread.
pub struct JavaEnv<'a> {
    env: JNIEnv<'a>,
    pending: Ghost<Option<(Seq<char>, Seq<char>)>>,
}

impl<'a> JavaEnv<'a> {
    /// The exception pending on the calling thread, as its class's internal
    /// name and its message, or `None` where no exception is pending.
    pub closed spec fn pending(&self) -> Option<(Seq<char>, Seq<char>)> {
        self.pending@
    }

    /// Takes over the runtime interface handed to a native method. Nothing
    /// is known of what is pending on the thread at that point.
    #[verifier::external_body]
    pub fn new(env: JNIEnv<'a>) -> (r: JavaEnv<'a>) {
        JavaEnv { env, pending: Ghost(None) }
    }
}

/// The kind of value that a read of return type `ty` yields; `Void` yields none.
pub open spec fn return_kind(ty: ReturnType) -> Option<ValueKind> {
    match ty {
        ReturnType::Object | ReturnType::Array => Some(ValueKind::Object),
        ReturnType::Primitive(p) => match p {
            Primitive::Boolean => Some(ValueKind::Primitive(PrimitiveKind::Boolean)),
            Primitive::Byte => Some(ValueKind::Primitive(PrimitiveKind::Byte)),
            Primitive::Char => Some(ValueKind::Primitive(PrimitiveKind::Char)),
            Primitive::Short => Some(ValueKind::Primitive(PrimitiveKind::Short)),
            Primitive::Int => Some(ValueKind::Primitive(PrimitiveKind::Int)),
            Primitive::Long => Some(ValueKind::Primitive(PrimitiveKind::Long)),
            Primitive::Float => Some(ValueKind::Primitive(PrimitiveKind::Float)),
            Primitive::Double => Some(ValueKind::Primitive(PrimitiveKind::Double)),
            Primitive::Void => None,
        },
    }
}

/// The return type under which a value of kind `k` is read.
pub fn return_type_of(k: ValueKind) -> (r: ReturnType)
    ensures
        return_kind(r) == Some(k),
{
    match k {
        ValueKind::Object => ReturnType::Object,
        ValueKind::Primitive(p) => ReturnType::Primitive(
            match p {
                PrimitiveKind::Boolean => Primitive::Boolean,
                PrimitiveKind::Byte => Primitive::Byte,
                PrimitiveKind::Char => Primitive::Char,
                PrimitiveKind::Short => Primitive::Short,
                PrimitiveKind::Int => Primitive::Int,
                PrimitiveKind::Long => Primitive::Long,
                PrimitiveKind::Float => Primitive::Float,
                PrimitiveKind::Double => Primitive::Double,
            },
        ),
    }
}

/// Relies on `JNIEnv::find_class`: resolves a class by its internal name
/// through the runtime's default class loader. Whether it succeeds depends on
/// the running runtime, so nothing is promised of the outcome.
#[verifier::external_body]
pub(crate) fn find_class<'a>(env: &mut JavaEnv<'a>, name: &str) -> (r: Result<JClass<'a>, Error>) {
    env.env.find_class(name)
}

/// Relies on `JNIEnv::get_static_field`: the descriptor is parsed before any
/// lookup, and a value is returned only for a field descriptor, in the variant
/// that the descriptor's first character selects (a method signature or `V`
/// gives an error).
#[verifier::external_body]
pub(crate) fn get_static_field<'a>(env: &mut JavaEnv<'a>, class: &JClass<'a>, name: &str, sig: &str) -> (r: Result<V<JObject<'a>>, Error>)
    ensures
        r is Ok ==> descriptor_kind(sig@) is Some,
        r is Ok ==> descriptor_kind(sig@) == value_kind(r->Ok_0),
{
    env.env.get_static_field(class, name, sig).map(|v| match v {
        J::Object(o) => V::Object(o),
        J::Byte(x) => V::Byte(x),
        J::Char(x) => V::Char(x),
        J::Short(x) => V::Short(x),
        J::Int(x) => V::Int(x),
        J::Long(x) => V::Long(x),
        J::Bool(x) => V::Bool(x),
        J::Float(x) => V::Float(x.to_bits()),
        J::Double(x) => V::Double(x.to_bits()),
        J::Void => V::Void,
    })
}

/// Relies on `JNIEnv::get_field_unchecked`, with the field looked up on
/// `class` by its name and exact descriptor. The value comes back in the
/// variant that `ty` selects; a `Void` return type gives an error. `ty` must be
/// the descriptor's kind, so the runtime reads the field by its own type.
#[verifier::external_body]
pub(crate) fn get_instance_field<'a>(env: &mut JavaEnv<'a>, obj: &JObject<'a>, class: &JClass<'a>, name: &str, sig: &str, ty: ReturnType) -> (r: Result<V<JObject<'a>>, Error>)
    requires
        descriptor_kind(sig@) == return_kind(ty),
    ensures
        r is Ok ==> return_kind(ty) is Some,
        r is Ok ==> value_kind(r->Ok_0) == return_kind(ty),
{
    env.env.get_field_unchecked(obj, (class, name, sig), ty).map(|v| match v {
        J::Object(o) => V::Object(o),
        J::Byte(x) => V::Byte(x),
        J::Char(x) => V::Char(x),
        J::Short(x) => V::Short(x),
        J::Int(x) => V::Int(x),
        J::Long(x) => V::Long(x),
        J::Bool(x) => V::Bool(x),
        J::Float(x) => V::Float(x.to_bits()),
        J::Double(x) => V::Double(x.to_bits()),
        J::Void => V::Void,
    })
}

/// Relies on `JNIEnv::is_instance_of`: whether `obj` is an instance of `class`.
#[verifier::external_body]
pub(crate) fn is_instance_of<'a>(env: &mut JavaEnv<'a>, obj: &JObject<'a>, class: &JClass<'a>) -> (r: Result<bool, Error>) {
    env.env.is_instance_of(obj, class)
}

/// Relies on `JNIEnv::set_static_field` with a `(class, name, descriptor)`
/// field description. It writes through the primitive that the value's variant
/// selects and checks nothing against the field's type, so the value must
/// already be of the descriptor's kind.
#[verifier::external_body]
pub(crate) fn set_static_field<'a, 'b>(env: &mut JavaEnv<'a>, class: &JClass<'a>, name: &str, sig: &str, value: V<&'b JObject<'a>>) -> (r: Result<(), Error>)
    requires
        descriptor_kind(sig@) is Some,
        descriptor_kind(sig@) == value_kind(value),
{
    let value = match value {
        V::Object(o) => J::Object(o),
        V::Byte(x) => J::Byte(x),
        V::Char(x) => J::Char(x),
        V::Short(x) => J::Short(x),
        V::Int(x) => J::Int(x),
        V::Long(x) => J::Long(x),
        V::Bool(x) => J::Bool(x),
        V::Float(x) => J::Float(jfloat::from_bits(x)),
        V::Double(x) => J::Double(jdouble::from_bits(x)),
        V::Void => J::Void,
    };
    env.env.set_static_field(class, (class, name, sig), value)
}

/// Relies on `JNIEnv::set_field_unchecked`, with the field looked up on
/// `class` by its name and exact descriptor. It writes through the primitive
/// that the value's variant selects and checks nothing against the field's
/// type, so the value must already be of the descriptor's kind.
#[verifier::external_body]
pub(crate) fn set_instance_field<'a, 'b>(env: &mut JavaEnv<'a>, obj: &JObject<'a>, class: &JClass<'a>, name: &str, sig: &str, value: V<&'b JObject<'a>>) -> (r: Result<(), Error>)
    requires
        descriptor_kind(sig@) is Some,
        descriptor_kind(sig@) == value_kind(value),
{
    let value = match value {
        V::Object(o) => J::Object(o),
        V::Byte(x) => J::Byte(x),
        V::Char(x) => J::Char(x),
        V::Short(x) => J::Short(x),
        V::Int(x) => J::Int(x),
        V::Long(x) => J::Long(x),
        V::Bool(x) => J::Bool(x),
        V::Float(x) => J::Float(jfloat::from_bits(x)),
        V::Double(x) => J::Double(jdouble::from_bits(x)),
        V::Void => J::Void,
    };
    env.env.set_field_unchecked(obj, (class, name, sig), value)
}

/// Relies on `JNIEnv::exception_clear`: on success no exception is pending
/// on the calling thread; an error comes before the runtime is called, so
/// nothing changes then.
#[verifier::external_body]
pub(crate) fn exception_clear<'a>(env: &mut JavaEnv<'a>) -> (r: Result<(), Error>)
    ensures
        r is Ok ==> final(env).pending() is None,
        r is Err ==> final(env).pending() == old(env).pending(),
{
    env.env.exception_clear()
}

/// Relies on `JNIEnv::throw_new`: on success a new exception of the named
/// class, carrying `message`, is pending on the calling thread.
#[verifier::external_body]
pub(crate) fn throw_new<'a>(env: &mut JavaEnv<'a>, class: &str, message: &str) -> (r: Result<(), Error>)
    ensures
        r is Ok ==> final(env).pending() == Some((class@, message@)),
{
    env.env.throw_new(class, message)
}

} // verus!
