//! Acquisition of the runtime's trusted lookup, the privileged token that
//! lets reflective calls pass the runtime's access checks, and the structured
//! error that reports a failed acquisition.

use vstd::prelude::*;
use crate::jvm::JavaEnv;
use jni::objects::JObject;
use crate::jvm;
use crate::value::{FieldValue, ValueKind, descriptor_kind};

verus! {

/// The class that holds the trusted lookup.
pub const LOOKUP_CLASS: &'static str = "java/lang/invoke/MethodHandles$Lookup";

/// The static field of `LOOKUP_CLASS` that holds the trusted lookup.
pub const IMPL_LOOKUP_FIELD: &'static str = "IMPL_LOOKUP";

/// The type descriptor of that field.
pub const LOOKUP_DESCRIPTOR: &'static str = "Ljava/lang/invoke/MethodHandles$Lookup;";

/// The class of the exception that reports a failed acquisition.
pub const EXCEPTION_CLASS: &'static str = "dev/derklaro/reflexion/ReflexionException";

/// Why the trusted lookup could not be acquired.
#[derive(Clone, Copy, Debug, PartialEq, Eq, Structural)]
pub enum LookupError {
    /// The lookup class could not be resolved.
    ClassNotFound,
    /// The static field holding the token could not be resolved or read.
    FieldUnreadable,
    /// The field's value is not an object reference.
    NotAnObject,
}

/// Why a structured error could not be raised.
#[derive(Clone, Copy, Debug, PartialEq, Eq, Structural)]
pub enum RaiseError {
    /// The pending error state could not be cleared.
    ClearFailed,
    /// The new exception could not be thrown.
    ThrowFailed,
}

/// The message that reports `e`.
pub open spec fn lookup_message(e: LookupError) -> Seq<char> {
    match e {
        LookupError::ClassNotFound => "unable to find Lookup class"@,
        LookupError::FieldUnreadable => "unable to get IMPL_LOOKUP field value"@,
        LookupError::NotAnObject => "IMPL_LOOKUP field value is not an object"@,
    }
}

impl LookupError {
    /// The message that the raised exception carries.
    pub fn message(&self) -> (r: &'static str)
        ensures
            r@ == lookup_message(*self),
    {
        match self {
            LookupError::ClassNotFound => "unable to find Lookup class",
            LookupError::FieldUnreadable => "unable to get IMPL_LOOKUP field value",
            LookupError::NotAnObject => "IMPL_LOOKUP field value is not an object",
        }
    }
}

/// What an acquisition comes to, given whether the lookup class was resolved
/// and, where it was, the value read from the token field (`None` where that
/// read failed).
pub open spec fn lookup_outcome<O>(class_found: bool, token: Option<FieldValue<O>>) -> Result<O, LookupError> {
    if !class_found {
        Err(LookupError::ClassNotFound)
    } else {
        match token {
            None => Err(LookupError::FieldUnreadable),
            Some(FieldValue::Object(o)) => Ok(o),
            Some(_) => Err(LookupError::NotAnObject),
        }
    }
}

/// A runtime without the lookup class gives the structured `ClassNotFound`
/// error, whatever else happens; and a token is handed out only when the
/// class was found and the field held an object reference.
pub proof fn lemma_missing_class_is_reported<O>(token: Option<FieldValue<O>>)
    ensures
        lookup_outcome(false, token) == Err::<O, LookupError>(LookupError::ClassNotFound),
        lookup_outcome(true, token) is Ok <==> (token matches Some(FieldValue::Object(_))),
{
}

/// Decides the result of an acquisition from what its two runtime steps
/// returned.
pub fn finish_lookup<O>(class_found: bool, token: Option<FieldValue<O>>) -> (r: Result<O, LookupError>)
    ensures
        r == lookup_outcome(class_found, token),
{
    if !class_found {
        return Err(LookupError::ClassNotFound);
    }
    match token {
        None => Err(LookupError::FieldUnreadable),
        Some(v) => match v.into_object() {
            Some(o) => Ok(o),
            None => Err(LookupError::NotAnObject),
        },
    }
}

/// Fetches the trusted lookup afresh from the runtime: resolves the lookup
/// class, then reads its static token field. Each failure is returned as a
/// `LookupError`, never as a panic: a runtime without the lookup class gives
/// `ClassNotFound`. The token field is declared with an object descriptor, so
/// a value read from it is always an object reference.
pub fn acquire_trusted_lookup<'a>(env: &mut JavaEnv<'a>) -> (r: Result<JObject<'a>, LookupError>)
    ensures
        r is Ok || r == Err::<JObject<'a>, LookupError>(LookupError::ClassNotFound) || r == Err::<
            JObject<'a>,
            LookupError,
        >(LookupError::FieldUnreadable),
{
    let class = match jvm::find_class(env, LOOKUP_CLASS) {
        Ok(c) => c,
        Err(_) => return finish_lookup(false, None),
    };
    let token = match jvm::get_static_field(env, &class, IMPL_LOOKUP_FIELD, LOOKUP_DESCRIPTOR) {
        Ok(v) => Some(v),
        Err(_) => None,
    };
    proof {
        reveal_strlit("Ljava/lang/invoke/MethodHandles$Lookup;");
        assert(descriptor_kind(LOOKUP_DESCRIPTOR@) == Some(ValueKind::Object));
    }
    finish_lookup(true, token)
}

/// Clears any exception pending on the calling thread, then raises a new
/// `EXCEPTION_CLASS` exception with `message`. On success that exception is
/// the one pending, and whatever was pending before is discarded; where the
/// clearing fails, nothing is thrown and the pending state is as it was.
pub fn throw_exception<'a>(env: &mut JavaEnv<'a>, message: &str) -> (r: Result<(), RaiseError>)
    ensures
        r is Ok ==> final(env).pending() == Some((EXCEPTION_CLASS@, message@)),
        r == Err::<(), RaiseError>(RaiseError::ClearFailed) ==> final(env).pending() == old(env).pending(),
{
    match jvm::exception_clear(env) {
        Ok(()) => {},
        Err(_) => return Err(RaiseError::ClearFailed),
    }
    match jvm::throw_new(env, EXCEPTION_CLASS, message) {
        Ok(()) => Ok(()),
        Err(_) => Err(RaiseError::ThrowFailed),
    }
}

/// Hands out the trusted lookup, or, where it cannot be acquired, raises the
/// structured error that says why and hands out nothing. `Ok(None)` means the
/// `EXCEPTION_CLASS` exception carrying the failure's message is pending, in
/// place of anything pending before.
pub fn trusted_lookup_or_raise<'a>(env: &mut JavaEnv<'a>) -> (r: Result<Option<JObject<'a>>, RaiseError>)
    ensures
        r matches Ok(None) ==> exists|e: LookupError|
            final(env).pending() == Some((EXCEPTION_CLASS@, #[trigger] lookup_message(e))),
{
    match acquire_trusted_lookup(env) {
        Ok(lookup) => Ok(Some(lookup)),
        Err(e) => {
            match throw_exception(env, e.message()) {
                Ok(()) => {
                    assert(env.pending() == Some((EXCEPTION_CLASS@, lookup_message(e))));
                    Ok(None)
                },
                Err(f) => Err(f),
            }
        },
    }
}

} // verus!
