//! A verified bridge between native code and a Java virtual machine: typed
//! field access and acquisition of the runtime's trusted lookup.

pub mod kind;
pub mod value;
pub mod jvm;
pub mod field;
pub mod dispatch;
pub mod lookup;
