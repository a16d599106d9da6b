//! The value abstraction: an owned scalar that can report SQL-nullness and be
//! handed to a prepared statement. Nullability has exactly one channel: the
//! `Opt` wrapper, mirroring `Option<T>`. There is no sentinel null scalar.

use vstd::prelude::*;

verus! {

/// A database-agnostic scalar value, erased to one closed sum type.
///
/// `Opt(None)` is SQL NULL; `Opt(Some(v))` is the value `v` made explicitly
/// nullable. Every other variant is a plain non-null scalar.
///
/// Temporal and JSON values are carried as the text the database drivers
/// themselves store for them: a `Date` holds a `YYYY-MM-DD` day, a `Time`
/// an `HH:MM:SS.SSS` time of day, a `DateTime` a full timestamp in that
/// style, and `Json` a serialized JSON document. Producing and parsing
/// those texts is the calendar and serialization libraries' work, done by
/// the caller; the core carries, renders and binds them as the distinct
/// kinds they are.
#[derive(Debug, PartialEq, Eq)]
pub enum Value {
    Bool(bool),
    I8(i8),
    I16(i16),
    I32(i32),
    I64(i64),
    U8(u8),
    U16(u16),
    U32(u32),
    U64(u64),
    Text(String),
    Bytes(Vec<u8>),
    Date(String),
    Time(String),
    DateTime(String),
    Json(String),
    Opt(Option<Box<Value>>),
}

impl Value {
    /// A value stands for SQL NULL exactly when it is an absent optional.
    pub open spec fn spec_is_null(self) -> bool {
        match self {
            Value::Opt(o) => o is None,
            _ => false,
        }
    }

    /// Reports whether this value binds as SQL NULL.
    pub fn is_null(&self) -> (r: bool)
        ensures
            r == self.spec_is_null(),
    {
        match self {
            Value::Opt(o) => o.is_none(),
            _ => false,
        }
    }
}

/// Conversion of a statically-typed value into the erased [`Value`] form.
/// One implementation per supported scalar type; this is the single erasure
/// point between entity-typed code and the dialect-agnostic renderer.
pub trait IntoValue: Sized {
    /// The erased form this value converts to.
    spec fn spec_value(self) -> Value;

    /// Erase the static type, keeping the value.
    fn into_value(self) -> (v: Value)
        ensures
            v == self.spec_value(),
    ;
}

impl IntoValue for bool {
    open spec fn spec_value(self) -> Value {
        Value::Bool(self)
    }

    fn into_value(self) -> (v: Value) {
        Value::Bool(self)
    }
}

impl IntoValue for i8 {
    open spec fn spec_value(self) -> Value {
        Value::I8(self)
    }

    fn into_value(self) -> (v: Value) {
        Value::I8(self)
    }
}

impl IntoValue for i16 {
    open spec fn spec_value(self) -> Value {
        Value::I16(self)
    }

    fn into_value(self) -> (v: Value) {
        Value::I16(self)
    }
}

impl IntoValue for i32 {
    open spec fn spec_value(self) -> Value {
        Value::I32(self)
    }

    fn into_value(self) -> (v: Value) {
        Value::I32(self)
    }
}

impl IntoValue for i64 {
    open spec fn spec_value(self) -> Value {
        Value::I64(self)
    }

    fn into_value(self) -> (v: Value) {
        Value::I64(self)
    }
}

impl IntoValue for u8 {
    open spec fn spec_value(self) -> Value {
        Value::U8(self)
    }

    fn into_value(self) -> (v: Value) {
        Value::U8(self)
    }
}

impl IntoValue for u16 {
    open spec fn spec_value(self) -> Value {
        Value::U16(self)
    }

    fn into_value(self) -> (v: Value) {
        Value::U16(self)
    }
}

impl IntoValue for u32 {
    open spec fn spec_value(self) -> Value {
        Value::U32(self)
    }

    fn into_value(self) -> (v: Value) {
        Value::U32(self)
    }
}

impl IntoValue for u64 {
    open spec fn spec_value(self) -> Value {
        Value::U64(self)
    }

    fn into_value(self) -> (v: Value) {
        Value::U64(self)
    }
}

impl IntoValue for String {
    open spec fn spec_value(self) -> Value {
        Value::Text(self)
    }

    fn into_value(self) -> (v: Value) {
        Value::Text(self)
    }
}

impl IntoValue for Vec<u8> {
    open spec fn spec_value(self) -> Value {
        Value::Bytes(self)
    }

    fn into_value(self) -> (v: Value) {
        Value::Bytes(self)
    }
}

impl<T: IntoValue> IntoValue for Option<T> {
    open spec fn spec_value(self) -> Value {
        match self {
            Option::None => Value::Opt(None),
            Option::Some(x) => Value::Opt(Some(Box::new(x.spec_value()))),
        }
    }

    fn into_value(self) -> (v: Value) {
        match self {
            Option::None => Value::Opt(None),
            Option::Some(x) => Value::Opt(Some(Box::new(x.into_value()))),
        }
    }
}

} // verus!
