//! Handing a planned statement's bind sequence to the SQLite driver: an
//! argument buffer is filled with the plan's values, in order, and the
//! caller executes the SQL text with that buffer.
//!
//! The buffer is `sqlx`'s `SqliteArguments`; what it holds is modelled by
//! [`args_model`], a sequence of [`SqlArg`] mirroring the driver's own
//! argument representation (`SqliteArgumentValue`). Each trusted wrapper
//! states, directly from the driver's `Encode` implementation, which
//! argument its call appends.

use vstd::prelude::*;

use sqlx::Arguments;
use sqlx::sqlite::SqliteArguments;

use crate::value::Value;

verus! {

/// Declares sqlx's `SqliteArguments`, the SQLite driver's argument buffer,
/// so that it can stand in signatures; its contents are spoken of only
/// through [`args_model`].
#[verifier::external_type_specification]
#[verifier::external_body]
pub struct ExSqliteArguments<'q>(SqliteArguments<'q>);

/// One argument as the SQLite driver buffers it, mirroring the driver's
/// `SqliteArgumentValue` (floating-point arguments are out of this
/// library's value set and never produced).
pub enum SqlArg {
    Null,
    Text(Seq<char>),
    Blob(Seq<u8>),
    Int(i32),
    Int64(i64),
}

/// What an argument buffer holds, in bind order.
pub uninterp spec fn args_model(a: SqliteArguments<'static>) -> Seq<SqlArg>;

/// Relies on `SqliteArguments::default`: a fresh, empty argument buffer.
#[verifier::external_body]
fn new_args() -> (r: SqliteArguments<'static>)
    ensures
        args_model(r) == Seq::<SqlArg>::empty(),
{
    SqliteArguments::default()
}

/// Relies on sqlx's `Encode<Sqlite> for bool`: appends `Int(1)` for true,
/// `Int(0)` for false.
#[verifier::external_body]
fn add_bool(a: &mut SqliteArguments<'static>, v: bool)
    ensures
        args_model(*final(a)) == args_model(*old(a)).push(
            SqlArg::Int(
                if v {
                    1
                } else {
                    0
                },
            ),
        ),
{
    a.add(v);
}

/// Relies on sqlx's `Encode<Sqlite> for i8`: appends `Int(v as i32)`.
#[verifier::external_body]
fn add_i8(a: &mut SqliteArguments<'static>, v: i8)
    ensures
        args_model(*final(a)) == args_model(*old(a)).push(SqlArg::Int(v as i32)),
{
    a.add(v);
}

/// Relies on sqlx's `Encode<Sqlite> for i16`: appends `Int(v as i32)`.
#[verifier::external_body]
fn add_i16(a: &mut SqliteArguments<'static>, v: i16)
    ensures
        args_model(*final(a)) == args_model(*old(a)).push(SqlArg::Int(v as i32)),
{
    a.add(v);
}

/// Relies on sqlx's `Encode<Sqlite> for i32`: appends `Int(v)`.
#[verifier::external_body]
fn add_i32(a: &mut SqliteArguments<'static>, v: i32)
    ensures
        args_model(*final(a)) == args_model(*old(a)).push(SqlArg::Int(v)),
{
    a.add(v);
}

/// Relies on sqlx's `Encode<Sqlite> for i64`: appends `Int64(v)`.
#[verifier::external_body]
fn add_i64(a: &mut SqliteArguments<'static>, v: i64)
    ensures
        args_model(*final(a)) == args_model(*old(a)).push(SqlArg::Int64(v)),
{
    a.add(v);
}

/// Relies on sqlx's `Encode<Sqlite> for u8`: appends `Int(v as i32)`.
#[verifier::external_body]
fn add_u8(a: &mut SqliteArguments<'static>, v: u8)
    ensures
        args_model(*final(a)) == args_model(*old(a)).push(SqlArg::Int(v as i32)),
{
    a.add(v);
}

/// Relies on sqlx's `Encode<Sqlite> for u16`: appends `Int(v as i32)`.
#[verifier::external_body]
fn add_u16(a: &mut SqliteArguments<'static>, v: u16)
    ensures
        args_model(*final(a)) == args_model(*old(a)).push(SqlArg::Int(v as i32)),
{
    a.add(v);
}

/// Relies on sqlx's `Encode<Sqlite> for u32`: appends `Int64(v as i64)`.
#[verifier::external_body]
fn add_u32(a: &mut SqliteArguments<'static>, v: u32)
    ensures
        args_model(*final(a)) == args_model(*old(a)).push(SqlArg::Int64(v as i64)),
{
    a.add(v);
}

/// Relies on sqlx's `Encode<Sqlite> for String`: appends `Text` of the
/// string's characters.
#[verifier::external_body]
fn add_text(a: &mut SqliteArguments<'static>, v: String)
    ensures
        args_model(*final(a)) == args_model(*old(a)).push(SqlArg::Text(v@)),
{
    a.add(v);
}

/// Relies on sqlx's `Encode<Sqlite> for Vec<u8>`: appends `Blob` of the
/// bytes.
#[verifier::external_body]
fn add_blob(a: &mut SqliteArguments<'static>, v: Vec<u8>)
    ensures
        args_model(*final(a)) == args_model(*old(a)).push(SqlArg::Blob(v@)),
{
    a.add(v);
}

/// Relies on sqlx's `Encode<Sqlite> for Option<T>`: encoding `None`
/// appends `Null`.
#[verifier::external_body]
fn add_null(a: &mut SqliteArguments<'static>)
    ensures
        args_model(*final(a)) == args_model(*old(a)).push(SqlArg::Null),
{
    a.add(Option::<i64>::None);
}

/// A value that the target dialect cannot encode.
#[derive(Debug, PartialEq, Eq)]
pub enum BindError {
    /// SQLite has no integer wide enough for an unsigned 64-bit value.
    UnsupportedType,
}

/// How SQLite buffers one of this library's values: nullability unwraps to
/// the inner value's encoding, `Opt(None)` is `Null`, temporal and JSON
/// values are buffered as `Text` exactly as the driver buffers its own
/// date, time and JSON types, and `U64` has no SQLite encoding at all.
pub open spec fn spec_sqlite_arg(v: Value) -> Option<SqlArg>
    decreases v,
{
    match v {
        Value::Bool(b) => Some(
            SqlArg::Int(
                if b {
                    1
                } else {
                    0
                },
            ),
        ),
        Value::I8(x) => Some(SqlArg::Int(x as i32)),
        Value::I16(x) => Some(SqlArg::Int(x as i32)),
        Value::I32(x) => Some(SqlArg::Int(x)),
        Value::I64(x) => Some(SqlArg::Int64(x)),
        Value::U8(x) => Some(SqlArg::Int(x as i32)),
        Value::U16(x) => Some(SqlArg::Int(x as i32)),
        Value::U32(x) => Some(SqlArg::Int64(x as i64)),
        Value::U64(x) => None,
        Value::Text(s) => Some(SqlArg::Text(s@)),
        Value::Bytes(b) => Some(SqlArg::Blob(b@)),
        Value::Date(s) => Some(SqlArg::Text(s@)),
        Value::Time(s) => Some(SqlArg::Text(s@)),
        Value::DateTime(s) => Some(SqlArg::Text(s@)),
        Value::Json(s) => Some(SqlArg::Text(s@)),
        Value::Opt(o) => match o {
            None => Some(SqlArg::Null),
            Some(inner) => spec_sqlite_arg(*inner),
        },
    }
}

/// How SQLite buffers a whole bind sequence: every value in order, or
/// nothing if some value has no SQLite encoding.
pub open spec fn spec_sqlite_args(vals: Seq<Value>) -> Option<Seq<SqlArg>>
    decreases vals.len(),
{
    if vals.len() == 0 {
        Some(Seq::empty())
    } else {
        match (spec_sqlite_args(vals.drop_last()), spec_sqlite_arg(vals.last())) {
            (Some(args), Some(arg)) => Some(args.push(arg)),
            _ => None,
        }
    }
}

/// Append one value to the argument buffer, encoded as SQLite buffers it;
/// `Err` exactly when the value has no SQLite encoding (the buffer is then
/// left as it was).
pub fn bind_arg(a: &mut SqliteArguments<'static>, v: &Value) -> (r: Result<(), BindError>)
    ensures
        match spec_sqlite_arg(*v) {
            Some(arg) => r is Ok && args_model(*final(a)) == args_model(*old(a)).push(arg),
            None => r is Err && args_model(*final(a)) == args_model(*old(a)),
        },
    decreases *v,
{
    match v {
        Value::Bool(b) => {
            add_bool(a, *b);
            Ok(())
        },
        Value::I8(x) => {
            add_i8(a, *x);
            Ok(())
        },
        Value::I16(x) => {
            add_i16(a, *x);
            Ok(())
        },
        Value::I32(x) => {
            add_i32(a, *x);
            Ok(())
        },
        Value::I64(x) => {
            add_i64(a, *x);
            Ok(())
        },
        Value::U8(x) => {
            add_u8(a, *x);
            Ok(())
        },
        Value::U16(x) => {
            add_u16(a, *x);
            Ok(())
        },
        Value::U32(x) => {
            add_u32(a, *x);
            Ok(())
        },
        Value::U64(_) => Err(BindError::UnsupportedType),
        Value::Text(s) => {
            add_text(a, s.clone());
            Ok(())
        },
        Value::Bytes(b) => {
            add_blob(a, copy_bytes(b));
            Ok(())
        },
        Value::Date(s) => {
            add_text(a, s.clone());
            Ok(())
        },
        Value::Time(s) => {
            add_text(a, s.clone());
            Ok(())
        },
        Value::DateTime(s) => {
            add_text(a, s.clone());
            Ok(())
        },
        Value::Json(s) => {
            add_text(a, s.clone());
            Ok(())
        },
        Value::Opt(o) => match o {
            None => {
                add_null(a);
                Ok(())
            },
            Some(inner) => bind_arg(a, inner),
        },
    }
}

/// Copy a byte vector; the copy reads the same.
fn copy_bytes(v: &Vec<u8>) -> (r: Vec<u8>)
    ensures
        r@ == v@,
{
    let n = v.len();
    let mut out: Vec<u8> = Vec::new();
    let mut i: usize = 0;
    while i < n
        invariant
            i <= n == v@.len(),
            out@ == v@.take(i as int),
        decreases n - i,
    {
        out.push(v[i]);
        proof {
            assert(out@ =~= v@.take(i + 1));
        }
        i = i + 1;
    }
    proof {
        assert(v@.take(n as int) =~= v@);
    }
    out
}

/// Fill a fresh argument buffer with `binds`, in order: the buffer then
/// holds exactly the SQLite encoding of the bind sequence. `Err` exactly
/// when some value has no SQLite encoding.
pub fn build_arguments(binds: &Vec<Value>) -> (r: Result<
    SqliteArguments<'static>,
    BindError,
>)
    ensures
        match spec_sqlite_args(binds@) {
            Some(args) => r matches Ok(a) && args_model(a) == args,
            None => r is Err,
        },
{
    let n = binds.len();
    let mut a = new_args();
    let mut i: usize = 0;
    proof {
        assert(binds@.take(0) =~= Seq::<Value>::empty());
    }
    while i < n
        invariant
            i <= n == binds@.len(),
            spec_sqlite_args(binds@.take(i as int)) == Some(args_model(a)),
        decreases n - i,
    {
        proof {
            assert(binds@.take(i + 1).drop_last() =~= binds@.take(i as int));
            assert(binds@.take(i + 1).last() == binds@[i as int]);
        }
        match bind_arg(&mut a, &binds[i]) {
            Ok(_) => {},
            Err(e) => {
                proof {
                    assert(spec_sqlite_args(binds@.take(i + 1)) is None);
                    lemma_args_prefix_none(binds@, i + 1);
                }
                return Err(e);
            },
        }
        i = i + 1;
    }
    proof {
        assert(binds@.take(n as int) =~= binds@);
    }
    Ok(a)
}

/// Once a prefix has no SQLite encoding, the whole sequence has none.
proof fn lemma_args_prefix_none(vals: Seq<Value>, i: int)
    requires
        0 <= i <= vals.len(),
        spec_sqlite_args(vals.take(i)) is None,
    ensures
        spec_sqlite_args(vals) is None,
    decreases vals.len() - i,
{
    if i == vals.len() {
        assert(vals.take(i) =~= vals);
    } else {
        assert(vals.take(i + 1).drop_last() =~= vals.take(i));
        lemma_args_prefix_none(vals, i + 1);
    }
}

} // verus!
