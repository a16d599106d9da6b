//! The record: a typed view over one row's worth of data, backed by an
//! in-memory column-name-to-value map. Typed column reads return a
//! structured error: the column is absent, or it holds a value of another
//! type.

use vstd::prelude::*;
use vstd::string::StringExecFns;

use sqlx::Row;
use sqlx::sqlite::SqliteRow;

use crate::selector::spec_first_match;
use crate::text::str_eq;
use crate::value::Value;

verus! {

/// Declares sqlx's `SqliteRow`, one fetched database row, so that it can
/// stand in [`Record`]'s field; it is read only through the trusted
/// `try_get` wrappers below.
#[verifier::external_type_specification]
#[verifier::external_body]
pub struct ExSqliteRow(SqliteRow);

/// A failed typed column read.
#[derive(Debug, PartialEq, Eq)]
pub enum RecordError {
    /// The row has no column of that name.
    ColumnNotFound(String),
    /// The column is present but holds a value that cannot be read at the
    /// requested type; `source` carries the underlying driver message when
    /// one exists.
    ColumnDecode { index: String, source: Option<String> },
    /// A driver failure that is neither of the two expected kinds: the
    /// defensive fallback, in place of a panic.
    Unexpected(String),
}

/// One fetched or synthesized row: an in-memory column-name-to-value map,
/// optionally backed by a live database row. The map is consulted first,
/// by exact name, first match in insertion order, with no fallback from a
/// map miss to the live row's columns when no row is attached. Constructed
/// once, read through the typed accessors, never mutated afterwards.
pub struct Record {
    row: Option<SqliteRow>,
    cols: Vec<(&'static str, Value)>,
}

impl View for Record {
    type V = Seq<(&'static str, Value)>;

    closed spec fn view(&self) -> Seq<(&'static str, Value)> {
        self.cols@
    }
}

impl Record {
    /// Whether a live database row backs this record. Reads that miss the
    /// in-memory map are delegated to it.
    pub closed spec fn spec_has_row(&self) -> bool {
        self.row is Some
    }

    /// An empty record: every read fails with `ColumnNotFound`.
    pub fn new() -> (r: Self)
        ensures
            r@ == Seq::<(&'static str, Value)>::empty(),
            !r.spec_has_row(),
    {
        Record { row: None, cols: Vec::new() }
    }

    /// A record over one fetched database row, with an empty map: every
    /// read is delegated to the row's typed getter.
    pub fn from_row(row: SqliteRow) -> (r: Self)
        ensures
            r@ == Seq::<(&'static str, Value)>::empty(),
            r.spec_has_row(),
    {
        Record { row: Some(row), cols: Vec::new() }
    }

    /// Add one synthesized column value.
    pub fn set_col(&mut self, col_name: &'static str, value: Value)
        ensures
            final(self)@ == old(self)@.push((col_name, value)),
    {
        self.cols.push((col_name, value));
    }

    /// The in-memory value of `col_name`, or `ColumnNotFound`. Only the
    /// synthesized map is consulted here; live-row reads go through the
    /// typed accessors.
    pub fn col(&self, col_name: &str) -> (r: Result<&Value, RecordError>)
        ensures
            match r {
                Ok(v) => spec_first_match(self@, col_name@) == Some(*v),
                Err(e) => spec_first_match(self@, col_name@) is None && (e matches
                    RecordError::ColumnNotFound(n) && n@ == col_name@),
            },
    {
        let n = self.cols.len();
        let mut i: usize = 0;
        proof {
            assert(self@.skip(0) =~= self@);
        }
        while i < n
            invariant
                i <= n == self@.len(),
                spec_first_match(self@, col_name@) == crate::selector::spec_first_match_from(
                    self@,
                    col_name@,
                    i as int,
                ),
            decreases n - i,
        {
            if str_eq(self.cols[i].0, col_name) {
                proof {
                    crate::selector::lemma_first_match_from_here(self@, col_name@, i as int);
                }
                return Ok(&self.cols[i].1);
            }
            proof {
                crate::selector::lemma_first_match_from_next(self@, col_name@, i as int);
            }
            i = i + 1;
        }
        proof {
            crate::selector::lemma_first_match_from_end(self@, col_name@);
        }
        Err(RecordError::ColumnNotFound(String::from_str(col_name)))
    }

    /// The boolean at `col_name`: `ColumnNotFound` when absent,
    /// `ColumnDecode` when the value there is not a boolean.
    pub fn col_bool(&self, col_name: &str) -> (r: Result<bool, RecordError>)
        ensures
            (match spec_first_match(self@, col_name@) {
                Some(v) => match r {
                    Ok(x) => v == Value::Bool(x),
                    Err(RecordError::ColumnDecode { index, source }) => !(v is Bool) && index@
                        == col_name@ && source is None,
                    _ => false,
                },
                None => true,
            }),
            spec_first_match(self@, col_name@) is None && !self.spec_has_row() ==> (r matches Err(
                RecordError::ColumnNotFound(n),
            ) && n@ == col_name@),
    {
        match self.col(col_name) {
            Ok(v) => match v {
                Value::Bool(b) => Ok(*b),
                _ => Err(
                    RecordError::ColumnDecode { index: String::from_str(col_name), source: None },
                ),
            },
            Err(e) => match &self.row {
                Some(row) => row_get_bool(row, col_name),
                None => Err(e),
            },
        }
    }

    /// The 64-bit integer at `col_name`.
    pub fn col_i64(&self, col_name: &str) -> (r: Result<i64, RecordError>)
        ensures
            (match spec_first_match(self@, col_name@) {
                Some(v) => match r {
                    Ok(x) => v == Value::I64(x),
                    Err(RecordError::ColumnDecode { index, source }) => !(v is I64) && index@
                        == col_name@ && source is None,
                    _ => false,
                },
                None => true,
            }),
            spec_first_match(self@, col_name@) is None && !self.spec_has_row() ==> (r matches Err(
                RecordError::ColumnNotFound(n),
            ) && n@ == col_name@),
    {
        match self.col(col_name) {
            Ok(v) => match v {
                Value::I64(x) => Ok(*x),
                _ => Err(
                    RecordError::ColumnDecode { index: String::from_str(col_name), source: None },
                ),
            },
            Err(e) => match &self.row {
                Some(row) => row_get_i64(row, col_name),
                None => Err(e),
            },
        }
    }

    /// The 32-bit integer at `col_name`.
    pub fn col_i32(&self, col_name: &str) -> (r: Result<i32, RecordError>)
        ensures
            (match spec_first_match(self@, col_name@) {
                Some(v) => match r {
                    Ok(x) => v == Value::I32(x),
                    Err(RecordError::ColumnDecode { index, source }) => !(v is I32) && index@
                        == col_name@ && source is None,
                    _ => false,
                },
                None => true,
            }),
            spec_first_match(self@, col_name@) is None && !self.spec_has_row() ==> (r matches Err(
                RecordError::ColumnNotFound(n),
            ) && n@ == col_name@),
    {
        match self.col(col_name) {
            Ok(v) => match v {
                Value::I32(x) => Ok(*x),
                _ => Err(
                    RecordError::ColumnDecode { index: String::from_str(col_name), source: None },
                ),
            },
            Err(e) => match &self.row {
                Some(row) => row_get_i32(row, col_name),
                None => Err(e),
            },
        }
    }

    /// The text at `col_name`, copied out.
    pub fn col_text(&self, col_name: &str) -> (r: Result<String, RecordError>)
        ensures
            (match spec_first_match(self@, col_name@) {
                Some(v) => match r {
                    Ok(x) => v == Value::Text(x),
                    Err(RecordError::ColumnDecode { index, source }) => !(v is Text) && index@
                        == col_name@ && source is None,
                    _ => false,
                },
                None => true,
            }),
            spec_first_match(self@, col_name@) is None && !self.spec_has_row() ==> (r matches Err(
                RecordError::ColumnNotFound(n),
            ) && n@ == col_name@),
    {
        match self.col(col_name) {
            Ok(v) => match v {
                Value::Text(s) => Ok(s.clone()),
                _ => Err(
                    RecordError::ColumnDecode { index: String::from_str(col_name), source: None },
                ),
            },
            Err(e) => match &self.row {
                Some(row) => row_get_text(row, col_name),
                None => Err(e),
            },
        }
    }
}

/// Relies on sqlx's `Row::try_get::<bool>` on a SQLite row; its
/// `ColumnNotFound` and `ColumnDecode` errors are translated into this
/// library's taxonomy, and any other driver error becomes the defensive
/// `Unexpected` fallback instead of a panic.
#[verifier::external_body]
fn row_get_bool(row: &SqliteRow, col_name: &str) -> (r: Result<bool, RecordError>) {
    row.try_get::<bool, &str>(col_name).map_err(|e| match e {
        sqlx::Error::ColumnNotFound(c) => RecordError::ColumnNotFound(c),
        sqlx::Error::ColumnDecode { index, source } => RecordError::ColumnDecode {
            index,
            source: Some(source.to_string()),
        },
        other => RecordError::Unexpected(other.to_string()),
    })
}

/// Relies on sqlx's `Row::try_get::<i64>` on a SQLite row; errors are
/// translated as in `row_get_bool`.
#[verifier::external_body]
fn row_get_i64(row: &SqliteRow, col_name: &str) -> (r: Result<i64, RecordError>) {
    row.try_get::<i64, &str>(col_name).map_err(|e| match e {
        sqlx::Error::ColumnNotFound(c) => RecordError::ColumnNotFound(c),
        sqlx::Error::ColumnDecode { index, source } => RecordError::ColumnDecode {
            index,
            source: Some(source.to_string()),
        },
        other => RecordError::Unexpected(other.to_string()),
    })
}

/// Relies on sqlx's `Row::try_get::<i32>` on a SQLite row; errors are
/// translated as in `row_get_bool`.
#[verifier::external_body]
fn row_get_i32(row: &SqliteRow, col_name: &str) -> (r: Result<i32, RecordError>) {
    row.try_get::<i32, &str>(col_name).map_err(|e| match e {
        sqlx::Error::ColumnNotFound(c) => RecordError::ColumnNotFound(c),
        sqlx::Error::ColumnDecode { index, source } => RecordError::ColumnDecode {
            index,
            source: Some(source.to_string()),
        },
        other => RecordError::Unexpected(other.to_string()),
    })
}

/// Relies on sqlx's `Row::try_get::<String>` on a SQLite row; errors are
/// translated as in `row_get_bool`.
#[verifier::external_body]
fn row_get_text(row: &SqliteRow, col_name: &str) -> (r: Result<String, RecordError>) {
    row.try_get::<String, &str>(col_name).map_err(|e| match e {
        sqlx::Error::ColumnNotFound(c) => RecordError::ColumnNotFound(c),
        sqlx::Error::ColumnDecode { index, source } => RecordError::ColumnDecode {
            index,
            source: Some(source.to_string()),
        },
        other => RecordError::Unexpected(other.to_string()),
    })
}

impl Record {
    /// The byte string at `col_name`, copied out.
    pub fn col_bytes(&self, col_name: &str) -> (r: Result<Vec<u8>, RecordError>)
        ensures
            (match spec_first_match(self@, col_name@) {
                Some(v) => match r {
                    Ok(x) => v matches Value::Bytes(b) && b@ == x@,
                    Err(RecordError::ColumnDecode { index, source }) => !(v is Bytes) && index@
                        == col_name@ && source is None,
                    _ => false,
                },
                None => true,
            }),
            spec_first_match(self@, col_name@) is None && !self.spec_has_row() ==> (r matches Err(
                RecordError::ColumnNotFound(n),
            ) && n@ == col_name@),
    {
        match self.col(col_name) {
            Ok(v) => match v {
                Value::Bytes(b) => {
                    let n = b.len();
                    let mut out: Vec<u8> = Vec::new();
                    let mut i: usize = 0;
                    while i < n
                        invariant
                            i <= n == b@.len(),
                            out@ == b@.take(i as int),
                        decreases n - i,
                    {
                        out.push(b[i]);
                        proof {
                            assert(out@ =~= b@.take(i + 1));
                        }
                        i = i + 1;
                    }
                    proof {
                        assert(b@.take(n as int) =~= b@);
                    }
                    Ok(out)
                },
                _ => Err(
                    RecordError::ColumnDecode { index: String::from_str(col_name), source: None },
                ),
            },
            Err(e) => match &self.row {
                Some(row) => row_get_bytes(row, col_name),
                None => Err(e),
            },
        }
    }
}

/// Relies on sqlx's `Row::try_get::<Vec<u8>>` on a SQLite row; errors are
/// translated as in `row_get_bool`.
#[verifier::external_body]
fn row_get_bytes(row: &SqliteRow, col_name: &str) -> (r: Result<Vec<u8>, RecordError>) {
    row.try_get::<Vec<u8>, &str>(col_name).map_err(|e| match e {
        sqlx::Error::ColumnNotFound(c) => RecordError::ColumnNotFound(c),
        sqlx::Error::ColumnDecode { index, source } => RecordError::ColumnDecode {
            index,
            source: Some(source.to_string()),
        },
        other => RecordError::Unexpected(other.to_string()),
    })
}

impl Default for Record {
    /// The empty record.
    fn default() -> (r: Self)
        ensures
            r@ == Seq::<(&'static str, Value)>::empty(),
    {
        Record::new()
    }
}

/// Reconstruction of a typed entity from one record's columns.
pub trait FromRecord: Sized {
    /// Read the entity's fields out of `record`.
    fn from_record(record: &Record) -> Result<Self, RecordError>;
}

} // verus!
