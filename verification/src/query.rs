//! The query models: plain data describing one logical operation each
//! (select / count / insert / insert-returning / update / delete). They
//! carry no behavior beyond rendering and binding.

use vstd::prelude::*;

use crate::selector::InputRecord;
use crate::selector::Selector;

verus! {

/// Sort direction for an ORDER BY clause.
#[derive(Debug, PartialEq, Eq)]
pub enum Order {
    Asc,
    Desc,
}

impl Order {
    /// The SQL keyword for this direction.
    pub open spec fn spec_str(self) -> Seq<char> {
        match self {
            Order::Asc => "ASC"@,
            Order::Desc => "DESC"@,
        }
    }

    /// The SQL keyword for this direction.
    pub fn as_str(&self) -> (r: &'static str)
        ensures
            r@ == self.spec_str(),
    {
        match self {
            Order::Asc => "ASC",
            Order::Desc => "DESC",
        }
    }
}

/// An ordering over one or more columns, all in the same direction.
#[derive(Debug, PartialEq, Eq)]
pub struct OrderBy<C> {
    pub order: Order,
    pub cols: Vec<C>,
}

/// Optional ordering and pagination for a find.
pub struct FindOptions<C> {
    pub order_by: Option<OrderBy<C>>,
    pub offset: Option<u32>,
    pub limit: Option<u32>,
}

/// `SELECT <cols> FROM <table>` with a disjunction of filter clauses,
/// optional ordering and optional pagination.
pub struct SelectQuery {
    pub table_name: &'static str,
    pub col_names: Vec<&'static str>,
    pub selectors: Vec<Selector>,
    pub order_by: Option<OrderBy<&'static str>>,
    pub offset: Option<u32>,
    pub limit: Option<u32>,
}

/// `SELECT COUNT (*) FROM <table>` with a disjunction of filter clauses.
pub struct CountQuery {
    pub table_name: &'static str,
    pub selectors: Vec<Selector>,
}

/// `INSERT INTO <table>` of one or more rows; the rendered column list is
/// the union of the rows' columns in first-seen order, and a row missing a
/// column gets the `DEFAULT` keyword in its place.
pub struct InsertQuery {
    pub table_name: &'static str,
    pub values: Vec<InputRecord>,
}

/// An insert followed by `RETURNING <cols>` when the returning list is
/// non-empty.
pub struct InsertReturningQuery {
    pub insert_query: InsertQuery,
    pub returning_cols: Vec<&'static str>,
}

/// `UPDATE <table> SET <new values>` with a disjunction of filter clauses.
/// An update with no new values is a no-op for the executor.
pub struct UpdateQuery {
    pub table_name: &'static str,
    pub selectors: Vec<Selector>,
    pub new_values: InputRecord,
}

/// `DELETE FROM <table>` with a disjunction of filter clauses.
pub struct DeleteQuery {
    pub table_name: &'static str,
    pub selectors: Vec<Selector>,
}

} // verus!
