//! The entity-facing layer: the field marker for "set or omit" builders,
//! the column-name capability, the error taxonomies of the convenience
//! operations, and the query constructors those operations use. The
//! asynchronous plumbing that runs the constructed queries lives with the
//! executing collaborator, outside this library.

use vstd::prelude::*;

use crate::operator::FindOperator;
use crate::query::CountQuery;
use crate::query::DeleteQuery;
use crate::query::FindOptions;
use crate::query::InsertQuery;
use crate::query::InsertReturningQuery;
use crate::query::SelectQuery;
use crate::query::UpdateQuery;
use crate::record::RecordError;
use crate::selector::InputRecord;
use crate::selector::Selector;
use crate::value::Value;

verus! {

/// A typed column handle of one entity: names the column.
pub trait Col: Sized {
    /// The column's name.
    fn as_str(&self) -> &'static str;
}

/// One field of a generated filter or patch builder: explicitly given, or
/// omitted. An omitted field never reaches the built `Selector` or
/// `InputRecord` at all — it is not a null entry.
#[derive(Debug, PartialEq, Eq)]
pub enum Field<T> {
    Given(T),
    Omit,
}

impl<T> Default for Field<T> {
    /// A field not mentioned is omitted.
    fn default() -> (r: Self)
        ensures
            r is Omit,
    {
        Field::Omit
    }
}

/// An error of the create operation.
#[derive(Debug)]
pub enum CreateError<E> {
    /// The executing collaborator failed.
    Manager(E),
    /// A returned record could not be decoded.
    Record(RecordError),
    /// The returned row count does not match the number of inputs.
    WrongNumberOfRows,
}

impl<E> From<RecordError> for CreateError<E> {
    fn from(e: RecordError) -> (r: Self) {
        CreateError::Record(e)
    }
}

impl<E> vstd::std_specs::convert::FromSpecImpl<RecordError> for CreateError<E> {
    open spec fn obeys_from_spec() -> bool {
        true
    }

    open spec fn from_spec(e: RecordError) -> Self {
        CreateError::Record(e)
    }
}

/// An error of the select operations.
#[derive(Debug)]
pub enum SelectError<E> {
    /// The executing collaborator failed.
    Manager(E),
    /// A fetched record could not be decoded.
    Record(RecordError),
}

impl<E> From<RecordError> for SelectError<E> {
    fn from(e: RecordError) -> (r: Self) {
        SelectError::Record(e)
    }
}

impl<E> vstd::std_specs::convert::FromSpecImpl<RecordError> for SelectError<E> {
    open spec fn obeys_from_spec() -> bool {
        true
    }

    open spec fn from_spec(e: RecordError) -> Self {
        SelectError::Record(e)
    }
}

/// An error of the select-exactly-one operation.
#[derive(Debug)]
pub enum SelectOneError<E> {
    /// Selection failed.
    Select(SelectError<E>),
    /// The query returned fewer rows than expected.
    RowNotFound,
}

impl<E> From<SelectError<E>> for SelectOneError<E> {
    fn from(e: SelectError<E>) -> (r: Self) {
        SelectOneError::Select(e)
    }
}

impl<E> vstd::std_specs::convert::FromSpecImpl<SelectError<E>> for SelectOneError<E> {
    open spec fn obeys_from_spec() -> bool {
        true
    }

    open spec fn from_spec(e: SelectError<E>) -> Self {
        SelectOneError::Select(e)
    }
}

/// The select that fetches one entity by its id: every column, one filter
/// clause `id_col_name = id`, no ordering and no pagination.
pub fn get_query(
    table_name: &'static str,
    col_names: Vec<&'static str>,
    id_col_name: &'static str,
    id: Value,
) -> (r: SelectQuery)
    ensures
        r.table_name == table_name,
        r.col_names == col_names,
        r.selectors@.len() == 1,
        r.selectors@[0]@ == seq![(id_col_name, FindOperator::Eq(id))],
        r.order_by is None,
        r.offset is None,
        r.limit is None,
{
    let mut selector = Selector::new();
    selector.add_col(id_col_name, FindOperator::Eq(id));
    let mut selectors: Vec<Selector> = Vec::new();
    selectors.push(selector);
    proof {
        assert(selectors@[0]@ =~= seq![(id_col_name, FindOperator::Eq(id))]);
    }
    SelectQuery {
        table_name,
        col_names,
        selectors,
        order_by: None,
        offset: None,
        limit: None,
    }
}

/// The select of a find with options: the given filter clauses, and the
/// ordering and pagination taken from `options`.
pub fn find_query(
    table_name: &'static str,
    col_names: Vec<&'static str>,
    selectors: Vec<Selector>,
    options: FindOptions<&'static str>,
) -> (r: SelectQuery)
    ensures
        r.table_name == table_name,
        r.col_names == col_names,
        r.selectors == selectors,
        r.order_by == options.order_by,
        r.offset == options.offset,
        r.limit == options.limit,
{
    SelectQuery {
        table_name,
        col_names,
        selectors,
        order_by: options.order_by,
        offset: options.offset,
        limit: options.limit,
    }
}

/// The count of the rows matching the given filter clauses.
pub fn count_query(table_name: &'static str, selectors: Vec<Selector>) -> (r: CountQuery)
    ensures
        r.table_name == table_name,
        r.selectors == selectors,
{
    CountQuery { table_name, selectors }
}

/// The insert of the given rows.
pub fn insert_query(table_name: &'static str, values: Vec<InputRecord>) -> (r: InsertQuery)
    ensures
        r.table_name == table_name,
        r.values == values,
{
    InsertQuery { table_name, values }
}

/// The insert of the given rows, returning the generated columns.
pub fn create_query(
    table_name: &'static str,
    values: Vec<InputRecord>,
    returning_cols: Vec<&'static str>,
) -> (r: InsertReturningQuery)
    ensures
        r.insert_query.table_name == table_name,
        r.insert_query.values == values,
        r.returning_cols == returning_cols,
{
    InsertReturningQuery { insert_query: InsertQuery { table_name, values }, returning_cols }
}

/// The update that patches one entity by its id: the new values, filtered
/// by one clause `id_col_name = id`.
pub fn patch_query(
    table_name: &'static str,
    id_col_name: &'static str,
    id: Value,
    new_values: InputRecord,
) -> (r: UpdateQuery)
    ensures
        r.table_name == table_name,
        r.selectors@.len() == 1,
        r.selectors@[0]@ == seq![(id_col_name, FindOperator::Eq(id))],
        r.new_values == new_values,
{
    let mut selector = Selector::new();
    selector.add_col(id_col_name, FindOperator::Eq(id));
    let mut selectors: Vec<Selector> = Vec::new();
    selectors.push(selector);
    proof {
        assert(selectors@[0]@ =~= seq![(id_col_name, FindOperator::Eq(id))]);
    }
    UpdateQuery { table_name, selectors, new_values }
}

/// The update of every row matching the given filter clauses.
pub fn update_query(
    table_name: &'static str,
    selectors: Vec<Selector>,
    new_values: InputRecord,
) -> (r: UpdateQuery)
    ensures
        r.table_name == table_name,
        r.selectors == selectors,
        r.new_values == new_values,
{
    UpdateQuery { table_name, selectors, new_values }
}

/// The delete that removes one entity by its id.
pub fn remove_query(table_name: &'static str, id_col_name: &'static str, id: Value) -> (r:
    DeleteQuery)
    ensures
        r.table_name == table_name,
        r.selectors@.len() == 1,
        r.selectors@[0]@ == seq![(id_col_name, FindOperator::Eq(id))],
{
    let mut selector = Selector::new();
    selector.add_col(id_col_name, FindOperator::Eq(id));
    let mut selectors: Vec<Selector> = Vec::new();
    selectors.push(selector);
    proof {
        assert(selectors@[0]@ =~= seq![(id_col_name, FindOperator::Eq(id))]);
    }
    DeleteQuery { table_name, selectors }
}

/// The delete of every row matching the given filter clauses.
pub fn delete_query(table_name: &'static str, selectors: Vec<Selector>) -> (r: DeleteQuery)
    ensures
        r.table_name == table_name,
        r.selectors == selectors,
{
    DeleteQuery { table_name, selectors }
}

} // verus!
