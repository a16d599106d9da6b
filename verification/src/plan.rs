//! Executor decisions: for each query kind, whether to touch the database
//! at all, and with what statement. The executing collaborator (an async
//! database driver) performs the plan; every decision is made here, in
//! verified code.
//!
//! The decisions follow SQL's semantics for degenerate filters. A filter
//! list with no clauses is valid and means "match all", and a filter list
//! containing an empty clause matches every row too: in both cases the
//! statement runs unfiltered (the renderer omits the WHERE clause and the
//! binder binds nothing). An `In` over an empty list matches nothing, so a
//! query whose filter carries one — and no match-all clause — never
//! reaches the database. An update with nothing to set, or an insert with
//! nothing to insert, never reaches the database either.

use vstd::prelude::*;

use crate::bind::spec_count_binds;
use crate::bind::spec_delete_binds;
use crate::bind::spec_insert_binds;
use crate::bind::spec_select_binds;
use crate::bind::spec_update_binds;
use crate::operator::FindOperator;
use crate::params::WithBindParameters;
use crate::query::CountQuery;
use crate::query::DeleteQuery;
use crate::query::InsertQuery;
use crate::query::InsertReturningQuery;
use crate::query::SelectQuery;
use crate::query::UpdateQuery;
use crate::render::spec_count_slots;
use crate::render::spec_count_sql;
use crate::render::spec_delete_slots;
use crate::render::spec_delete_sql;
use crate::render::spec_filter_dropped;
use crate::render::spec_insert_returning_sql;
use crate::render::spec_insert_slots;
use crate::render::spec_insert_sql;
use crate::render::spec_select_slots;
use crate::render::spec_select_sql;
use crate::render::spec_tokens;
use crate::render::spec_update_slots;
use crate::render::spec_update_sql;
use crate::render::any_empty_sel;
use crate::selector::Selector;
use crate::value::Value;

verus! {

/// One ready-to-execute parameterized statement: the SQL text and the
/// values to bind, in placeholder order.
pub struct Statement {
    pub sql: String,
    pub binds: Vec<Value>,
}

/// The decision for a select.
pub enum SelectPlan {
    /// No columns were asked for: yield a single empty record without
    /// touching the database.
    OneEmptyRecord,
    /// The filter can match no row: yield nothing without touching the
    /// database.
    NoRows,
    /// Execute the statement and yield its rows.
    Run(Statement),
}

/// The decision for a count.
pub enum CountPlan {
    /// The filter can match no row: the count is zero without touching the
    /// database.
    Zero,
    /// Execute the statement and read the count.
    Run(Statement),
}

/// The decision for an insert, update or delete.
pub enum ExecPlan {
    /// Nothing to do: succeed without touching the database.
    Skip,
    /// Execute the statement.
    Run(Statement),
}

/// The decision for an insert-returning.
pub enum FetchPlan {
    /// Nothing to insert: yield nothing without touching the database.
    NoRows,
    /// Execute the statement and yield the returned rows.
    Run(Statement),
}

/// Whether one operator is an `In` over an empty list (a predicate no row
/// satisfies).
pub open spec fn spec_op_is_empty_in(op: FindOperator<Value>) -> bool {
    match op {
        FindOperator::In(vs) => vs@.len() == 0,
        _ => false,
    }
}

/// Whether one clause contains an `In` over an empty list.
pub open spec fn spec_sel_has_empty_in(s: Seq<(&'static str, FindOperator<Value>)>) -> bool {
    exists|j: int| 0 <= j < s.len() && spec_op_is_empty_in((#[trigger] s[j]).1)
}

/// Whether some clause of the disjunction contains an empty `In`. Such a
/// clause matches nothing; when no match-all clause stands beside it, the
/// executor conservatively treats the whole query as matching nothing
/// rather than rendering an unsatisfiable `IN ()` predicate.
pub open spec fn spec_has_empty_in(ss: Seq<Selector>) -> bool {
    exists|i: int| 0 <= i < ss.len() && spec_sel_has_empty_in((#[trigger] ss[i])@)
}

/// Whether every row of an insert writes nothing.
pub open spec fn spec_all_rows_empty(rows: Seq<crate::selector::InputRecord>) -> bool {
    forall|i: int| 0 <= i < rows.len() ==> (#[trigger] rows[i])@.len() == 0
}

/// Whether `sel` contains an `In` over an empty list.
fn sel_has_empty_in(sel: &Selector) -> (r: bool)
    ensures
        r == spec_sel_has_empty_in(sel@),
{
    let entries = sel.cols();
    let n = entries.len();
    let mut j: usize = 0;
    while j < n
        invariant
            j <= n == sel@.len(),
            entries@ == sel@,
            forall|l: int| 0 <= l < j ==> !spec_op_is_empty_in((#[trigger] sel@[l]).1),
        decreases n - j,
    {
        match &entries[j].1 {
            FindOperator::In(vs) => {
                if vs.len() == 0 {
                    return true;
                }
            },
            _ => {},
        }
        j = j + 1;
    }
    false
}

/// Whether some clause of `selectors` contains an empty `In`.
fn has_empty_in(selectors: &Vec<Selector>) -> (r: bool)
    ensures
        r == spec_has_empty_in(selectors@),
{
    let n = selectors.len();
    let mut i: usize = 0;
    while i < n
        invariant
            i <= n == selectors@.len(),
            forall|l: int| 0 <= l < i ==> !spec_sel_has_empty_in(selectors@[l]@),
        decreases n - i,
    {
        if sel_has_empty_in(&selectors[i]) {
            return true;
        }
        i = i + 1;
    }
    false
}

/// Whether every row writes nothing.
fn all_rows_empty(rows: &Vec<crate::selector::InputRecord>) -> (r: bool)
    ensures
        r == spec_all_rows_empty(rows@),
{
    let n = rows.len();
    let mut i: usize = 0;
    while i < n
        invariant
            i <= n == rows@.len(),
            forall|l: int| 0 <= l < i ==> rows@[l]@.len() == 0,
        decreases n - i,
    {
        if !rows[i].is_empty() {
            return false;
        }
        i = i + 1;
    }
    true
}

/// Decide a select for dialect `D`. A dropped filter (no clauses, or an
/// empty clause among them) matches every row: the unfiltered select runs.
pub fn plan_select<D: WithBindParameters>(q: SelectQuery) -> (r: SelectPlan)
    requires
        spec_select_slots(q) <= u64::MAX,
    ensures
        q.col_names@.len() == 0 ==> r is OneEmptyRecord,
        q.col_names@.len() != 0 && !spec_filter_dropped(q.selectors@) && spec_has_empty_in(
            q.selectors@,
        ) ==> r is NoRows,
        q.col_names@.len() != 0 && (spec_filter_dropped(q.selectors@) || !spec_has_empty_in(
            q.selectors@,
        )) ==> (r matches SelectPlan::Run(st) && st.sql@ == spec_select_sql(
            q,
            spec_tokens::<<D as WithBindParameters>::ParameterFactory>(),
            0,
        ) && st.binds@ == spec_select_binds(q)),
{
    if q.col_names.len() == 0 {
        return SelectPlan::OneEmptyRecord;
    }
    let dropped = q.selectors.len() == 0 || any_empty_sel(&q.selectors);
    if !dropped && has_empty_in(&q.selectors) {
        return SelectPlan::NoRows;
    }
    let mut pf = D::parameter_factory();
    let sql = q.to_sql(&mut pf);
    let binds = q.bind_values();
    SelectPlan::Run(Statement { sql, binds })
}

/// Decide a count for dialect `D`. A dropped filter counts the whole
/// table.
pub fn plan_count<D: WithBindParameters>(q: CountQuery) -> (r: CountPlan)
    requires
        spec_count_slots(q) <= u64::MAX,
    ensures
        !spec_filter_dropped(q.selectors@) && spec_has_empty_in(q.selectors@) ==> r is Zero,
        spec_filter_dropped(q.selectors@) || !spec_has_empty_in(q.selectors@) ==> (r
            matches CountPlan::Run(st) && st.sql@ == spec_count_sql(
            q,
            spec_tokens::<<D as WithBindParameters>::ParameterFactory>(),
            0,
        ) && st.binds@ == spec_count_binds(q)),
{
    let dropped = q.selectors.len() == 0 || any_empty_sel(&q.selectors);
    if !dropped && has_empty_in(&q.selectors) {
        return CountPlan::Zero;
    }
    let mut pf = D::parameter_factory();
    let sql = q.to_sql(&mut pf);
    let binds = q.bind_values();
    CountPlan::Run(Statement { sql, binds })
}

/// Decide a delete for dialect `D`. A dropped filter deletes every row.
pub fn plan_delete<D: WithBindParameters>(q: DeleteQuery) -> (r: ExecPlan)
    requires
        spec_delete_slots(q) <= u64::MAX,
    ensures
        !spec_filter_dropped(q.selectors@) && spec_has_empty_in(q.selectors@) ==> r is Skip,
        spec_filter_dropped(q.selectors@) || !spec_has_empty_in(q.selectors@) ==> (r
            matches ExecPlan::Run(st) && st.sql@ == spec_delete_sql(
            q,
            spec_tokens::<<D as WithBindParameters>::ParameterFactory>(),
            0,
        ) && st.binds@ == spec_delete_binds(q)),
{
    let dropped = q.selectors.len() == 0 || any_empty_sel(&q.selectors);
    if !dropped && has_empty_in(&q.selectors) {
        return ExecPlan::Skip;
    }
    let mut pf = D::parameter_factory();
    let sql = q.to_sql(&mut pf);
    let binds = q.bind_values();
    ExecPlan::Run(Statement { sql, binds })
}

/// Decide an insert for dialect `D`. An insert with no rows, or none that
/// writes anything, never reaches the database.
pub fn plan_insert<D: WithBindParameters>(q: InsertQuery) -> (r: ExecPlan)
    requires
        spec_insert_slots(q) <= u64::MAX,
    ensures
        q.values@.len() == 0 || spec_all_rows_empty(q.values@) ==> r is Skip,
        q.values@.len() != 0 && !spec_all_rows_empty(q.values@) ==> (r
            matches ExecPlan::Run(st) && st.sql@ == spec_insert_sql(
            q,
            spec_tokens::<<D as WithBindParameters>::ParameterFactory>(),
            0,
        ) && st.binds@ == spec_insert_binds(q)),
{
    if q.values.len() == 0 || all_rows_empty(&q.values) {
        return ExecPlan::Skip;
    }
    let mut pf = D::parameter_factory();
    let sql = q.to_sql(&mut pf);
    let binds = q.bind_values();
    ExecPlan::Run(Statement { sql, binds })
}

/// Decide an insert-returning for dialect `D`.
pub fn plan_insert_returning<D: WithBindParameters>(q: InsertReturningQuery) -> (r: FetchPlan)
    requires
        spec_insert_slots(q.insert_query) <= u64::MAX,
    ensures
        q.insert_query.values@.len() == 0 || spec_all_rows_empty(q.insert_query.values@)
            ==> r is NoRows,
        q.insert_query.values@.len() != 0 && !spec_all_rows_empty(q.insert_query.values@) ==> (r
            matches FetchPlan::Run(st) && st.sql@ == spec_insert_returning_sql(
            q,
            spec_tokens::<<D as WithBindParameters>::ParameterFactory>(),
            0,
        ) && st.binds@ == spec_insert_binds(q.insert_query)),
{
    if q.insert_query.values.len() == 0 || all_rows_empty(&q.insert_query.values) {
        return FetchPlan::NoRows;
    }
    let mut pf = D::parameter_factory();
    let sql = q.to_sql(&mut pf);
    let binds = q.bind_values();
    FetchPlan::Run(Statement { sql, binds })
}

/// Decide an update for dialect `D`. An update whose new values are empty
/// is a no-op; a dropped filter updates every row.
pub fn plan_update<D: WithBindParameters>(q: UpdateQuery) -> (r: ExecPlan)
    requires
        spec_update_slots(q) <= u64::MAX,
    ensures
        q.new_values@.len() == 0 ==> r is Skip,
        q.new_values@.len() != 0 && !spec_filter_dropped(q.selectors@) && spec_has_empty_in(
            q.selectors@,
        ) ==> r is Skip,
        q.new_values@.len() != 0 && (spec_filter_dropped(q.selectors@) || !spec_has_empty_in(
            q.selectors@,
        )) ==> (r matches ExecPlan::Run(st) && st.sql@ == spec_update_sql(
            q,
            spec_tokens::<<D as WithBindParameters>::ParameterFactory>(),
            0,
        ) && st.binds@ == spec_update_binds(q)),
{
    if q.new_values.is_empty() {
        return ExecPlan::Skip;
    }
    let dropped = q.selectors.len() == 0 || any_empty_sel(&q.selectors);
    if !dropped && has_empty_in(&q.selectors) {
        return ExecPlan::Skip;
    }
    let mut pf = D::parameter_factory();
    let sql = q.to_sql(&mut pf);
    let binds = q.bind_values();
    ExecPlan::Run(Statement { sql, binds })
}

} // verus!
