//! The binder: walks the same structures the renderer walked, in the same
//! order, and produces the ordered sequence of values to hand to a prepared
//! statement. Binding consumes the query, transferring ownership of every
//! value exactly once, in render order.
//!
//! The safety-critical invariant of the whole library is that the renderer's
//! placeholder tokens and the binder's values line up label for label. Both
//! sides are defined over one structural walk: filter clauses in list order,
//! columns in declaration order, `In`/`NotIn` members in list order (null
//! members skipped on both sides), insert rows in row order walking the
//! declared column list, update values before update filters; a dropped
//! filter (no clauses, or an empty clause among them) renders no WHERE
//! text and binds nothing. The public
//! proof functions at the bottom state the countable part of that law: the
//! renderer consumes exactly as many tokens as the binder emits values, and
//! by the shared walk the `j`-th token stands for the `j`-th value.

use vstd::prelude::*;

use crate::operator::FindOperator;
use crate::query::CountQuery;
use crate::query::DeleteQuery;
use crate::query::InsertQuery;
use crate::query::InsertReturningQuery;
use crate::query::SelectQuery;
use crate::query::UpdateQuery;
use crate::render::spec_count_slots;
use crate::render::spec_delete_slots;
use crate::render::spec_dedup;
use crate::render::spec_has_name;
use crate::render::spec_insert_slots;
use crate::render::spec_nonnull_count;
use crate::render::spec_op_slots;
use crate::render::spec_row_slots;
use crate::render::spec_rows_slots;
use crate::render::spec_sel_slots;
use crate::render::spec_select_slots;
use crate::render::spec_sels_slots;
use crate::render::spec_union_cols;
use crate::render::spec_update_slots;
use crate::render::spec_filter_dropped;
use crate::render::spec_where_slots;
use crate::render::any_empty_sel;
use crate::render::union_cols;
use crate::selector::InputRecord;
use crate::selector::Selector;
use crate::selector::lemma_first_index_from_end;
use crate::selector::lemma_first_index_from_here;
use crate::selector::lemma_first_index_from_next;
use crate::selector::spec_first_index;
use crate::selector::spec_first_index_from;
use crate::selector::spec_first_match;
use crate::text::str_eq;
use crate::value::Value;

verus! {

/// The non-null values of `vals`, in list order: what an `In`/`NotIn` list
/// binds.
pub open spec fn spec_nonnull_values(vals: Seq<Value>) -> Seq<Value>
    decreases vals.len(),
{
    if vals.len() == 0 {
        Seq::empty()
    } else {
        spec_nonnull_values(vals.drop_last()) + if vals.last().spec_is_null() {
            Seq::<Value>::empty()
        } else {
            seq![vals.last()]
        }
    }
}

/// What one operator binds: its value when non-null for `Eq`/`Ne` (a null
/// value renders `IS [NOT] NULL` instead and binds nothing), the non-null
/// list members for `In`/`NotIn`.
pub open spec fn spec_op_binds(op: FindOperator<Value>) -> Seq<Value> {
    match op {
        FindOperator::Eq(v) => if v.spec_is_null() {
            Seq::empty()
        } else {
            seq![v]
        },
        FindOperator::Ne(v) => if v.spec_is_null() {
            Seq::empty()
        } else {
            seq![v]
        },
        FindOperator::In(vs) => spec_nonnull_values(vs@),
        FindOperator::NotIn(vs) => spec_nonnull_values(vs@),
    }
}

/// What one filter clause binds: its entries' values in declaration order.
pub open spec fn spec_sel_binds(s: Seq<(&'static str, FindOperator<Value>)>) -> Seq<Value>
    decreases s.len(),
{
    if s.len() == 0 {
        Seq::empty()
    } else {
        spec_sel_binds(s.drop_last()) + spec_op_binds(s.last().1)
    }
}

/// What a disjunction of clauses binds: each clause's values, in list
/// order.
pub open spec fn spec_sels_binds(ss: Seq<Selector>) -> Seq<Value>
    decreases ss.len(),
{
    if ss.len() == 0 {
        Seq::empty()
    } else {
        spec_sels_binds(ss.drop_last()) + spec_sel_binds(ss.last()@)
    }
}

/// What an update's SET list binds: every value, null or not, in
/// declaration order (each SET entry rendered a placeholder).
pub open spec fn spec_values_binds(row: Seq<(&'static str, Value)>) -> Seq<Value> {
    row.map_values(|e: (&'static str, Value)| e.1)
}

/// What one insert row binds: for each column of the declared list, in
/// declared order, the row's first value for it — nothing where the row
/// lacks the column (`DEFAULT` was rendered there).
pub open spec fn spec_row_binds(cols: Seq<&'static str>, row: Seq<(&'static str, Value)>) -> Seq<
    Value,
>
    decreases cols.len(),
{
    if cols.len() == 0 {
        Seq::empty()
    } else {
        spec_row_binds(cols.drop_last(), row) + match spec_first_match(row, cols.last()@) {
            Some(v) => seq![v],
            None => Seq::<Value>::empty(),
        }
    }
}

/// What a whole insert binds: each row's values, rows in the order given.
pub open spec fn spec_rows_binds(cols: Seq<&'static str>, rows: Seq<InputRecord>) -> Seq<Value>
    decreases rows.len(),
{
    if rows.len() == 0 {
        Seq::empty()
    } else {
        spec_rows_binds(cols, rows.drop_last()) + spec_row_binds(cols, rows.last()@)
    }
}

/// What the WHERE clause binds: nothing when the filter is dropped, the
/// clauses' values in walk order otherwise — mirroring the placeholders
/// the renderer emitted.
pub open spec fn spec_where_binds(ss: Seq<Selector>) -> Seq<Value> {
    if spec_filter_dropped(ss) {
        Seq::empty()
    } else {
        spec_sels_binds(ss)
    }
}

/// What a select binds.
pub open spec fn spec_select_binds(q: SelectQuery) -> Seq<Value> {
    spec_where_binds(q.selectors@)
}

/// What a count binds.
pub open spec fn spec_count_binds(q: CountQuery) -> Seq<Value> {
    spec_where_binds(q.selectors@)
}

/// What a delete binds.
pub open spec fn spec_delete_binds(q: DeleteQuery) -> Seq<Value> {
    spec_where_binds(q.selectors@)
}

/// What an insert binds.
pub open spec fn spec_insert_binds(q: InsertQuery) -> Seq<Value> {
    spec_rows_binds(spec_union_cols(q.values@), q.values@)
}

/// What an update binds: the new values first, then the filter values,
/// matching the textual `SET ... WHERE ...` order.
pub open spec fn spec_update_binds(q: UpdateQuery) -> Seq<Value> {
    spec_values_binds(q.new_values@) + spec_where_binds(q.selectors@)
}

/// Append the non-null values of `vals` to `out`, in list order, consuming
/// the list.
fn collect_nonnull(vals: Vec<Value>, out: &mut Vec<Value>)
    ensures
        final(out)@ == old(out)@ + spec_nonnull_values(vals@),
{
    let ghost orig = vals@;
    let n = vals.len();
    let mut rest = vals;
    let mut taken: usize = 0;
    proof {
        assert(orig.take(0) =~= Seq::<Value>::empty());
        assert(out@ =~= old(out)@ + spec_nonnull_values(orig.take(0)));
        assert(rest@ =~= orig.skip(0));
    }
    while rest.len() > 0
        invariant
            taken <= n == orig.len(),
            taken + rest@.len() == orig.len(),
            rest@ == orig.skip(taken as int),
            out@ == old(out)@ + spec_nonnull_values(orig.take(taken as int)),
        decreases rest@.len(),
    {
        let v = rest.remove(0);
        proof {
            assert(v == orig[taken as int]);
            assert(orig.take(taken + 1).drop_last() =~= orig.take(taken as int));
            assert(orig.take(taken + 1).last() == orig[taken as int]);
        }
        if !v.is_null() {
            out.push(v);
        }
        proof {
            assert(out@ =~= old(out)@ + spec_nonnull_values(orig.take(taken + 1)));
        }
        taken = taken + 1;
        proof {
            assert(rest@ =~= orig.skip(taken as int));
        }
    }
    proof {
        assert(orig.take(taken as int) =~= orig);
    }
}

/// Append what `op` binds to `out`, consuming the operator.
fn collect_op_binds(op: FindOperator<Value>, out: &mut Vec<Value>)
    ensures
        final(out)@ == old(out)@ + spec_op_binds(op),
{
    match op {
        FindOperator::Eq(v) => {
            let is_null = v.is_null();
            if !is_null {
                out.push(v);
            }
            proof {
                assert(out@ =~= old(out)@ + spec_op_binds(FindOperator::Eq(v)));
            }
        },
        FindOperator::Ne(v) => {
            let is_null = v.is_null();
            if !is_null {
                out.push(v);
            }
            proof {
                assert(out@ =~= old(out)@ + spec_op_binds(FindOperator::Ne(v)));
            }
        },
        FindOperator::In(vs) => {
            collect_nonnull(vs, out);
        },
        FindOperator::NotIn(vs) => {
            collect_nonnull(vs, out);
        },
    }
}

/// Append what one filter clause binds to `out`, consuming the clause.
fn collect_sel_binds(sel: Selector, out: &mut Vec<Value>)
    ensures
        final(out)@ == old(out)@ + spec_sel_binds(sel@),
{
    let ghost orig = sel@;
    let entries = sel.into_cols();
    let n = entries.len();
    let mut rest = entries;
    let mut taken: usize = 0;
    proof {
        assert(orig.take(0) =~= Seq::<(&'static str, FindOperator<Value>)>::empty());
        assert(out@ =~= old(out)@ + spec_sel_binds(orig.take(0)));
        assert(rest@ =~= orig.skip(0));
    }
    while rest.len() > 0
        invariant
            taken <= n == orig.len(),
            taken + rest@.len() == orig.len(),
            rest@ == orig.skip(taken as int),
            out@ == old(out)@ + spec_sel_binds(orig.take(taken as int)),
        decreases rest@.len(),
    {
        let entry = rest.remove(0);
        proof {
            assert(entry == orig[taken as int]);
            assert(orig.take(taken + 1).drop_last() =~= orig.take(taken as int));
            assert(orig.take(taken + 1).last() == orig[taken as int]);
        }
        collect_op_binds(entry.1, out);
        proof {
            assert(out@ =~= old(out)@ + spec_sel_binds(orig.take(taken + 1)));
        }
        taken = taken + 1;
        proof {
            assert(rest@ =~= orig.skip(taken as int));
        }
    }
    proof {
        assert(orig.take(taken as int) =~= orig);
    }
}

/// Append what a disjunction of clauses binds to `out`, consuming the
/// clauses.
fn collect_sels_binds(selectors: Vec<Selector>, out: &mut Vec<Value>)
    ensures
        final(out)@ == old(out)@ + spec_sels_binds(selectors@),
{
    let ghost orig = selectors@;
    let n = selectors.len();
    let mut rest = selectors;
    let mut taken: usize = 0;
    proof {
        assert(orig.take(0) =~= Seq::<Selector>::empty());
        assert(out@ =~= old(out)@ + spec_sels_binds(orig.take(0)));
        assert(rest@ =~= orig.skip(0));
    }
    while rest.len() > 0
        invariant
            taken <= n == orig.len(),
            taken + rest@.len() == orig.len(),
            rest@ == orig.skip(taken as int),
            out@ == old(out)@ + spec_sels_binds(orig.take(taken as int)),
        decreases rest@.len(),
    {
        let sel = rest.remove(0);
        proof {
            assert(sel == orig[taken as int]);
            assert(orig.take(taken + 1).drop_last() =~= orig.take(taken as int));
            assert(orig.take(taken + 1).last() == orig[taken as int]);
        }
        collect_sel_binds(sel, out);
        proof {
            assert(out@ =~= old(out)@ + spec_sels_binds(orig.take(taken + 1)));
        }
        taken = taken + 1;
        proof {
            assert(rest@ =~= orig.skip(taken as int));
        }
    }
    proof {
        assert(orig.take(taken as int) =~= orig);
    }
}

/// Append what the WHERE clause binds to `out`: nothing when the filter
/// is dropped, consuming the clauses.
fn collect_where_binds(selectors: Vec<Selector>, out: &mut Vec<Value>)
    ensures
        final(out)@ == old(out)@ + spec_where_binds(selectors@),
{
    if selectors.len() == 0 {
        return ;
    }
    if any_empty_sel(&selectors) {
        return ;
    }
    collect_sels_binds(selectors, out);
}

/// Append what an update's SET list binds to `out`: every value in
/// declaration order, consuming the record.
fn collect_values_binds(row: InputRecord, out: &mut Vec<Value>)
    ensures
        final(out)@ == old(out)@ + spec_values_binds(row@),
{
    let ghost orig = row@;
    let ghost f = (|e: (&'static str, Value)| e.1);
    let entries = row.into_cols();
    let n = entries.len();
    let mut rest = entries;
    let mut taken: usize = 0;
    proof {
        assert(out@ =~= old(out)@ + orig.take(0).map_values(f));
        assert(rest@ =~= orig.skip(0));
    }
    while rest.len() > 0
        invariant
            taken <= n == orig.len(),
            taken + rest@.len() == orig.len(),
            rest@ == orig.skip(taken as int),
            f == (|e: (&'static str, Value)| e.1),
            out@ == old(out)@ + orig.take(taken as int).map_values(f),
        decreases rest@.len(),
    {
        let entry = rest.remove(0);
        proof {
            assert(entry == orig[taken as int]);
            orig.lemma_map_take_succ(f, taken as int);
        }
        out.push(entry.1);
        proof {
            assert(out@ =~= old(out)@ + orig.take(taken + 1).map_values(f));
        }
        taken = taken + 1;
        proof {
            assert(rest@ =~= orig.skip(taken as int));
        }
    }
    proof {
        assert(orig.take(taken as int) =~= orig);
    }
}

/// All the names of `names` differ pairwise (as character sequences).
pub open spec fn spec_distinct_names(names: Seq<&'static str>) -> bool {
    forall|i: int, j: int| 0 <= i < j < names.len() ==> names[i]@ != names[j]@
}

/// Deduplication yields pairwise distinct names.
proof fn lemma_dedup_distinct(acc: Seq<&'static str>, names: Seq<&'static str>)
    requires
        spec_distinct_names(acc),
    ensures
        spec_distinct_names(spec_dedup(acc, names)),
    decreases names.len(),
{
    if names.len() > 0 {
        lemma_dedup_distinct(acc, names.drop_last());
        let prev = spec_dedup(acc, names.drop_last());
        if !spec_has_name(prev, names.last()@) {
            assert forall|i: int, j: int|
                0 <= i < j < prev.push(names.last()).len() implies prev.push(names.last())[i]@
                != prev.push(names.last())[j]@ by {
                if j == prev.len() {
                    assert(!spec_has_name(prev, names.last()@));
                    assert(prev.push(names.last())[i] == prev[i]);
                }
            }
        }
    }
}

/// The rendered insert column list has pairwise distinct names.
pub proof fn lemma_union_cols_distinct(rows: Seq<InputRecord>)
    ensures
        spec_distinct_names(spec_union_cols(rows)),
{
    lemma_dedup_distinct(Seq::empty(), crate::render::spec_all_names(rows));
}

/// A `Some` first index points at the first entry for `name`, and the
/// first match is that entry's value.
proof fn lemma_first_index_match<T>(s: Seq<(&'static str, T)>, name: Seq<char>, i: int)
    requires
        spec_first_index(s, name) == Some(i),
    ensures
        0 <= i < s.len(),
        s[i].0@ == name,
        forall|j: int| 0 <= j < i ==> s[j].0@ != name,
        spec_first_match(s, name) == Some(s[i].1),
    decreases s.len(),
{
    if s.len() > 0 {
        if s[0].0@ == name {
        } else {
            lemma_first_index_match(s.drop_first(), name, i - 1);
            assert forall|j: int| 0 <= j < i implies s[j].0@ != name by {
                if j > 0 {
                    assert(s.drop_first()[j - 1] == s[j]);
                }
            }
        }
    }
}

/// Removing the first entry for one name leaves the first match of every
/// other name unchanged.
proof fn lemma_remove_preserves_first_match<T>(
    s: Seq<(&'static str, T)>,
    i: int,
    m: Seq<char>,
)
    requires
        0 <= i < s.len(),
        forall|j: int| 0 <= j < i ==> s[j].0@ != s[i].0@,
        m != s[i].0@,
    ensures
        spec_first_match(s.remove(i), m) == spec_first_match(s, m),
    decreases s.len(),
{
    if i == 0 {
        assert(s.remove(0) =~= s.drop_first());
    } else {
        if s[0].0@ == m {
            assert(s.remove(i)[0] == s[0]);
        } else {
            assert(s.remove(i)[0] == s[0]);
            assert(s.remove(i).drop_first() =~= s.drop_first().remove(i - 1));
            assert forall|j: int| 0 <= j < i - 1 implies (#[trigger] s.drop_first()[j]).0@
                != s.drop_first()[i - 1].0@ by {
                assert(s.drop_first()[j] == s[j + 1]);
            }
            lemma_remove_preserves_first_match(s.drop_first(), i - 1, m);
        }
    }
}

/// The first index of `name` among `entries`, if any.
fn find_name_index(entries: &Vec<(&'static str, Value)>, name: &str) -> (r: Option<usize>)
    ensures
        match r {
            Some(i) => spec_first_index(entries@, name@) == Some(i as int),
            None => spec_first_index(entries@, name@) is None,
        },
{
    let n = entries.len();
    let mut i: usize = 0;
    proof {
        assert(entries@.skip(0) =~= entries@);
    }
    while i < n
        invariant
            i <= n == entries@.len(),
            spec_first_index(entries@, name@) == spec_first_index_from(
                entries@,
                name@,
                i as int,
            ),
        decreases n - i,
    {
        if str_eq(entries[i].0, name) {
            proof {
                lemma_first_index_from_here(entries@, name@, i as int);
            }
            return Some(i);
        }
        proof {
            lemma_first_index_from_next(entries@, name@, i as int);
        }
        i = i + 1;
    }
    proof {
        lemma_first_index_from_end(entries@, name@);
    }
    None
}

/// Append what one insert row binds to `out`: the row's first value for
/// each declared column it has, in declared-column order, consuming the
/// row. The declared columns must be pairwise distinct, as the union list
/// is.
fn collect_row_binds(cols: &Vec<&'static str>, row: InputRecord, out: &mut Vec<Value>)
    requires
        spec_distinct_names(cols@),
    ensures
        final(out)@ == old(out)@ + spec_row_binds(cols@, row@),
{
    let ghost orig = row@;
    let mut rest = row.into_cols();
    let n = cols.len();
    let mut i: usize = 0;
    proof {
        assert(cols@.take(0) =~= Seq::<&'static str>::empty());
        assert(out@ =~= old(out)@ + spec_row_binds(cols@.take(0), orig));
    }
    while i < n
        invariant
            i <= n == cols@.len(),
            spec_distinct_names(cols@),
            out@ == old(out)@ + spec_row_binds(cols@.take(i as int), orig),
            forall|j: int|
                i <= j < n ==> spec_first_match(rest@, cols@[j]@) == spec_first_match(
                    orig,
                    cols@[j]@,
                ),
        decreases n - i,
    {
        proof {
            assert(cols@.take(i + 1).drop_last() =~= cols@.take(i as int));
            assert(cols@.take(i + 1).last() == cols@[i as int]);
        }
        let ghost before = rest@;
        match find_name_index(&rest, cols[i]) {
            Some(idx) => {
                proof {
                    lemma_first_index_match(before, cols@[i as int]@, idx as int);
                }
                let entry = rest.remove(idx);
                out.push(entry.1);
                proof {
                    assert(spec_first_match(orig, cols@[i as int]@) == Some(entry.1));
                    assert(out@ =~= old(out)@ + spec_row_binds(cols@.take(i + 1), orig));
                    assert forall|j: int|
                        i + 1 <= j < n implies spec_first_match(rest@, cols@[j]@)
                        == spec_first_match(orig, cols@[j]@) by {
                        assert(cols@[j]@ != cols@[i as int]@);
                        lemma_remove_preserves_first_match(before, idx as int, cols@[j]@);
                    }
                }
            },
            None => {
                proof {
                    assert(spec_first_match(orig, cols@[i as int]@) is None) by {
                        lemma_first_index_none(before, cols@[i as int]@);
                        assert(spec_first_match(before, cols@[i as int]@) is None);
                    }
                    assert(out@ =~= old(out)@ + spec_row_binds(cols@.take(i + 1), orig));
                }
            },
        }
        i = i + 1;
    }
    proof {
        assert(cols@.take(n as int) =~= cols@);
    }
}

/// A `None` first index means no first match.
proof fn lemma_first_index_none<T>(s: Seq<(&'static str, T)>, name: Seq<char>)
    requires
        spec_first_index(s, name) is None,
    ensures
        spec_first_match(s, name) is None,
    decreases s.len(),
{
    if s.len() > 0 {
        if s[0].0@ == name {
        } else {
            lemma_first_index_none(s.drop_first(), name);
        }
    }
}

/// Append what all insert rows bind to `out`, rows in the order given,
/// consuming the rows.
fn collect_rows_binds(cols: &Vec<&'static str>, rows: Vec<InputRecord>, out: &mut Vec<Value>)
    requires
        spec_distinct_names(cols@),
    ensures
        final(out)@ == old(out)@ + spec_rows_binds(cols@, rows@),
{
    let ghost orig = rows@;
    let n = rows.len();
    let mut rest = rows;
    let mut taken: usize = 0;
    proof {
        assert(orig.take(0) =~= Seq::<InputRecord>::empty());
        assert(out@ =~= old(out)@ + spec_rows_binds(cols@, orig.take(0)));
        assert(rest@ =~= orig.skip(0));
    }
    while rest.len() > 0
        invariant
            taken <= n == orig.len(),
            taken + rest@.len() == orig.len(),
            rest@ == orig.skip(taken as int),
            spec_distinct_names(cols@),
            out@ == old(out)@ + spec_rows_binds(cols@, orig.take(taken as int)),
        decreases rest@.len(),
    {
        let row = rest.remove(0);
        proof {
            assert(row == orig[taken as int]);
            assert(orig.take(taken + 1).drop_last() =~= orig.take(taken as int));
            assert(orig.take(taken + 1).last() == orig[taken as int]);
        }
        collect_row_binds(cols, row, out);
        proof {
            assert(out@ =~= old(out)@ + spec_rows_binds(cols@, orig.take(taken + 1)));
        }
        taken = taken + 1;
        proof {
            assert(rest@ =~= orig.skip(taken as int));
        }
    }
    proof {
        assert(orig.take(taken as int) =~= orig);
    }
}

impl SelectQuery {
    /// The ordered bind sequence of this select: exactly the values the
    /// rendered placeholders stand for, in placeholder order. Consumes the
    /// query, so every value is bound exactly once.
    pub fn bind_values(self) -> (r: Vec<Value>)
        ensures
            r@ == spec_select_binds(self),
    {
        let mut out: Vec<Value> = Vec::new();
        collect_where_binds(self.selectors, &mut out);
        out
    }
}

impl CountQuery {
    /// The ordered bind sequence of this count.
    pub fn bind_values(self) -> (r: Vec<Value>)
        ensures
            r@ == spec_count_binds(self),
    {
        let mut out: Vec<Value> = Vec::new();
        collect_where_binds(self.selectors, &mut out);
        out
    }
}

impl DeleteQuery {
    /// The ordered bind sequence of this delete.
    pub fn bind_values(self) -> (r: Vec<Value>)
        ensures
            r@ == spec_delete_binds(self),
    {
        let mut out: Vec<Value> = Vec::new();
        collect_where_binds(self.selectors, &mut out);
        out
    }
}

impl InsertQuery {
    /// The ordered bind sequence of this insert: rows in order, each row's
    /// values in declared-column order, skipping the columns the row lacks
    /// exactly where the renderer emitted `DEFAULT`.
    pub fn bind_values(self) -> (r: Vec<Value>)
        ensures
            r@ == spec_insert_binds(self),
    {
        let cols = union_cols(&self.values);
        proof {
            lemma_union_cols_distinct(self.values@);
        }
        let mut out: Vec<Value> = Vec::new();
        collect_rows_binds(&cols, self.values, &mut out);
        out
    }
}

impl InsertReturningQuery {
    /// The ordered bind sequence: the same as the underlying insert's, the
    /// returning clause binding nothing.
    pub fn bind_values(self) -> (r: Vec<Value>)
        ensures
            r@ == spec_insert_binds(self.insert_query),
    {
        self.insert_query.bind_values()
    }
}

impl UpdateQuery {
    /// The ordered bind sequence of this update: the new values first, then
    /// the filter values, matching the textual `SET ... WHERE ...` order.
    pub fn bind_values(self) -> (r: Vec<Value>)
        ensures
            r@ == spec_update_binds(self),
    {
        let mut out: Vec<Value> = Vec::new();
        collect_values_binds(self.new_values, &mut out);
        collect_where_binds(self.selectors, &mut out);
        proof {
            assert(out@ =~= spec_update_binds(self));
        }
        out
    }
}

/// An `In`/`NotIn` list binds exactly as many values as it renders
/// placeholders.
pub proof fn lemma_nonnull_alignment(vals: Seq<Value>)
    ensures
        spec_nonnull_values(vals).len() == spec_nonnull_count(vals),
    decreases vals.len(),
{
    if vals.len() > 0 {
        lemma_nonnull_alignment(vals.drop_last());
    }
}

/// One operator binds exactly as many values as it renders placeholders.
pub proof fn lemma_op_alignment(op: FindOperator<Value>)
    ensures
        spec_op_binds(op).len() == spec_op_slots(op),
{
    match op {
        FindOperator::In(vs) => lemma_nonnull_alignment(vs@),
        FindOperator::NotIn(vs) => lemma_nonnull_alignment(vs@),
        _ => {},
    }
}

/// One filter clause binds exactly as many values as it renders
/// placeholders.
pub proof fn lemma_sel_alignment(s: Seq<(&'static str, FindOperator<Value>)>)
    ensures
        spec_sel_binds(s).len() == spec_sel_slots(s),
    decreases s.len(),
{
    if s.len() > 0 {
        lemma_sel_alignment(s.drop_last());
        lemma_op_alignment(s.last().1);
    }
}

/// A disjunction of clauses binds exactly as many values as it renders
/// placeholders.
pub proof fn lemma_sels_alignment(ss: Seq<Selector>)
    ensures
        spec_sels_binds(ss).len() == spec_sels_slots(ss),
    decreases ss.len(),
{
    if ss.len() > 0 {
        lemma_sels_alignment(ss.drop_last());
        lemma_sel_alignment(ss.last()@);
    }
}

/// One insert row binds exactly as many values as it renders placeholders
/// (`DEFAULT` positions render and bind nothing).
pub proof fn lemma_row_alignment(cols: Seq<&'static str>, row: Seq<(&'static str, Value)>)
    ensures
        spec_row_binds(cols, row).len() == spec_row_slots(cols, row),
    decreases cols.len(),
{
    if cols.len() > 0 {
        lemma_row_alignment(cols.drop_last(), row);
    }
}

/// A whole insert binds exactly as many values as it renders placeholders.
pub proof fn lemma_rows_alignment(cols: Seq<&'static str>, rows: Seq<InputRecord>)
    ensures
        spec_rows_binds(cols, rows).len() == spec_rows_slots(cols, rows),
    decreases rows.len(),
{
    if rows.len() > 0 {
        lemma_rows_alignment(cols, rows.drop_last());
        lemma_row_alignment(cols, rows.last()@);
    }
}

/// A WHERE clause binds exactly as many values as it renders placeholders:
/// none at all when the filter is dropped.
pub proof fn lemma_where_alignment(ss: Seq<Selector>)
    ensures
        spec_where_binds(ss).len() == spec_where_slots(ss),
{
    if !spec_filter_dropped(ss) {
        lemma_sels_alignment(ss);
    }
}

/// Render/bind order identity for selects: rendering consumes exactly one
/// placeholder token per bound value, and both sides walk the clauses, the
/// columns and the list members in the same order, so the `j`-th
/// placeholder of the text stands for the `j`-th value of
/// [`SelectQuery::bind_values`].
pub proof fn lemma_select_alignment(q: SelectQuery)
    ensures
        spec_select_binds(q).len() == spec_select_slots(q),
{
    lemma_where_alignment(q.selectors@);
}

/// Render/bind order identity for counts.
pub proof fn lemma_count_alignment(q: CountQuery)
    ensures
        spec_count_binds(q).len() == spec_count_slots(q),
{
    lemma_where_alignment(q.selectors@);
}

/// Render/bind order identity for deletes.
pub proof fn lemma_delete_alignment(q: DeleteQuery)
    ensures
        spec_delete_binds(q).len() == spec_delete_slots(q),
{
    lemma_where_alignment(q.selectors@);
}

/// Render/bind order identity for inserts: placeholders and bound values
/// both follow rows in order and, within a row, the declared column list.
pub proof fn lemma_insert_alignment(q: InsertQuery)
    ensures
        spec_insert_binds(q).len() == spec_insert_slots(q),
{
    lemma_rows_alignment(spec_union_cols(q.values@), q.values@);
}

/// Render/bind order identity for updates: the SET list's values come
/// first on both sides, then the filter values.
pub proof fn lemma_update_alignment(q: UpdateQuery)
    ensures
        spec_update_binds(q).len() == spec_update_slots(q),
{
    lemma_where_alignment(q.selectors@);
}

} // verus!
