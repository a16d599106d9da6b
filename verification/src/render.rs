//! The SQL renderer: turns the query models into dialect-correct SQL text,
//! consuming placeholder tokens from a [`ParameterFactory`].
//!
//! Every rendering function is specified against a spec-level model of the
//! produced text, written over the same structure walk that the binder makes
//! (see `bind`): the `k`-th placeholder token of the rendered statement
//! always stands for the `k`-th value of the bind sequence.

use vstd::prelude::*;
use vstd::string::StringExecFns;

use crate::operator::FindOperator;
use crate::params::ParameterFactory;
use crate::query::CountQuery;
use crate::query::DeleteQuery;
use crate::query::InsertQuery;
use crate::query::InsertReturningQuery;
use crate::query::Order;
use crate::query::OrderBy;
use crate::query::SelectQuery;
use crate::query::UpdateQuery;
use crate::selector::InputRecord;
use crate::selector::Selector;
use crate::selector::spec_first_match;
use crate::text::str_eq;
use crate::text::spec_u64_str;
use crate::text::u64_str;
use crate::value::Value;

verus! {

/// The token function of a factory type: what its `k`-th token reads.
pub open spec fn spec_tokens<PF: ParameterFactory>() -> spec_fn(nat) -> Seq<char> {
    (|k: nat| PF::token_of(k))
}

/// `name` wrapped in double quotes.
pub open spec fn spec_quote(name: Seq<char>) -> Seq<char> {
    "\""@ + name + "\""@
}

/// `items` joined by `sep`; empty for an empty list.
pub open spec fn spec_join(items: Seq<Seq<char>>, sep: Seq<char>) -> Seq<char>
    decreases items.len(),
{
    if items.len() == 0 {
        Seq::empty()
    } else if items.len() == 1 {
        items[0]
    } else {
        spec_join(items.drop_last(), sep) + sep + items.last()
    }
}

/// A comma-separated list, or the literal `<empty list>` sentinel when there
/// is nothing to list.
pub open spec fn spec_list(items: Seq<Seq<char>>) -> Seq<char> {
    if items.len() == 0 {
        "<empty list>"@
    } else {
        spec_join(items, ", "@)
    }
}

/// Append `items`, comma-separated, to `out`; the `<empty list>` sentinel
/// when `items` is empty.
pub fn format_list(items: &Vec<String>, out: &mut String)
    ensures
        final(out)@ == old(out)@ + spec_list(items@.map_values(|s: String| s@)),
{
    let ghost mapped = items@.map_values(|s: String| s@);
    let n = items.len();
    if n == 0 {
        out.append("<empty list>");
        return ;
    }
    let mut i: usize = 0;
    proof {
        assert(mapped.take(0) =~= Seq::<Seq<char>>::empty());
    }
    while i < n
        invariant
            0 < n == items@.len(),
            i <= n,
            mapped == items@.map_values(|s: String| s@),
            out@ == old(out)@ + spec_join(mapped.take(i as int), ", "@),
        decreases n - i,
    {
        if i > 0 {
            out.append(", ");
        }
        out.append(items[i].as_str());
        proof {
            assert(mapped.take(i + 1).drop_last() =~= mapped.take(i as int));
            assert(mapped.take(i + 1).last() == mapped[i as int]);
            assert(mapped[i as int] == items@[i as int]@);
            if i == 0 {
                assert(spec_join(mapped.take(1), ", "@) == mapped[0]);
            }
        }
        i = i + 1;
    }
    proof {
        assert(mapped.take(n as int) =~= mapped);
    }
}

/// Append `name` in double quotes to `out`.
pub fn push_quoted(name: &str, out: &mut String)
    ensures
        final(out)@ == old(out)@ + spec_quote(name@),
{
    out.append("\"");
    out.append(name);
    out.append("\"");
}

/// Whether some value of `vals` is SQL NULL.
pub open spec fn spec_any_null(vals: Seq<Value>) -> bool {
    exists|i: int| 0 <= i < vals.len() && vals[i].spec_is_null()
}

/// How many values of `vals` are not SQL NULL: the number of placeholders an
/// `In`/`NotIn` list consumes.
pub open spec fn spec_nonnull_count(vals: Seq<Value>) -> nat
    decreases vals.len(),
{
    if vals.len() == 0 {
        0
    } else {
        spec_nonnull_count(vals.drop_last()) + if vals.last().spec_is_null() {
            0nat
        } else {
            1nat
        }
    }
}

/// The placeholder tokens an `In`/`NotIn` list renders: one fresh token per
/// non-null value, in list order, starting at token index `k`.
pub open spec fn spec_in_tokens(vals: Seq<Value>, t: spec_fn(nat) -> Seq<char>, k: nat) -> Seq<
    Seq<char>,
>
    decreases vals.len(),
{
    if vals.len() == 0 {
        Seq::empty()
    } else {
        spec_in_tokens(vals.drop_last(), t, k) + if vals.last().spec_is_null() {
            Seq::<Seq<char>>::empty()
        } else {
            seq![t(k + spec_nonnull_count(vals.drop_last()))]
        }
    }
}

/// How many placeholders one operator consumes: one for a non-null `Eq`/`Ne`
/// value, none for a null one, and one per non-null list member for
/// `In`/`NotIn`.
pub open spec fn spec_op_slots(op: FindOperator<Value>) -> nat {
    match op {
        FindOperator::Eq(v) => if v.spec_is_null() {
            0nat
        } else {
            1nat
        },
        FindOperator::Ne(v) => if v.spec_is_null() {
            0nat
        } else {
            1nat
        },
        FindOperator::In(vs) => spec_nonnull_count(vs@),
        FindOperator::NotIn(vs) => spec_nonnull_count(vs@),
    }
}

/// The predicate text for one `(column, operator)` pair, with placeholder
/// tokens drawn from `t` starting at index `k`.
///
/// NULL handling: `Eq`/`Ne` of a null value render `IS NULL` / `IS NOT NULL`
/// and consume no placeholder; `In`/`NotIn` render placeholders for the
/// non-null members only, with an `OR ... IS NULL` / `AND ... IS NOT NULL`
/// tail when some member was null.
pub open spec fn spec_op_text(
    name: Seq<char>,
    op: FindOperator<Value>,
    t: spec_fn(nat) -> Seq<char>,
    k: nat,
) -> Seq<char> {
    match op {
        FindOperator::Eq(v) => if v.spec_is_null() {
            spec_quote(name) + " IS NULL"@
        } else {
            spec_quote(name) + " = "@ + t(k)
        },
        FindOperator::Ne(v) => if v.spec_is_null() {
            spec_quote(name) + " IS NOT NULL"@
        } else {
            spec_quote(name) + " != "@ + t(k)
        },
        FindOperator::In(vs) => spec_quote(name) + " IN ("@ + spec_list(spec_in_tokens(vs@, t, k))
            + ")"@ + if spec_any_null(vs@) {
            " OR "@ + spec_quote(name) + " IS NULL"@
        } else {
            Seq::<char>::empty()
        },
        FindOperator::NotIn(vs) => spec_quote(name) + " NOT IN ("@ + spec_list(
            spec_in_tokens(vs@, t, k),
        ) + ")"@ + if spec_any_null(vs@) {
            " AND "@ + spec_quote(name) + " IS NOT NULL"@
        } else {
            Seq::<char>::empty()
        },
    }
}

/// Whether some value of `vals` is SQL NULL.
fn any_null(vals: &Vec<Value>) -> (r: bool)
    ensures
        r == spec_any_null(vals@),
{
    let n = vals.len();
    let mut i: usize = 0;
    while i < n
        invariant
            i <= n == vals@.len(),
            forall|j: int| 0 <= j < i ==> !vals@[j].spec_is_null(),
        decreases n - i,
    {
        if vals[i].is_null() {
            return true;
        }
        i = i + 1;
    }
    false
}

/// Collect one fresh placeholder token per non-null value of `vals`, in list
/// order.
fn in_placeholders<PF: ParameterFactory>(vals: &Vec<Value>, pf: &mut PF) -> (r: Vec<String>)
    requires
        old(pf).counter() + spec_nonnull_count(vals@) <= u64::MAX,
    ensures
        final(pf).counter() == old(pf).counter() + spec_nonnull_count(vals@),
        r@.map_values(|s: String| s@) == spec_in_tokens(
            vals@,
            spec_tokens::<PF>(),
            old(pf).counter(),
        ),
{
    let ghost t = spec_tokens::<PF>();
    let ghost k = old(pf).counter();
    let n = vals.len();
    let mut toks: Vec<String> = Vec::new();
    let mut i: usize = 0;
    proof {
        assert(vals@.take(0) =~= Seq::<Value>::empty());
        assert(toks@.map_values(|s: String| s@) =~= spec_in_tokens(vals@.take(0), t, k));
    }
    while i < n
        invariant
            i <= n == vals@.len(),
            old(pf).counter() + spec_nonnull_count(vals@) <= u64::MAX,
            k == old(pf).counter(),
            t == spec_tokens::<PF>(),
            pf.counter() == k + spec_nonnull_count(vals@.take(i as int)),
            toks@.map_values(|s: String| s@) == spec_in_tokens(vals@.take(i as int), t, k),
        decreases n - i,
    {
        proof {
            assert(vals@.take(i + 1).drop_last() =~= vals@.take(i as int));
            assert(vals@.take(i + 1).last() == vals@[i as int]);
            lemma_nonnull_count_le(vals@, i + 1);
        }
        if !vals[i].is_null() {
            let tok = pf.get();
            toks.push(tok);
            proof {
                assert(toks@.map_values(|s: String| s@) =~= spec_in_tokens(
                    vals@.take(i + 1),
                    t,
                    k,
                ));
            }
        } else {
            proof {
                assert(toks@.map_values(|s: String| s@) =~= spec_in_tokens(
                    vals@.take(i + 1),
                    t,
                    k,
                ));
            }
        }
        i = i + 1;
    }
    proof {
        assert(vals@.take(n as int) =~= vals@);
    }
    toks
}

/// The non-null count of a prefix never exceeds that of the whole list.
proof fn lemma_nonnull_count_le(vals: Seq<Value>, i: int)
    requires
        0 <= i <= vals.len(),
    ensures
        spec_nonnull_count(vals.take(i)) <= spec_nonnull_count(vals),
    decreases vals.len() - i,
{
    if i == vals.len() {
        assert(vals.take(i) =~= vals);
    } else {
        lemma_nonnull_count_le(vals, i + 1);
        assert(vals.take(i + 1).drop_last() =~= vals.take(i));
    }
}

/// Render the predicate for one `(column, operator)` pair, appending to
/// `out` and consuming exactly [`spec_op_slots`] tokens from `pf`.
pub fn render_op<PF: ParameterFactory>(
    name: &str,
    op: &FindOperator<Value>,
    pf: &mut PF,
    out: &mut String,
)
    requires
        old(pf).counter() + spec_op_slots(*op) <= u64::MAX,
    ensures
        final(pf).counter() == old(pf).counter() + spec_op_slots(*op),
        final(out)@ == old(out)@ + spec_op_text(name@, *op, spec_tokens::<PF>(), old(
            pf,
        ).counter()),
{
    match op {
        FindOperator::Eq(v) => {
            if v.is_null() {
                push_quoted(name, out);
                out.append(" IS NULL");
            } else {
                push_quoted(name, out);
                out.append(" = ");
                let tok = pf.get();
                out.append(tok.as_str());
            }
        },
        FindOperator::Ne(v) => {
            if v.is_null() {
                push_quoted(name, out);
                out.append(" IS NOT NULL");
            } else {
                push_quoted(name, out);
                out.append(" != ");
                let tok = pf.get();
                out.append(tok.as_str());
            }
        },
        FindOperator::In(vs) => {
            push_quoted(name, out);
            out.append(" IN (");
            let toks = in_placeholders(vs, pf);
            format_list(&toks, out);
            out.append(")");
            if any_null(vs) {
                out.append(" OR ");
                push_quoted(name, out);
                out.append(" IS NULL");
            }
        },
        FindOperator::NotIn(vs) => {
            push_quoted(name, out);
            out.append(" NOT IN (");
            let toks = in_placeholders(vs, pf);
            format_list(&toks, out);
            out.append(")");
            if any_null(vs) {
                out.append(" AND ");
                push_quoted(name, out);
                out.append(" IS NOT NULL");
            }
        },
    }
}

/// How many placeholders one filter clause consumes: the sum over its
/// entries.
pub open spec fn spec_sel_slots(s: Seq<(&'static str, FindOperator<Value>)>) -> nat
    decreases s.len(),
{
    if s.len() == 0 {
        0
    } else {
        spec_sel_slots(s.drop_last()) + spec_op_slots(s.last().1)
    }
}

/// A prefix of a clause consumes no more placeholders than the whole.
proof fn lemma_sel_slots_le(s: Seq<(&'static str, FindOperator<Value>)>, i: int)
    requires
        0 <= i <= s.len(),
    ensures
        spec_sel_slots(s.take(i)) <= spec_sel_slots(s),
    decreases s.len() - i,
{
    if i == s.len() {
        assert(s.take(i) =~= s);
    } else {
        lemma_sel_slots_le(s, i + 1);
        assert(s.take(i + 1).drop_last() =~= s.take(i));
    }
}

/// The text of a multi-column clause: each predicate parenthesized, joined
/// by `AND`, tokens threaded left to right.
pub open spec fn spec_sel_ands(
    s: Seq<(&'static str, FindOperator<Value>)>,
    t: spec_fn(nat) -> Seq<char>,
    k: nat,
) -> Seq<char>
    decreases s.len(),
{
    if s.len() == 0 {
        Seq::empty()
    } else if s.len() == 1 {
        "("@ + spec_op_text(s[0].0@, s[0].1, t, k) + ")"@
    } else {
        spec_sel_ands(s.drop_last(), t, k) + " AND "@ + "("@ + spec_op_text(
            s.last().0@,
            s.last().1,
            t,
            k + spec_sel_slots(s.drop_last()),
        ) + ")"@
    }
}

/// The text of one filter clause: the `<empty list>` sentinel when it has no
/// entries, the bare predicate for one entry, parenthesized predicates
/// joined by `AND` otherwise.
pub open spec fn spec_sel_text(
    s: Seq<(&'static str, FindOperator<Value>)>,
    t: spec_fn(nat) -> Seq<char>,
    k: nat,
) -> Seq<char> {
    if s.len() == 0 {
        "<empty list>"@
    } else if s.len() == 1 {
        spec_op_text(s[0].0@, s[0].1, t, k)
    } else {
        spec_sel_ands(s, t, k)
    }
}

/// Render one filter clause, appending to `out` and consuming exactly
/// [`spec_sel_slots`] tokens from `pf`.
pub fn format_selector<PF: ParameterFactory>(selector: &Selector, pf: &mut PF, out: &mut String)
    requires
        old(pf).counter() + spec_sel_slots(selector@) <= u64::MAX,
    ensures
        final(pf).counter() == old(pf).counter() + spec_sel_slots(selector@),
        final(out)@ == old(out)@ + spec_sel_text(selector@, spec_tokens::<PF>(), old(
            pf,
        ).counter()),
{
    let ghost s = selector@;
    let ghost t = spec_tokens::<PF>();
    let ghost k = old(pf).counter();
    let cols = selector.cols();
    let n = cols.len();
    if n == 0 {
        out.append("<empty list>");
        return ;
    }
    if n == 1 {
        proof {
            assert(s.drop_last() =~= Seq::<(&'static str, FindOperator<Value>)>::empty());
            assert(spec_sel_slots(s.drop_last()) == 0);
            assert(s.last() == s[0]);
            assert(spec_sel_slots(s) == spec_op_slots(s[0].1));
        }
        render_op(cols[0].0, &cols[0].1, pf, out);
        return ;
    }
    let mut i: usize = 0;
    proof {
        assert(s.take(0) =~= Seq::<(&'static str, FindOperator<Value>)>::empty());
    }
    while i < n
        invariant
            1 < n == s.len(),
            i <= n,
            cols@ == s,
            t == spec_tokens::<PF>(),
            k == old(pf).counter(),
            k + spec_sel_slots(s) <= u64::MAX,
            pf.counter() == k + spec_sel_slots(s.take(i as int)),
            out@ == old(out)@ + spec_sel_ands(s.take(i as int), t, k),
        decreases n - i,
    {
        proof {
            assert(s.take(i + 1).drop_last() =~= s.take(i as int));
            assert(s.take(i + 1).last() == s[i as int]);
            lemma_sel_slots_le(s, i + 1);
        }
        if i > 0 {
            out.append(" AND ");
        }
        out.append("(");
        render_op(cols[i].0, &cols[i].1, pf, out);
        out.append(")");
        i = i + 1;
    }
    proof {
        assert(s.take(n as int) =~= s);
    }
}

/// How many placeholders a disjunction of clauses consumes: the sum over the
/// clauses.
pub open spec fn spec_sels_slots(ss: Seq<Selector>) -> nat
    decreases ss.len(),
{
    if ss.len() == 0 {
        0
    } else {
        spec_sels_slots(ss.drop_last()) + spec_sel_slots(ss.last()@)
    }
}

/// A prefix of a disjunction consumes no more placeholders than the whole.
proof fn lemma_sels_slots_le(ss: Seq<Selector>, i: int)
    requires
        0 <= i <= ss.len(),
    ensures
        spec_sels_slots(ss.take(i)) <= spec_sels_slots(ss),
    decreases ss.len() - i,
{
    if i == ss.len() {
        assert(ss.take(i) =~= ss);
    } else {
        lemma_sels_slots_le(ss, i + 1);
        assert(ss.take(i + 1).drop_last() =~= ss.take(i));
    }
}

/// The text of a multi-clause disjunction: each clause parenthesized, joined
/// by `OR`, tokens threaded left to right.
pub open spec fn spec_sels_ors(ss: Seq<Selector>, t: spec_fn(nat) -> Seq<char>, k: nat) -> Seq<
    char,
>
    decreases ss.len(),
{
    if ss.len() == 0 {
        Seq::empty()
    } else if ss.len() == 1 {
        "("@ + spec_sel_text(ss[0]@, t, k) + ")"@
    } else {
        spec_sels_ors(ss.drop_last(), t, k) + " OR "@ + "("@ + spec_sel_text(
            ss.last()@,
            t,
            k + spec_sels_slots(ss.drop_last()),
        ) + ")"@
    }
}

/// Whether some clause of the disjunction is empty. An empty clause
/// matches every row, so the whole disjunction does.
pub open spec fn spec_any_empty_sel(ss: Seq<Selector>) -> bool {
    exists|i: int| 0 <= i < ss.len() && (#[trigger] ss[i])@.len() == 0
}

/// Whether the filter is dropped entirely: a disjunction with no clauses
/// is a valid filter meaning "match all", and a disjunction containing an
/// empty clause matches every row too. In both cases no WHERE text is
/// rendered and no value is bound.
pub open spec fn spec_filter_dropped(ss: Seq<Selector>) -> bool {
    ss.len() == 0 || spec_any_empty_sel(ss)
}

/// How many placeholders the WHERE clause consumes: none when the filter
/// is dropped.
pub open spec fn spec_where_slots(ss: Seq<Selector>) -> nat {
    if spec_filter_dropped(ss) {
        0
    } else {
        spec_sels_slots(ss)
    }
}

/// Whether some clause of `selectors` is empty.
pub fn any_empty_sel(selectors: &Vec<Selector>) -> (r: bool)
    ensures
        r == spec_any_empty_sel(selectors@),
{
    let n = selectors.len();
    let mut i: usize = 0;
    while i < n
        invariant
            i <= n == selectors@.len(),
            forall|l: int| 0 <= l < i ==> (#[trigger] selectors@[l])@.len() != 0,
        decreases n - i,
    {
        if selectors[i].is_empty() {
            return true;
        }
        i = i + 1;
    }
    false
}

/// The WHERE clause for a list of filter clauses (a disjunction of
/// conjunctions), leading space included.
///
/// A clause list with no clauses means "match all", and a clause list in
/// which some clause is empty matches every row as well: in both cases the
/// WHERE clause is omitted entirely. Otherwise ` WHERE ` is followed by
/// one clause rendered inline, or parenthesized clauses joined by `OR`.
pub open spec fn spec_where_clause(ss: Seq<Selector>, t: spec_fn(nat) -> Seq<char>, k: nat) -> Seq<
    char,
> {
    if spec_filter_dropped(ss) {
        Seq::empty()
    } else if ss.len() == 1 {
        " WHERE "@ + spec_sel_text(ss[0]@, t, k)
    } else {
        " WHERE "@ + spec_sels_ors(ss, t, k)
    }
}

/// Render the WHERE clause for `selectors`, appending to `out` and consuming
/// exactly [`spec_where_slots`] tokens from `pf`: nothing at all when the
/// filter is dropped.
pub fn format_selectors<PF: ParameterFactory>(
    selectors: &Vec<Selector>,
    pf: &mut PF,
    out: &mut String,
)
    requires
        old(pf).counter() + spec_where_slots(selectors@) <= u64::MAX,
    ensures
        final(pf).counter() == old(pf).counter() + spec_where_slots(selectors@),
        final(out)@ == old(out)@ + spec_where_clause(selectors@, spec_tokens::<PF>(), old(
            pf,
        ).counter()),
{
    let ghost ss = selectors@;
    let ghost t = spec_tokens::<PF>();
    let ghost k = old(pf).counter();
    let n = selectors.len();
    if n == 0 {
        return ;
    }
    if any_empty_sel(selectors) {
        return ;
    }
    out.append(" WHERE ");
    if n == 1 {
        proof {
            assert(ss.drop_last() =~= Seq::<Selector>::empty());
            assert(spec_sels_slots(ss.drop_last()) == 0);
            assert(ss.last() == ss[0]);
            assert(spec_sels_slots(ss) == spec_sel_slots(ss[0]@));
        }
        format_selector(&selectors[0], pf, out);
        return ;
    }
    let mut i: usize = 0;
    proof {
        assert(ss.take(0) =~= Seq::<Selector>::empty());
    }
    let ghost mid = out@;
    while i < n
        invariant
            1 < n == ss.len(),
            i <= n,
            selectors@ == ss,
            t == spec_tokens::<PF>(),
            k == old(pf).counter(),
            k + spec_sels_slots(ss) <= u64::MAX,
            pf.counter() == k + spec_sels_slots(ss.take(i as int)),
            mid == old(out)@ + " WHERE "@,
            out@ == mid + spec_sels_ors(ss.take(i as int), t, k),
        decreases n - i,
    {
        proof {
            assert(ss.take(i + 1).drop_last() =~= ss.take(i as int));
            assert(ss.take(i + 1).last() == ss[i as int]);
            lemma_sels_slots_le(ss, i + 1);
        }
        if i > 0 {
            out.append(" OR ");
        }
        out.append("(");
        format_selector(&selectors[i], pf, out);
        out.append(")");
        i = i + 1;
    }
    proof {
        assert(ss.take(n as int) =~= ss);
    }
}

/// The comma-separated list of `names`, each in double quotes; the
/// `<empty list>` sentinel when there are none.
pub open spec fn spec_ident_list(names: Seq<&'static str>) -> Seq<char> {
    spec_list(names.map_values(|n: &'static str| spec_quote(n@)))
}

/// Append the quoted, comma-separated identifier list for `names` to `out`.
pub fn push_ident_list(names: &Vec<&'static str>, out: &mut String)
    ensures
        final(out)@ == old(out)@ + spec_ident_list(names@),
{
    let ghost f = (|n: &'static str| spec_quote(n@));
    let mut qs: Vec<String> = Vec::new();
    let n = names.len();
    let mut i: usize = 0;
    proof {
        assert(qs@.map_values(|s: String| s@) =~= names@.take(0).map_values(f));
    }
    while i < n
        invariant
            i <= n == names@.len(),
            f == (|n: &'static str| spec_quote(n@)),
            qs@.map_values(|s: String| s@) == names@.take(i as int).map_values(f),
        decreases n - i,
    {
        let mut q = String::new();
        push_quoted(names[i], &mut q);
        proof {
            assert(q@ =~= spec_quote(names@[i as int]@));
        }
        let ghost qsv = qs@;
        let ghost qv = q@;
        qs.push(q);
        proof {
            qsv.lemma_push_map_commute((|s: String| s@), q);
            names@.lemma_map_take_succ(f, i as int);
            assert(qs@.map_values(|s: String| s@) == qsv.map_values(|s: String| s@).push(qv));
            assert(qs@.map_values(|s: String| s@) =~= names@.take(i + 1).map_values(f));
        }
        i = i + 1;
    }
    proof {
        assert(names@.take(n as int) =~= names@);
    }
    format_list(&qs, out);
}

/// The ORDER BY clause, leading space included; empty when no ordering was
/// asked for.
pub open spec fn spec_order_clause(ob: Option<OrderBy<&'static str>>) -> Seq<char> {
    match ob {
        Some(ob) => " ORDER BY "@ + spec_ident_list(ob.cols@) + " "@ + ob.order.spec_str(),
        None => Seq::empty(),
    }
}

/// The pagination tail: ` SKIP <offset>` and ` TAKE <limit>`, each present
/// only when asked for.
pub open spec fn spec_page_clause(offset: Option<u32>, limit: Option<u32>) -> Seq<char> {
    (match offset {
        Some(o) => " SKIP "@ + spec_u64_str(o as nat),
        None => Seq::empty(),
    }) + (match limit {
        Some(l) => " TAKE "@ + spec_u64_str(l as nat),
        None => Seq::empty(),
    })
}

/// How many placeholders a select consumes.
pub open spec fn spec_select_slots(q: SelectQuery) -> nat {
    spec_where_slots(q.selectors@)
}

/// The full text of a select statement, with placeholder tokens drawn from
/// `t` starting at index `k`.
pub open spec fn spec_select_sql(q: SelectQuery, t: spec_fn(nat) -> Seq<char>, k: nat) -> Seq<
    char,
> {
    "SELECT "@ + spec_ident_list(q.col_names@) + " FROM "@ + spec_quote(q.table_name@)
        + spec_where_clause(q.selectors@, t, k) + spec_order_clause(q.order_by)
        + spec_page_clause(q.offset, q.limit)
}

impl SelectQuery {
    /// Render this select, consuming one placeholder token per value that
    /// the binder will bind, in the same order.
    #[verifier::rlimit(100)]
    pub fn to_sql<PF: ParameterFactory>(&self, pf: &mut PF) -> (r: String)
        requires
            old(pf).counter() + spec_select_slots(*self) <= u64::MAX,
        ensures
            final(pf).counter() == old(pf).counter() + spec_select_slots(*self),
            r@ == spec_select_sql(*self, spec_tokens::<PF>(), old(pf).counter()),
    {
        let mut out = String::new();
        out.append("SELECT ");
        push_ident_list(&self.col_names, &mut out);
        out.append(" FROM ");
        push_quoted(self.table_name, &mut out);
        format_selectors(&self.selectors, pf, &mut out);
        match &self.order_by {
            Some(ob) => {
                out.append(" ORDER BY ");
                push_ident_list(&ob.cols, &mut out);
                out.append(" ");
                out.append(ob.order.as_str());
            },
            None => {},
        }
        match self.offset {
            Some(o) => {
                out.append(" SKIP ");
                let num = u64_str(o as u64);
                out.append(num.as_str());
            },
            None => {},
        }
        match self.limit {
            Some(l) => {
                out.append(" TAKE ");
                let num = u64_str(l as u64);
                out.append(num.as_str());
            },
            None => {},
        }
        proof {
            assert(out@ =~= spec_select_sql(*self, spec_tokens::<PF>(), old(pf).counter()));
        }
        out
    }
}

/// How many placeholders a count consumes.
pub open spec fn spec_count_slots(q: CountQuery) -> nat {
    spec_where_slots(q.selectors@)
}

/// The full text of a count statement.
pub open spec fn spec_count_sql(q: CountQuery, t: spec_fn(nat) -> Seq<char>, k: nat) -> Seq<
    char,
> {
    "SELECT COUNT (*) AS \"cnt\" FROM "@ + spec_quote(q.table_name@) + spec_where_clause(
        q.selectors@,
        t,
        k,
    )
}

impl CountQuery {
    /// Render this count, consuming one placeholder token per value that the
    /// binder will bind, in the same order.
    pub fn to_sql<PF: ParameterFactory>(&self, pf: &mut PF) -> (r: String)
        requires
            old(pf).counter() + spec_count_slots(*self) <= u64::MAX,
        ensures
            final(pf).counter() == old(pf).counter() + spec_count_slots(*self),
            r@ == spec_count_sql(*self, spec_tokens::<PF>(), old(pf).counter()),
    {
        let mut out = String::new();
        out.append("SELECT COUNT (*) AS \"cnt\" FROM ");
        push_quoted(self.table_name, &mut out);
        format_selectors(&self.selectors, pf, &mut out);
        proof {
            assert(out@ =~= spec_count_sql(*self, spec_tokens::<PF>(), old(pf).counter()));
        }
        out
    }
}

/// How many placeholders a delete consumes.
pub open spec fn spec_delete_slots(q: DeleteQuery) -> nat {
    spec_where_slots(q.selectors@)
}

/// The full text of a delete statement.
pub open spec fn spec_delete_sql(q: DeleteQuery, t: spec_fn(nat) -> Seq<char>, k: nat) -> Seq<
    char,
> {
    "DELETE FROM "@ + spec_quote(q.table_name@) + spec_where_clause(q.selectors@, t, k)
}

impl DeleteQuery {
    /// Render this delete, consuming one placeholder token per value that
    /// the binder will bind, in the same order.
    pub fn to_sql<PF: ParameterFactory>(&self, pf: &mut PF) -> (r: String)
        requires
            old(pf).counter() + spec_delete_slots(*self) <= u64::MAX,
        ensures
            final(pf).counter() == old(pf).counter() + spec_delete_slots(*self),
            r@ == spec_delete_sql(*self, spec_tokens::<PF>(), old(pf).counter()),
    {
        let mut out = String::new();
        out.append("DELETE FROM ");
        push_quoted(self.table_name, &mut out);
        format_selectors(&self.selectors, pf, &mut out);
        proof {
            assert(out@ =~= spec_delete_sql(*self, spec_tokens::<PF>(), old(pf).counter()));
        }
        out
    }
}

/// The column names of one input record, in declaration order.
pub open spec fn spec_names_of(row: Seq<(&'static str, Value)>) -> Seq<&'static str> {
    row.map_values(|e: (&'static str, Value)| e.0)
}

/// The column names of all rows, concatenated in row order.
pub open spec fn spec_all_names(rows: Seq<InputRecord>) -> Seq<&'static str>
    decreases rows.len(),
{
    if rows.len() == 0 {
        Seq::empty()
    } else {
        spec_all_names(rows.drop_last()) + spec_names_of(rows.last()@)
    }
}

/// Whether `names` holds a name reading `n`.
pub open spec fn spec_has_name(names: Seq<&'static str>, n: Seq<char>) -> bool {
    exists|i: int| 0 <= i < names.len() && names[i]@ == n
}

/// `acc` extended with the names of `names` in order, keeping only the
/// first occurrence of each name.
pub open spec fn spec_dedup(acc: Seq<&'static str>, names: Seq<&'static str>) -> Seq<
    &'static str,
>
    decreases names.len(),
{
    if names.len() == 0 {
        acc
    } else {
        let prev = spec_dedup(acc, names.drop_last());
        if spec_has_name(prev, names.last()@) {
            prev
        } else {
            prev.push(names.last())
        }
    }
}

/// The rendered column list of a multi-row insert: the union of the rows'
/// columns, in first-seen order.
pub open spec fn spec_union_cols(rows: Seq<InputRecord>) -> Seq<&'static str> {
    spec_dedup(Seq::empty(), spec_all_names(rows))
}

/// Whether `names` holds a name reading `n`.
fn has_name(names: &Vec<&'static str>, n: &str) -> (r: bool)
    ensures
        r == spec_has_name(names@, n@),
{
    let len = names.len();
    let mut i: usize = 0;
    while i < len
        invariant
            i <= len == names@.len(),
            forall|j: int| 0 <= j < i ==> names@[j]@ != n@,
        decreases len - i,
    {
        if str_eq(names[i], n) {
            return true;
        }
        i = i + 1;
    }
    false
}

/// `spec_dedup` distributes over appending one name at the back.
proof fn lemma_dedup_snoc(acc: Seq<&'static str>, names: Seq<&'static str>, x: &'static str)
    ensures
        spec_dedup(acc, names.push(x)) == (if spec_has_name(spec_dedup(acc, names), x@) {
            spec_dedup(acc, names)
        } else {
            spec_dedup(acc, names).push(x)
        }),
{
    assert(names.push(x).drop_last() =~= names);
    assert(names.push(x).last() == x);
}

/// Compute the union column list of `values`: every column that appears in
/// some row, in first-seen order, without duplicates.
pub fn union_cols(values: &Vec<InputRecord>) -> (r: Vec<&'static str>)
    ensures
        r@ == spec_union_cols(values@),
{
    let ghost rows = values@;
    let mut cols: Vec<&'static str> = Vec::new();
    let nrows = values.len();
    let mut j: usize = 0;
    proof {
        assert(rows.take(0) =~= Seq::<InputRecord>::empty());
        assert(cols@ =~= spec_dedup(Seq::empty(), spec_all_names(rows.take(0))));
    }
    while j < nrows
        invariant
            j <= nrows == rows.len(),
            values@ == rows,
            cols@ == spec_dedup(Seq::empty(), spec_all_names(rows.take(j as int))),
        decreases nrows - j,
    {
        let ghost before = spec_all_names(rows.take(j as int));
        let row = values[j].cols();
        let ghost names = spec_names_of(rows[j as int]@);
        let ncols = row.len();
        let mut l: usize = 0;
        proof {
            assert(names.take(0) =~= Seq::<&'static str>::empty());
            assert(before + names.take(0) =~= before);
        }
        while l < ncols
            invariant
                l <= ncols,
                values@ == rows,
                j < rows.len(),
                ncols == rows[j as int]@.len(),
                row@ == rows[j as int]@,
                names == spec_names_of(rows[j as int]@),
                before == spec_all_names(rows.take(j as int)),
                cols@ == spec_dedup(Seq::empty(), before + names.take(l as int)),
            decreases ncols - l,
        {
            let name = row[l].0;
            proof {
                assert(names[l as int] == rows[j as int]@[l as int].0);
                assert((before + names.take(l as int)).push(name) =~= before + names.take(l + 1));
                lemma_dedup_snoc(Seq::empty(), before + names.take(l as int), name);
            }
            if !has_name(&cols, name) {
                cols.push(name);
            }
            l = l + 1;
        }
        proof {
            assert(names.take(ncols as int) =~= names);
            assert(rows.take(j + 1).drop_last() =~= rows.take(j as int));
            assert(rows.take(j + 1).last() == rows[j as int]);
            assert(before + names =~= spec_all_names(rows.take(j + 1)));
        }
        j = j + 1;
    }
    proof {
        assert(rows.take(nrows as int) =~= rows);
    }
    cols
}

/// Whether `row` has a column named `n`: decides placeholder vs `DEFAULT`.
pub open spec fn spec_row_has(row: Seq<(&'static str, Value)>, n: Seq<char>) -> bool {
    spec_first_match(row, n) is Some
}

/// How many placeholders one insert row consumes: one per column of the
/// declared list that the row actually has.
pub open spec fn spec_row_slots(cols: Seq<&'static str>, row: Seq<(&'static str, Value)>) -> nat
    decreases cols.len(),
{
    if cols.len() == 0 {
        0
    } else {
        spec_row_slots(cols.drop_last(), row) + if spec_row_has(row, cols.last()@) {
            1nat
        } else {
            0nat
        }
    }
}

/// A prefix of the column list consumes no more placeholders than the
/// whole.
proof fn lemma_row_slots_le(cols: Seq<&'static str>, row: Seq<(&'static str, Value)>, i: int)
    requires
        0 <= i <= cols.len(),
    ensures
        spec_row_slots(cols.take(i), row) <= spec_row_slots(cols, row),
    decreases cols.len() - i,
{
    if i == cols.len() {
        assert(cols.take(i) =~= cols);
    } else {
        lemma_row_slots_le(cols, row, i + 1);
        assert(cols.take(i + 1).drop_last() =~= cols.take(i));
    }
}

/// The items of one parenthesized insert tuple: a fresh placeholder token
/// for each declared column the row has, the `DEFAULT` keyword for each it
/// lacks.
pub open spec fn spec_row_items(
    cols: Seq<&'static str>,
    row: Seq<(&'static str, Value)>,
    t: spec_fn(nat) -> Seq<char>,
    k: nat,
) -> Seq<Seq<char>>
    decreases cols.len(),
{
    if cols.len() == 0 {
        Seq::empty()
    } else {
        spec_row_items(cols.drop_last(), row, t, k).push(
            if spec_row_has(row, cols.last()@) {
                t(k + spec_row_slots(cols.drop_last(), row))
            } else {
                "DEFAULT"@
            },
        )
    }
}

/// The text of one insert tuple.
pub open spec fn spec_row_text(
    cols: Seq<&'static str>,
    row: Seq<(&'static str, Value)>,
    t: spec_fn(nat) -> Seq<char>,
    k: nat,
) -> Seq<char> {
    "("@ + spec_list(spec_row_items(cols, row, t, k)) + ")"@
}

/// How many placeholders a whole insert consumes: the sum over its rows.
pub open spec fn spec_rows_slots(cols: Seq<&'static str>, rows: Seq<InputRecord>) -> nat
    decreases rows.len(),
{
    if rows.len() == 0 {
        0
    } else {
        spec_rows_slots(cols, rows.drop_last()) + spec_row_slots(cols, rows.last()@)
    }
}

/// A prefix of the rows consumes no more placeholders than the whole.
proof fn lemma_rows_slots_le(cols: Seq<&'static str>, rows: Seq<InputRecord>, i: int)
    requires
        0 <= i <= rows.len(),
    ensures
        spec_rows_slots(cols, rows.take(i)) <= spec_rows_slots(cols, rows),
    decreases rows.len() - i,
{
    if i == rows.len() {
        assert(rows.take(i) =~= rows);
    } else {
        lemma_rows_slots_le(cols, rows, i + 1);
        assert(rows.take(i + 1).drop_last() =~= rows.take(i));
    }
}

/// The tuple texts of all insert rows, tokens threaded row by row.
pub open spec fn spec_rows_texts(
    cols: Seq<&'static str>,
    rows: Seq<InputRecord>,
    t: spec_fn(nat) -> Seq<char>,
    k: nat,
) -> Seq<Seq<char>>
    decreases rows.len(),
{
    if rows.len() == 0 {
        Seq::empty()
    } else {
        spec_rows_texts(cols, rows.drop_last(), t, k).push(
            spec_row_text(cols, rows.last()@, t, k + spec_rows_slots(cols, rows.drop_last())),
        )
    }
}

/// How many placeholders an insert consumes.
pub open spec fn spec_insert_slots(q: InsertQuery) -> nat {
    spec_rows_slots(spec_union_cols(q.values@), q.values@)
}

/// The full text of an insert statement: the union column list, then one
/// parenthesized tuple per row.
pub open spec fn spec_insert_sql(q: InsertQuery, t: spec_fn(nat) -> Seq<char>, k: nat) -> Seq<
    char,
> {
    "INSERT INTO "@ + spec_quote(q.table_name@) + " ("@ + spec_ident_list(
        spec_union_cols(q.values@),
    ) + ") VALUES "@ + spec_list(spec_rows_texts(spec_union_cols(q.values@), q.values@, t, k))
}

/// Collect the items of one insert tuple, drawing one fresh token per
/// column the row has.
fn row_items<PF: ParameterFactory>(
    cols: &Vec<&'static str>,
    row: &InputRecord,
    pf: &mut PF,
) -> (r: Vec<String>)
    requires
        old(pf).counter() + spec_row_slots(cols@, row@) <= u64::MAX,
    ensures
        final(pf).counter() == old(pf).counter() + spec_row_slots(cols@, row@),
        r@.map_values(|s: String| s@) == spec_row_items(
            cols@,
            row@,
            spec_tokens::<PF>(),
            old(pf).counter(),
        ),
{
    let ghost t = spec_tokens::<PF>();
    let ghost k = old(pf).counter();
    let n = cols.len();
    let mut items: Vec<String> = Vec::new();
    let mut i: usize = 0;
    proof {
        assert(cols@.take(0) =~= Seq::<&'static str>::empty());
        assert(items@.map_values(|s: String| s@) =~= spec_row_items(cols@.take(0), row@, t, k));
    }
    while i < n
        invariant
            i <= n == cols@.len(),
            old(pf).counter() + spec_row_slots(cols@, row@) <= u64::MAX,
            k == old(pf).counter(),
            t == spec_tokens::<PF>(),
            pf.counter() == k + spec_row_slots(cols@.take(i as int), row@),
            items@.map_values(|s: String| s@) == spec_row_items(cols@.take(i as int), row@, t, k),
        decreases n - i,
    {
        proof {
            assert(cols@.take(i + 1).drop_last() =~= cols@.take(i as int));
            assert(cols@.take(i + 1).last() == cols@[i as int]);
            lemma_row_slots_le(cols@, row@, i + 1);
        }
        let ghost itemsv = items@;
        if row.has_col(cols[i]) {
            let tok = pf.get();
            let ghost tokv = tok@;
            items.push(tok);
            proof {
                itemsv.lemma_push_map_commute((|s: String| s@), tok);
                assert(items@.map_values(|s: String| s@) =~= spec_row_items(
                    cols@.take(i + 1),
                    row@,
                    t,
                    k,
                ));
            }
        } else {
            let d = String::from_str("DEFAULT");
            items.push(d);
            proof {
                itemsv.lemma_push_map_commute((|s: String| s@), d);
                assert(items@.map_values(|s: String| s@) =~= spec_row_items(
                    cols@.take(i + 1),
                    row@,
                    t,
                    k,
                ));
            }
        }
        i = i + 1;
    }
    proof {
        assert(cols@.take(n as int) =~= cols@);
    }
    items
}

/// Render one parenthesized insert tuple.
fn row_text<PF: ParameterFactory>(cols: &Vec<&'static str>, row: &InputRecord, pf: &mut PF) -> (r:
    String)
    requires
        old(pf).counter() + spec_row_slots(cols@, row@) <= u64::MAX,
    ensures
        final(pf).counter() == old(pf).counter() + spec_row_slots(cols@, row@),
        r@ == spec_row_text(cols@, row@, spec_tokens::<PF>(), old(pf).counter()),
{
    let mut out = String::new();
    out.append("(");
    let items = row_items(cols, row, pf);
    format_list(&items, &mut out);
    out.append(")");
    proof {
        assert(out@ =~= spec_row_text(cols@, row@, spec_tokens::<PF>(), old(pf).counter()));
    }
    out
}

impl InsertQuery {
    /// Render this insert, consuming one placeholder token per value that
    /// the binder will bind, in the same order: rows in the order given,
    /// and within each row the declared columns the row has, in declared
    /// order.
    pub fn to_sql<PF: ParameterFactory>(&self, pf: &mut PF) -> (r: String)
        requires
            old(pf).counter() + spec_insert_slots(*self) <= u64::MAX,
        ensures
            final(pf).counter() == old(pf).counter() + spec_insert_slots(*self),
            r@ == spec_insert_sql(*self, spec_tokens::<PF>(), old(pf).counter()),
    {
        let ghost t = spec_tokens::<PF>();
        let ghost k = old(pf).counter();
        let ghost rows = self.values@;
        let mut out = String::new();
        out.append("INSERT INTO ");
        push_quoted(self.table_name, &mut out);
        out.append(" (");
        let cols = union_cols(&self.values);
        push_ident_list(&cols, &mut out);
        out.append(") VALUES ");
        let n = self.values.len();
        let mut texts: Vec<String> = Vec::new();
        let mut j: usize = 0;
        proof {
            assert(rows.take(0) =~= Seq::<InputRecord>::empty());
            assert(texts@.map_values(|s: String| s@) =~= spec_rows_texts(
                cols@,
                rows.take(0),
                t,
                k,
            ));
        }
        while j < n
            invariant
                j <= n == rows.len(),
                self.values@ == rows,
                cols@ == spec_union_cols(rows),
                k + spec_rows_slots(cols@, rows) <= u64::MAX,
                k == old(pf).counter(),
                t == spec_tokens::<PF>(),
                pf.counter() == k + spec_rows_slots(cols@, rows.take(j as int)),
                texts@.map_values(|s: String| s@) == spec_rows_texts(
                    cols@,
                    rows.take(j as int),
                    t,
                    k,
                ),
            decreases n - j,
        {
            proof {
                assert(rows.take(j + 1).drop_last() =~= rows.take(j as int));
                assert(rows.take(j + 1).last() == rows[j as int]);
                lemma_rows_slots_le(cols@, rows, j + 1);
            }
            let ghost textsv = texts@;
            let text = row_text(&cols, &self.values[j], pf);
            texts.push(text);
            proof {
                textsv.lemma_push_map_commute((|s: String| s@), text);
                assert(texts@.map_values(|s: String| s@) =~= spec_rows_texts(
                    cols@,
                    rows.take(j + 1),
                    t,
                    k,
                ));
            }
            j = j + 1;
        }
        proof {
            assert(rows.take(n as int) =~= rows);
        }
        format_list(&texts, &mut out);
        proof {
            assert(out@ =~= spec_insert_sql(*self, t, k));
        }
        out
    }
}

/// The full text of an insert-returning statement: the insert, then
/// ` RETURNING <cols>` when the returning list is non-empty.
pub open spec fn spec_insert_returning_sql(
    q: InsertReturningQuery,
    t: spec_fn(nat) -> Seq<char>,
    k: nat,
) -> Seq<char> {
    spec_insert_sql(q.insert_query, t, k) + if q.returning_cols@.len() == 0 {
        Seq::<char>::empty()
    } else {
        " RETURNING "@ + spec_ident_list(q.returning_cols@)
    }
}

impl InsertReturningQuery {
    /// Render this insert-returning; the returning clause consumes no
    /// placeholders.
    pub fn to_sql<PF: ParameterFactory>(&self, pf: &mut PF) -> (r: String)
        requires
            old(pf).counter() + spec_insert_slots(self.insert_query) <= u64::MAX,
        ensures
            final(pf).counter() == old(pf).counter() + spec_insert_slots(self.insert_query),
            r@ == spec_insert_returning_sql(*self, spec_tokens::<PF>(), old(pf).counter()),
    {
        let mut out = self.insert_query.to_sql(pf);
        if self.returning_cols.len() > 0 {
            out.append(" RETURNING ");
            push_ident_list(&self.returning_cols, &mut out);
        }
        proof {
            assert(out@ =~= spec_insert_returning_sql(
                *self,
                spec_tokens::<PF>(),
                old(pf).counter(),
            ));
        }
        out
    }
}

/// The items of an update's SET list: `"col" = <token>`, one fresh token
/// per entry, every entry consuming a placeholder whether or not its value
/// is null.
pub open spec fn spec_set_items(
    values: Seq<(&'static str, Value)>,
    t: spec_fn(nat) -> Seq<char>,
    k: nat,
) -> Seq<Seq<char>>
    decreases values.len(),
{
    if values.len() == 0 {
        Seq::empty()
    } else {
        spec_set_items(values.drop_last(), t, k).push(
            spec_quote(values.last().0@) + " = "@ + t((k + values.len() - 1) as nat),
        )
    }
}

/// How many placeholders an update consumes: one per SET entry, plus the
/// WHERE clause's.
pub open spec fn spec_update_slots(q: UpdateQuery) -> nat {
    q.new_values@.len() + spec_where_slots(q.selectors@)
}

/// The full text of an update statement: the SET list first (or the
/// `<empty list>` sentinel), then the WHERE clause, tokens threaded in that
/// same order.
pub open spec fn spec_update_sql(q: UpdateQuery, t: spec_fn(nat) -> Seq<char>, k: nat) -> Seq<
    char,
> {
    "UPDATE "@ + spec_quote(q.table_name@) + " SET "@ + spec_list(
        spec_set_items(q.new_values@, t, k),
    ) + spec_where_clause(q.selectors@, t, k + q.new_values@.len())
}

impl UpdateQuery {
    /// Render this update; new values are numbered before the filter
    /// values, matching the textual `SET ... WHERE ...` order and the bind
    /// order.
    pub fn to_sql<PF: ParameterFactory>(&self, pf: &mut PF) -> (r: String)
        requires
            old(pf).counter() + spec_update_slots(*self) <= u64::MAX,
        ensures
            final(pf).counter() == old(pf).counter() + spec_update_slots(*self),
            r@ == spec_update_sql(*self, spec_tokens::<PF>(), old(pf).counter()),
    {
        let ghost t = spec_tokens::<PF>();
        let ghost k = old(pf).counter();
        let ghost vals = self.new_values@;
        let mut out = String::new();
        out.append("UPDATE ");
        push_quoted(self.table_name, &mut out);
        out.append(" SET ");
        let entries = self.new_values.cols();
        let n = entries.len();
        let mut items: Vec<String> = Vec::new();
        let mut i: usize = 0;
        proof {
            assert(vals.take(0) =~= Seq::<(&'static str, Value)>::empty());
            assert(items@.map_values(|s: String| s@) =~= spec_set_items(vals.take(0), t, k));
        }
        while i < n
            invariant
                i <= n == vals.len(),
                entries@ == vals,
                k + vals.len() <= u64::MAX,
                k == old(pf).counter(),
                t == spec_tokens::<PF>(),
                pf.counter() == k + i,
                items@.map_values(|s: String| s@) == spec_set_items(vals.take(i as int), t, k),
            decreases n - i,
        {
            proof {
                assert(vals.take(i + 1).drop_last() =~= vals.take(i as int));
                assert(vals.take(i + 1).last() == vals[i as int]);
            }
            let mut item = String::new();
            push_quoted(entries[i].0, &mut item);
            item.append(" = ");
            let tok = pf.get();
            item.append(tok.as_str());
            proof {
                assert(item@ =~= spec_quote(vals[i as int].0@) + " = "@ + t((k + i) as nat));
            }
            let ghost itemsv = items@;
            items.push(item);
            proof {
                itemsv.lemma_push_map_commute((|s: String| s@), item);
                assert(items@.map_values(|s: String| s@) =~= spec_set_items(
                    vals.take(i + 1),
                    t,
                    k,
                ));
            }
            i = i + 1;
        }
        proof {
            assert(vals.take(n as int) =~= vals);
        }
        format_list(&items, &mut out);
        format_selectors(&self.selectors, pf, &mut out);
        proof {
            assert(out@ =~= spec_update_sql(*self, t, k));
        }
        out
    }
}

/// The select text when the filter is dropped: no WHERE clause at all.
pub open spec fn spec_select_sql_unfiltered(q: SelectQuery) -> Seq<char> {
    "SELECT "@ + spec_ident_list(q.col_names@) + " FROM "@ + spec_quote(q.table_name@)
        + spec_order_clause(q.order_by) + spec_page_clause(q.offset, q.limit)
}

/// The count text when the filter is dropped: the whole table is counted.
pub open spec fn spec_count_sql_unfiltered(q: CountQuery) -> Seq<char> {
    "SELECT COUNT (*) AS \"cnt\" FROM "@ + spec_quote(q.table_name@)
}

/// The delete text when the filter is dropped: every row is deleted.
pub open spec fn spec_delete_sql_unfiltered(q: DeleteQuery) -> Seq<char> {
    "DELETE FROM "@ + spec_quote(q.table_name@)
}

} // verus!
