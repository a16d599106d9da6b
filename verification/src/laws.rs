//! The library's stated laws, each proved once and for all inputs: how
//! empty filters, null values and null-containing membership lists render
//! and bind, and what each dialect's placeholder tokens read. The
//! render/bind order-identity laws stand beside the binder (see `bind`).

use vstd::prelude::*;

use crate::bind::lemma_nonnull_alignment;
use crate::bind::spec_nonnull_values;
use crate::bind::spec_op_binds;
use crate::bind::spec_select_binds;
use crate::operator::FindOperator;
use crate::params::MssqlParameterFactory;
use crate::params::ParameterFactory;
use crate::params::PgParameterFactory;
use crate::params::UnorderedParameterFactory;
use crate::query::SelectQuery;
use crate::render::spec_any_null;
use crate::render::spec_in_tokens;
use crate::render::spec_list;
use crate::render::spec_nonnull_count;
use crate::render::spec_op_slots;
use crate::render::spec_op_text;
use crate::render::spec_quote;
use crate::render::spec_select_slots;
use crate::render::spec_select_sql;
use crate::text::spec_u64_str;
use crate::value::Value;

verus! {

/// Empty-condition semantics: a filter list with no clauses means "match
/// all", and so does one containing an empty clause (that branch of the OR
/// matches every row). A select over such a filter renders no WHERE clause
/// at all — its text is exactly the unfiltered select — and it consumes no
/// placeholders and binds no values.
pub proof fn lemma_empty_condition_select(q: SelectQuery, t: spec_fn(nat) -> Seq<char>, k: nat)
    requires
        crate::render::spec_filter_dropped(q.selectors@),
    ensures
        spec_select_sql(q, t, k) == crate::render::spec_select_sql_unfiltered(q),
        spec_select_slots(q) == 0,
        spec_select_binds(q) == Seq::<Value>::empty(),
{
    assert(spec_select_sql(q, t, k) =~= crate::render::spec_select_sql_unfiltered(q));
}

/// Null equality: `Eq` of a null value renders `"col" IS NULL`, consumes no
/// placeholder and binds nothing.
pub proof fn lemma_null_eq(name: Seq<char>, v: Value, t: spec_fn(nat) -> Seq<char>, k: nat)
    requires
        v.spec_is_null(),
    ensures
        spec_op_text(name, FindOperator::Eq(v), t, k) == spec_quote(name) + " IS NULL"@,
        spec_op_slots(FindOperator::Eq(v)) == 0,
        spec_op_binds(FindOperator::Eq(v)) == Seq::<Value>::empty(),
{
}

/// Null inequality: `Ne` of a null value renders `"col" IS NOT NULL`,
/// consumes no placeholder and binds nothing.
pub proof fn lemma_null_ne(name: Seq<char>, v: Value, t: spec_fn(nat) -> Seq<char>, k: nat)
    requires
        v.spec_is_null(),
    ensures
        spec_op_text(name, FindOperator::Ne(v), t, k) == spec_quote(name) + " IS NOT NULL"@,
        spec_op_slots(FindOperator::Ne(v)) == 0,
        spec_op_binds(FindOperator::Ne(v)) == Seq::<Value>::empty(),
{
}

/// In-list null-splitting: the `IN` predicate draws one placeholder per
/// non-null member and binds exactly the non-null members, in list order;
/// the `OR "col" IS NULL` branch is appended exactly when some member is
/// null.
pub proof fn lemma_in_null_splitting(
    name: Seq<char>,
    vs: Vec<Value>,
    t: spec_fn(nat) -> Seq<char>,
    k: nat,
)
    ensures
        spec_op_slots(FindOperator::In(vs)) == spec_nonnull_count(vs@),
        spec_op_binds(FindOperator::In(vs)) == spec_nonnull_values(vs@),
        spec_nonnull_values(vs@).len() == spec_nonnull_count(vs@),
        spec_any_null(vs@) ==> spec_op_text(name, FindOperator::In(vs), t, k) == spec_quote(name)
            + " IN ("@ + spec_list(spec_in_tokens(vs@, t, k)) + ")"@ + (" OR "@ + spec_quote(name)
            + " IS NULL"@),
        !spec_any_null(vs@) ==> spec_op_text(name, FindOperator::In(vs), t, k) == spec_quote(name)
            + " IN ("@ + spec_list(spec_in_tokens(vs@, t, k)) + ")"@,
{
    lemma_nonnull_alignment(vs@);
    if !spec_any_null(vs@) {
        assert(spec_op_text(name, FindOperator::In(vs), t, k) =~= spec_quote(name) + " IN ("@
            + spec_list(spec_in_tokens(vs@, t, k)) + ")"@);
    }
}

/// Not-in-list null-splitting: the mirror of the `IN` law, with the
/// `AND "col" IS NOT NULL` branch appended exactly when some member is
/// null.
pub proof fn lemma_not_in_null_splitting(
    name: Seq<char>,
    vs: Vec<Value>,
    t: spec_fn(nat) -> Seq<char>,
    k: nat,
)
    ensures
        spec_op_slots(FindOperator::NotIn(vs)) == spec_nonnull_count(vs@),
        spec_op_binds(FindOperator::NotIn(vs)) == spec_nonnull_values(vs@),
        spec_nonnull_values(vs@).len() == spec_nonnull_count(vs@),
        spec_any_null(vs@) ==> spec_op_text(name, FindOperator::NotIn(vs), t, k) == spec_quote(
            name,
        ) + " NOT IN ("@ + spec_list(spec_in_tokens(vs@, t, k)) + ")"@ + (" AND "@ + spec_quote(
            name,
        ) + " IS NOT NULL"@),
        !spec_any_null(vs@) ==> spec_op_text(name, FindOperator::NotIn(vs), t, k) == spec_quote(
            name,
        ) + " NOT IN ("@ + spec_list(spec_in_tokens(vs@, t, k)) + ")"@,
{
    lemma_nonnull_alignment(vs@);
    if !spec_any_null(vs@) {
        assert(spec_op_text(name, FindOperator::NotIn(vs), t, k) =~= spec_quote(name)
            + " NOT IN ("@ + spec_list(spec_in_tokens(vs@, t, k)) + ")"@);
    }
}

/// Parameter-factory dialect variants: the ordered-numbered factory's
/// `k`-th token is `$` followed by `k + 1` in decimal, so successive calls
/// read `$1`, `$2`, `$3`, ...; the unordered factory's every token is `?`;
/// the named-numbered factory's `k`-th token is `@P` followed by `k + 1`.
pub proof fn lemma_factory_tokens(k: nat)
    ensures
        PgParameterFactory::token_of(k) == "$"@ + spec_u64_str(k + 1),
        UnorderedParameterFactory::token_of(k) == "?"@,
        MssqlParameterFactory::token_of(k) == "@P"@ + spec_u64_str(k + 1),
{
}

} // verus!
