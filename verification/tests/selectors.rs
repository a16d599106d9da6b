//! WHERE-clause rendering, one case per operator shape and null placement.

use foil::params::{Mssql, Postgres, SqliteDialect, WithBindParameters};
use foil::render::format_selectors;
use foil::{FindOperator, IntoValue, Selector};

#[test]
fn no_selectors() {
    let mut output = String::new();

    // A filter list with no clauses means "match all": no WHERE text.
    let selectors: Vec<Selector> = Vec::new();
    format_selectors(&selectors, &mut Postgres::parameter_factory(), &mut output);

    assert_eq!(output, "");
}

#[test]
fn single_empty_selector() {
    let mut output = String::new();

    let cond = Selector::default();

    format_selectors(&vec![cond], &mut Postgres::parameter_factory(), &mut output);

    assert_eq!(output, "");
}

#[test]
fn empty_selector() {
    let mut output = String::new();

    let mut cond1 = Selector::default();
    cond1.add_col("col1", FindOperator::Eq(1).boxed());
    let cond2 = Selector::default();

    // The empty clause matches every row, so the whole disjunction does:
    // the filter is dropped and nothing is rendered or bound.
    format_selectors(
        &vec![cond1, cond2],
        &mut Postgres::parameter_factory(),
        &mut output,
    );

    assert_eq!(output, "");
}

#[test]
fn test_eq() {
    let mut output = String::new();

    let mut selector = Selector::default();
    selector.add_col("col", FindOperator::Eq(1).boxed());

    format_selectors(&vec![selector], &mut Postgres::parameter_factory(), &mut output);

    assert_eq!(output, " WHERE \"col\" = $1");
}

#[test]
fn test_eq_null() {
    let mut output = String::new();

    let mut selector = Selector::default();
    selector.add_col("col", FindOperator::Eq(Option::<i32>::None).boxed());

    format_selectors(&vec![selector], &mut Postgres::parameter_factory(), &mut output);

    assert_eq!(output, " WHERE \"col\" IS NULL");
}

#[test]
fn test_ne() {
    let mut output = String::new();

    let mut selector = Selector::default();
    selector.add_col("col", FindOperator::Ne(1).boxed());

    format_selectors(&vec![selector], &mut Postgres::parameter_factory(), &mut output);

    assert_eq!(output, " WHERE \"col\" != $1");
}

#[test]
fn test_ne_null() {
    let mut output = String::new();

    let mut selector = Selector::default();
    selector.add_col("col", FindOperator::Ne(Option::<i32>::None).boxed());

    format_selectors(&vec![selector], &mut Postgres::parameter_factory(), &mut output);

    assert_eq!(output, " WHERE \"col\" IS NOT NULL");
}

#[test]
fn test_in_() {
    let mut output = String::new();

    let mut selector = Selector::default();
    selector.add_col("col", FindOperator::In(vec![1, 2, 3]).boxed());

    format_selectors(&vec![selector], &mut Postgres::parameter_factory(), &mut output);

    assert_eq!(output, " WHERE \"col\" IN ($1, $2, $3)");
}

#[test]
fn test_in_with_null() {
    let mut output = String::new();

    let mut selector = Selector::default();
    selector.add_col(
        "col",
        FindOperator::In(vec![Some(1), Some(2), Option::<i32>::None, Option::<i32>::None])
            .boxed(),
    );

    format_selectors(&vec![selector], &mut Postgres::parameter_factory(), &mut output);

    assert_eq!(output, " WHERE \"col\" IN ($1, $2) OR \"col\" IS NULL");
}

#[test]
fn test_not_in() {
    let mut output = String::new();

    let mut selector = Selector::default();
    selector.add_col("col", FindOperator::NotIn(vec![1, 2, 3]).boxed());

    format_selectors(&vec![selector], &mut Postgres::parameter_factory(), &mut output);

    assert_eq!(output, " WHERE \"col\" NOT IN ($1, $2, $3)");
}

#[test]
fn test_not_in_with_null() {
    let mut output = String::new();

    let mut selector = Selector::default();
    selector.add_col(
        "col",
        FindOperator::NotIn(vec![Some(1), Some(2), Option::<i32>::None, Option::<i32>::None])
            .boxed(),
    );

    format_selectors(&vec![selector], &mut Postgres::parameter_factory(), &mut output);

    assert_eq!(output, " WHERE \"col\" NOT IN ($1, $2) AND \"col\" IS NOT NULL");
}

#[test]
fn multiple_cols() {
    let mut output = String::new();

    let mut selector = Selector::default();
    selector.add_col("col1", FindOperator::Eq(1).boxed());
    selector.add_col("col2", FindOperator::Eq(2).boxed());

    format_selectors(&vec![selector], &mut Postgres::parameter_factory(), &mut output);

    assert_eq!(output, " WHERE (\"col1\" = $1) AND (\"col2\" = $2)");
}

#[test]
fn multiple_selectors() {
    let mut output = String::new();

    let mut cond1 = Selector::default();
    cond1.add_col("col1", FindOperator::Eq(1).boxed());

    let mut cond2 = Selector::default();
    cond2.add_col("col2", FindOperator::Eq(2).boxed());

    format_selectors(
        &vec![cond1, cond2],
        &mut Postgres::parameter_factory(),
        &mut output,
    );

    assert_eq!(output, " WHERE (\"col1\" = $1) OR (\"col2\" = $2)");
}

#[test]
fn sqlite_mysql_params() {
    let mut output = String::new();

    let mut selector = Selector::default();
    selector.add_col("col", FindOperator::In(vec![1, 2, 3]).boxed());

    format_selectors(
        &vec![selector],
        &mut SqliteDialect::parameter_factory(),
        &mut output,
    );

    assert_eq!(output, " WHERE \"col\" IN (?, ?, ?)");
}

#[test]
fn mssql_params() {
    let mut output = String::new();

    let mut selector = Selector::default();
    selector.add_col("col", FindOperator::In(vec![1, 2, 3]).boxed());

    format_selectors(&vec![selector], &mut Mssql::parameter_factory(), &mut output);

    assert_eq!(output, " WHERE \"col\" IN (@P1, @P2, @P3)");
}

#[test]
fn test_combined() {
    let mut output = String::new();

    let mut cond1 = Selector::default();
    cond1.add_col("col1", FindOperator::Eq(1).boxed());
    cond1.add_col("col2", FindOperator::Eq(Option::<i32>::None).boxed());
    cond1.add_col(
        "col3",
        FindOperator::In(vec![Some(2), Option::<i32>::None]).boxed(),
    );

    let mut cond2 = Selector::default();
    cond2.add_col("col1", FindOperator::Ne(1).boxed());
    cond2.add_col("col2", FindOperator::Ne(Option::<i32>::None).boxed());
    cond2.add_col(
        "col3",
        FindOperator::NotIn(vec![Some(2), Option::<i32>::None]).boxed(),
    );

    format_selectors(
        &vec![cond1, cond2],
        &mut Postgres::parameter_factory(),
        &mut output,
    );

    assert_eq!(
        output,
        " WHERE ((\"col1\" = $1) AND (\"col2\" IS NULL) AND (\"col3\" IN ($2) OR \"col3\" IS NULL)) OR ((\"col1\" != $3) AND (\"col2\" IS NOT NULL) AND (\"col3\" NOT IN ($4) AND \"col3\" IS NOT NULL))"
    );
}

#[test]
fn in_erasure_keeps_order() {
    let op = FindOperator::In(vec![3i64, 1, 2]).boxed();
    match op {
        FindOperator::In(vs) => {
            assert_eq!(
                vs,
                vec![foil::Value::I64(3), foil::Value::I64(1), foil::Value::I64(2)]
            );
        }
        _ => panic!("erasure changed the operator variant"),
    }
}

#[test]
fn null_erasure_uses_the_option_channel() {
    assert!(Option::<bool>::None.into_value().is_null());
    assert!(!Some(false).into_value().is_null());
    assert!(!false.into_value().is_null());
    assert!(!String::from("x").into_value().is_null());
}
