//! Full-statement rendering for the six query kinds.

use foil::params::{Postgres, WithBindParameters};
use foil::query::{CountQuery, DeleteQuery, InsertQuery, InsertReturningQuery, Order, OrderBy,
    SelectQuery, UpdateQuery};
use foil::{FindOperator, InputRecord, IntoValue, Selector};

fn eq_selector(col: &'static str, v: i32) -> Selector {
    let mut selector = Selector::default();
    selector.add_col(col, FindOperator::Eq(v).boxed());
    selector
}

#[test]
fn select_normal() {
    let query = SelectQuery {
        table_name: "table",
        col_names: vec!["col1", "col2"],
        selectors: vec![eq_selector("col1", 1)],
        order_by: None,
        offset: None,
        limit: None,
    };

    let sql = query.to_sql(&mut Postgres::parameter_factory());
    assert_eq!(sql, "SELECT \"col1\", \"col2\" FROM \"table\" WHERE \"col1\" = $1");
}

#[test]
fn select_no_cols() {
    let query = SelectQuery {
        table_name: "table",
        col_names: vec![],
        selectors: vec![eq_selector("col1", 1)],
        order_by: None,
        offset: None,
        limit: None,
    };

    let sql = query.to_sql(&mut Postgres::parameter_factory());
    assert_eq!(sql, "SELECT <empty list> FROM \"table\" WHERE \"col1\" = $1");
}

#[test]
fn select_order_by() {
    let query = SelectQuery {
        table_name: "table",
        col_names: vec!["col1", "col2"],
        selectors: vec![eq_selector("col1", 1)],
        order_by: Some(OrderBy { order: Order::Asc, cols: vec!["col1", "col2"] }),
        offset: None,
        limit: None,
    };

    let sql = query.to_sql(&mut Postgres::parameter_factory());
    assert_eq!(
        sql,
        "SELECT \"col1\", \"col2\" FROM \"table\" WHERE \"col1\" = $1 ORDER BY \"col1\", \"col2\" ASC"
    );
}

#[test]
fn select_skip() {
    let query = SelectQuery {
        table_name: "table",
        col_names: vec!["col1", "col2"],
        selectors: vec![eq_selector("col1", 1)],
        order_by: None,
        offset: Some(3),
        limit: None,
    };

    let sql = query.to_sql(&mut Postgres::parameter_factory());
    assert_eq!(sql, "SELECT \"col1\", \"col2\" FROM \"table\" WHERE \"col1\" = $1 SKIP 3");
}

#[test]
fn select_take() {
    let query = SelectQuery {
        table_name: "table",
        col_names: vec!["col1", "col2"],
        selectors: vec![eq_selector("col1", 1)],
        order_by: None,
        offset: None,
        limit: Some(3),
    };

    let sql = query.to_sql(&mut Postgres::parameter_factory());
    assert_eq!(sql, "SELECT \"col1\", \"col2\" FROM \"table\" WHERE \"col1\" = $1 TAKE 3");
}

#[test]
fn select_combined() {
    let mut cond1 = Selector::default();
    cond1.add_col("col1", FindOperator::Eq(1).boxed());
    cond1.add_col("col2", FindOperator::Eq(Option::<i32>::None).boxed());
    cond1.add_col("col3", FindOperator::In(vec![Some(2), Option::<i32>::None]).boxed());

    let mut cond2 = Selector::default();
    cond2.add_col("col1", FindOperator::Ne(1).boxed());
    cond2.add_col("col2", FindOperator::Ne(Option::<i32>::None).boxed());
    cond2.add_col("col3", FindOperator::NotIn(vec![Some(2), Option::<i32>::None]).boxed());

    let query = SelectQuery {
        table_name: "table",
        col_names: vec!["col1", "col2"],
        selectors: vec![cond1, cond2],
        order_by: Some(OrderBy { order: Order::Asc, cols: vec!["col1", "col2"] }),
        offset: Some(3),
        limit: Some(5),
    };

    let sql = query.to_sql(&mut Postgres::parameter_factory());
    assert_eq!(
        sql,
        "SELECT \"col1\", \"col2\" FROM \"table\" WHERE ((\"col1\" = $1) AND (\"col2\" IS NULL) AND (\"col3\" IN ($2) OR \"col3\" IS NULL)) OR ((\"col1\" != $3) AND (\"col2\" IS NOT NULL) AND (\"col3\" NOT IN ($4) AND \"col3\" IS NOT NULL)) ORDER BY \"col1\", \"col2\" ASC SKIP 3 TAKE 5"
    );
}

#[test]
fn count_normal() {
    let query = CountQuery { table_name: "table", selectors: vec![eq_selector("col1", 1)] };

    let sql = query.to_sql(&mut Postgres::parameter_factory());
    assert_eq!(sql, "SELECT COUNT (*) AS \"cnt\" FROM \"table\" WHERE \"col1\" = $1");
}

#[test]
fn insert_normal() {
    let mut values = InputRecord::default();
    values.add_col("col1", 1.into_value());

    let query = InsertQuery { table_name: "table", values: vec![values] };

    let sql = query.to_sql(&mut Postgres::parameter_factory());
    assert_eq!(sql, "INSERT INTO \"table\" (\"col1\") VALUES ($1)");
}

#[test]
fn insert_no_cols() {
    let mut values = InputRecord::default();
    values.add_col("col1", 1.into_value());

    let query = InsertQuery { table_name: "table", values: vec![values] };

    let sql = query.to_sql(&mut Postgres::parameter_factory());
    assert_eq!(sql, "INSERT INTO \"table\" (\"col1\") VALUES ($1)");
}

#[test]
fn insert_no_values() {
    let query = InsertQuery { table_name: "table", values: vec![] };

    let sql = query.to_sql(&mut Postgres::parameter_factory());
    assert_eq!(sql, "INSERT INTO \"table\" (<empty list>) VALUES <empty list>");
}

#[test]
fn insert_multiple_values() {
    let mut values1 = InputRecord::default();
    values1.add_col("col1", 1.into_value());
    values1.add_col("col2", 1.into_value());

    let mut values2 = InputRecord::default();
    values2.add_col("col1", 1.into_value());
    values2.add_col("col2", 1.into_value());

    let query = InsertQuery { table_name: "table", values: vec![values1, values2] };

    let sql = query.to_sql(&mut Postgres::parameter_factory());
    assert_eq!(sql, "INSERT INTO \"table\" (\"col1\", \"col2\") VALUES ($1, $2), ($3, $4)");
}

#[test]
fn values_with_different_column_sets() {
    let mut values1 = InputRecord::default();
    values1.add_col("col1", 1.into_value());
    values1.add_col("col2", 1.into_value());

    let mut values2 = InputRecord::default();
    values2.add_col("col2", 1.into_value());
    values2.add_col("col3", 1.into_value());

    let values3 = InputRecord::default();

    let query = InsertQuery { table_name: "table", values: vec![values1, values2, values3] };

    let sql = query.to_sql(&mut Postgres::parameter_factory());
    assert_eq!(
        sql,
        "INSERT INTO \"table\" (\"col1\", \"col2\", \"col3\") VALUES ($1, $2, DEFAULT), (DEFAULT, $3, $4), (DEFAULT, DEFAULT, DEFAULT)"
    );
}

#[test]
fn insert_returning_normal() {
    let mut values = InputRecord::default();
    values.add_col("col1", 1.into_value());

    let query = InsertReturningQuery {
        insert_query: InsertQuery { table_name: "table", values: vec![values] },
        returning_cols: vec!["col1", "col2"],
    };

    let sql = query.to_sql(&mut Postgres::parameter_factory());
    assert_eq!(sql, "INSERT INTO \"table\" (\"col1\") VALUES ($1) RETURNING \"col1\", \"col2\"");
}

#[test]
fn insert_returning_no_returning() {
    let mut values = InputRecord::default();
    values.add_col("col1", 1.into_value());

    let query = InsertReturningQuery {
        insert_query: InsertQuery { table_name: "table", values: vec![values] },
        returning_cols: vec![],
    };

    let sql = query.to_sql(&mut Postgres::parameter_factory());
    assert_eq!(sql, "INSERT INTO \"table\" (\"col1\") VALUES ($1)");
}

#[test]
fn update_normal() {
    let mut values = InputRecord::default();
    values.add_col("col2", 2.into_value());

    let query = UpdateQuery {
        table_name: "table",
        selectors: vec![eq_selector("col1", 1)],
        new_values: values,
    };

    let sql = query.to_sql(&mut Postgres::parameter_factory());
    assert_eq!(sql, "UPDATE \"table\" SET \"col2\" = $1 WHERE \"col1\" = $2");
}

#[test]
fn update_empty_values() {
    let query = UpdateQuery {
        table_name: "table",
        selectors: vec![eq_selector("col1", 1)],
        new_values: InputRecord::default(),
    };

    let sql = query.to_sql(&mut Postgres::parameter_factory());
    assert_eq!(sql, "UPDATE \"table\" SET <empty list> WHERE \"col1\" = $1");
}

#[test]
fn delete_normal() {
    let query = DeleteQuery { table_name: "table", selectors: vec![eq_selector("col1", 1)] };

    let sql = query.to_sql(&mut Postgres::parameter_factory());
    assert_eq!(sql, "DELETE FROM \"table\" WHERE \"col1\" = $1");
}

#[test]
fn select_large_pagination_numbers() {
    let query = SelectQuery {
        table_name: "table",
        col_names: vec!["col1"],
        selectors: vec![Selector::default()],
        order_by: None,
        offset: Some(1200),
        limit: Some(305),
    };

    let sql = query.to_sql(&mut Postgres::parameter_factory());
    assert_eq!(sql, "SELECT \"col1\" FROM \"table\" SKIP 1200 TAKE 305");
}
