//! End-to-end scenarios over the query construction layer and the executor
//! decisions.

use foil::entity::{count_query, delete_query, get_query, patch_query, remove_query, Field};
use foil::log::LogManager;
use foil::params::{Postgres, SqliteDialect, WithBindParameters};
use foil::plan::{plan_count, plan_delete, plan_insert, plan_select, plan_update, CountPlan,
    ExecPlan, SelectPlan};
use foil::query::{InsertQuery, SelectQuery, UpdateQuery};
use foil::{FindOperator, InputRecord, IntoSelector, IntoValue, Selector, ToInputRecord, Value};

// What the code-generation layer would emit for one entity: a filter
// builder with one optional field per column, converted by calling
// `add_col` for every explicitly given field, in declared field order.
struct CharacterSelector {
    name: Field<FindOperator<String>>,
    is_handsome: Field<FindOperator<bool>>,
}

impl IntoSelector for CharacterSelector {
    fn into_selector(self) -> Selector {
        let mut selector = Selector::new();
        if let Field::Given(op) = self.name {
            selector.add_col("name", op.boxed());
        }
        if let Field::Given(op) = self.is_handsome {
            selector.add_col("is_handsome", op.boxed());
        }
        selector
    }
}

struct CharacterPatch {
    is_handsome: Field<bool>,
}

impl ToInputRecord for CharacterPatch {
    fn to_input_record(&self) -> InputRecord {
        let mut record = InputRecord::new();
        if let Field::Given(v) = self.is_handsome {
            record.add_col("is_handsome", v.into_value());
        }
        record
    }
}

#[test]
fn round_trip_is_handsome() {
    let mut selector = Selector::default();
    selector.add_col("is_handsome", FindOperator::Eq(true).boxed());

    let query = SelectQuery {
        table_name: "character",
        col_names: vec!["id", "name"],
        selectors: vec![selector],
        order_by: None,
        offset: None,
        limit: None,
    };

    let sql = query.to_sql(&mut Postgres::parameter_factory());
    assert_eq!(sql, "SELECT \"id\", \"name\" FROM \"character\" WHERE \"is_handsome\" = $1");

    let binds = query.bind_values();
    assert_eq!(binds, vec![Value::Bool(true)]);
}

#[test]
fn or_of_ands() {
    let mut cond1 = Selector::default();
    cond1.add_col("name", FindOperator::Eq(String::from("Legalas")).boxed());

    let mut cond2 = Selector::default();
    cond2.add_col("is_handsome", FindOperator::Eq(false).boxed());

    let query = SelectQuery {
        table_name: "character",
        col_names: vec!["id"],
        selectors: vec![cond1, cond2],
        order_by: None,
        offset: None,
        limit: None,
    };

    let sql = query.to_sql(&mut Postgres::parameter_factory());
    assert_eq!(
        sql,
        "SELECT \"id\" FROM \"character\" WHERE (\"name\" = $1) OR (\"is_handsome\" = $2)"
    );

    let binds = query.bind_values();
    assert_eq!(
        binds,
        vec![Value::Text(String::from("Legalas")), Value::Bool(false)]
    );
}

#[test]
fn empty_condition_omits_where() {
    let query = SelectQuery {
        table_name: "character",
        col_names: vec!["id"],
        selectors: vec![Selector::default()],
        order_by: None,
        offset: None,
        limit: None,
    };

    let sql = query.to_sql(&mut Postgres::parameter_factory());
    assert_eq!(sql, "SELECT \"id\" FROM \"character\"");
    assert_eq!(query.bind_values(), Vec::<Value>::new());
}

#[test]
fn update_with_empty_values_is_a_no_op() {
    let mut selector = Selector::default();
    selector.add_col("id", FindOperator::Eq(1).boxed());

    let query = UpdateQuery {
        table_name: "character",
        selectors: vec![selector],
        new_values: InputRecord::default(),
    };

    match plan_update::<SqliteDialect>(query) {
        ExecPlan::Skip => {}
        ExecPlan::Run(st) => panic!("no statement may reach the database, got: {}", st.sql),
    }
}

#[test]
fn select_without_selectors_selects_every_row() {
    let query = SelectQuery {
        table_name: "character",
        col_names: vec!["id"],
        selectors: vec![],
        order_by: None,
        offset: None,
        limit: None,
    };

    match plan_select::<SqliteDialect>(query) {
        SelectPlan::Run(st) => {
            assert_eq!(st.sql, "SELECT \"id\" FROM \"character\"");
            assert_eq!(st.binds, Vec::<Value>::new());
        }
        _ => panic!("an empty filter list means match-all: the select must run"),
    }
}

#[test]
fn count_without_selectors_counts_every_row() {
    let count = count_query("character", vec![]);
    match plan_count::<SqliteDialect>(count) {
        CountPlan::Run(st) => {
            assert_eq!(st.sql, "SELECT COUNT (*) AS \"cnt\" FROM \"character\"");
            assert_eq!(st.binds, Vec::<Value>::new());
        }
        CountPlan::Zero => panic!("an empty filter list must count the whole table"),
    }
}

#[test]
fn select_without_columns_yields_one_empty_record() {
    let query = SelectQuery {
        table_name: "character",
        col_names: vec![],
        selectors: vec![Selector::default()],
        order_by: None,
        offset: None,
        limit: None,
    };

    assert!(matches!(plan_select::<SqliteDialect>(query), SelectPlan::OneEmptyRecord));
}

#[test]
fn empty_in_list_matches_nothing() {
    let mut selector = Selector::default();
    selector.add_col("id", FindOperator::In(Vec::<i32>::new()).boxed());

    let query = SelectQuery {
        table_name: "character",
        col_names: vec!["id"],
        selectors: vec![selector],
        order_by: None,
        offset: None,
        limit: None,
    };

    assert!(matches!(plan_select::<SqliteDialect>(query), SelectPlan::NoRows));

    let mut selector = Selector::default();
    selector.add_col("id", FindOperator::In(Vec::<i32>::new()).boxed());
    let count = count_query("character", vec![selector]);
    assert!(matches!(plan_count::<SqliteDialect>(count), CountPlan::Zero));
}

#[test]
fn one_empty_clause_drops_the_filter_and_binds_nothing() {
    let mut cond1 = Selector::default();
    cond1.add_col("id", FindOperator::Eq(1).boxed());
    let cond2 = Selector::default();

    let query = SelectQuery {
        table_name: "character",
        col_names: vec!["id"],
        selectors: vec![cond1, cond2],
        order_by: None,
        offset: None,
        limit: None,
    };

    match plan_select::<SqliteDialect>(query) {
        SelectPlan::Run(st) => {
            assert_eq!(st.sql, "SELECT \"id\" FROM \"character\"");
            assert_eq!(st.binds, Vec::<Value>::new());
        }
        _ => panic!("a select with a matching-all clause must still run"),
    }
}

#[test]
fn empty_insert_is_skipped() {
    let query = InsertQuery { table_name: "character", values: vec![] };
    assert!(matches!(plan_insert::<SqliteDialect>(query), ExecPlan::Skip));

    let query = InsertQuery {
        table_name: "character",
        values: vec![InputRecord::default(), InputRecord::default()],
    };
    assert!(matches!(plan_insert::<SqliteDialect>(query), ExecPlan::Skip));
}

#[test]
fn delete_without_selectors_deletes_every_row() {
    let query = delete_query("character", vec![]);
    match plan_delete::<SqliteDialect>(query) {
        ExecPlan::Run(st) => {
            assert_eq!(st.sql, "DELETE FROM \"character\"");
            assert_eq!(st.binds, Vec::<Value>::new());
        }
        ExecPlan::Skip => panic!("an empty filter list must delete every row"),
    }
}

#[test]
fn update_with_matching_all_clause_runs_unfiltered() {
    let mut cond1 = Selector::default();
    cond1.add_col("id", FindOperator::Eq(1).boxed());
    let cond2 = Selector::default();

    let mut values = InputRecord::default();
    values.add_col("is_handsome", false.into_value());

    let query = UpdateQuery {
        table_name: "character",
        selectors: vec![cond1, cond2],
        new_values: values,
    };

    match plan_update::<SqliteDialect>(query) {
        ExecPlan::Run(st) => {
            assert_eq!(st.sql, "UPDATE \"character\" SET \"is_handsome\" = ?");
            assert_eq!(st.binds, vec![Value::Bool(false)]);
        }
        ExecPlan::Skip => panic!("a match-all clause must update every row"),
    }
}

#[test]
fn get_query_filters_by_id() {
    let query = get_query("character", vec!["id", "name"], "id", 7i64.into_value());
    let sql = query.to_sql(&mut Postgres::parameter_factory());
    assert_eq!(sql, "SELECT \"id\", \"name\" FROM \"character\" WHERE \"id\" = $1");
    assert_eq!(query.bind_values(), vec![Value::I64(7)]);
}

#[test]
fn patch_query_sets_then_filters() {
    let mut patch = InputRecord::default();
    patch.add_col("is_handsome", false.into_value());

    let query = patch_query("character", "id", 7i64.into_value(), patch);
    let sql = query.to_sql(&mut Postgres::parameter_factory());
    assert_eq!(sql, "UPDATE \"character\" SET \"is_handsome\" = $1 WHERE \"id\" = $2");
    assert_eq!(query.bind_values(), vec![Value::Bool(false), Value::I64(7)]);
}

#[test]
fn remove_query_filters_by_id() {
    let query = remove_query("character", "id", 7i64.into_value());
    let sql = query.to_sql(&mut Postgres::parameter_factory());
    assert_eq!(sql, "DELETE FROM \"character\" WHERE \"id\" = $1");
}

#[test]
fn log_manager_records_the_rendered_sql() {
    let mut selector = Selector::default();
    selector.add_col("is_handsome", FindOperator::Eq(true).boxed());

    let query = foil::query::CountQuery { table_name: "character", selectors: vec![selector] };

    let mut manager = LogManager::new((), String::new());
    manager.log_count::<SqliteDialect>(&query);
    assert_eq!(
        manager.writer(),
        "SELECT COUNT (*) AS \"cnt\" FROM \"character\" WHERE \"is_handsome\" = ?"
    );

    let (inner, log) = manager.into_parts();
    let _unit: () = inner;
    assert_eq!(log, "SELECT COUNT (*) AS \"cnt\" FROM \"character\" WHERE \"is_handsome\" = ?");
}

#[test]
fn builders_skip_omitted_fields() {
    let built = CharacterSelector {
        name: Field::Given(FindOperator::Eq(String::from("Legalas"))),
        is_handsome: Field::Omit,
    }
    .into_selector();
    assert_eq!(built.len(), 1);
    assert!(built.has_col("name"));
    assert!(!built.has_col("is_handsome"));

    let patch = CharacterPatch { is_handsome: Field::Given(false) };
    let record = patch.to_input_record();
    assert_eq!(record.len(), 1);
    assert_eq!(record.col("is_handsome"), Some(&Value::Bool(false)));

    let empty = CharacterPatch { is_handsome: Field::Omit }.to_input_record();
    assert!(empty.is_empty());
}

#[test]
fn omitted_fields_stay_out() {
    let field: Field<i32> = Field::default();
    assert!(matches!(field, Field::Omit));
    assert_eq!(Field::Given(3), Field::Given(3));
}
