//! Render/bind order identity on concrete queries, and the SQLite argument
//! buffer: the bind sequence goes through a real in-memory database and
//! comes back.

use std::str::FromStr;

use futures::executor::block_on;
use sqlx::{ConnectOptions, Executor, Row};

use foil::params::{Postgres, SqliteDialect, WithBindParameters};
use foil::plan::{plan_insert, plan_select, ExecPlan, SelectPlan};
use foil::query::{InsertQuery, SelectQuery, UpdateQuery};
use foil::record::{Record, RecordError};
use foil::statement::{build_arguments, BindError};
use foil::{FindOperator, InputRecord, IntoValue, Selector, Value};

#[test]
fn render_bind_order_identity() {
    let mut cond1 = Selector::default();
    cond1.add_col("col1", FindOperator::Eq(1).boxed());
    cond1.add_col("col2", FindOperator::Eq(Option::<i32>::None).boxed());
    cond1.add_col("col3", FindOperator::In(vec![Some(2), Option::<i32>::None]).boxed());

    let mut cond2 = Selector::default();
    cond2.add_col("col1", FindOperator::Ne(3).boxed());
    cond2.add_col("col3", FindOperator::NotIn(vec![Some(4), Option::<i32>::None]).boxed());

    let query = SelectQuery {
        table_name: "table",
        col_names: vec!["col1"],
        selectors: vec![cond1, cond2],
        order_by: None,
        offset: None,
        limit: None,
    };

    let sql = query.to_sql(&mut Postgres::parameter_factory());
    let placeholders = sql.matches('$').count();
    let binds = query.bind_values();

    assert_eq!(placeholders, binds.len());
    assert_eq!(
        binds,
        vec![
            Value::I32(1),
            Value::Opt(Some(Box::new(Value::I32(2)))),
            Value::I32(3),
            Value::Opt(Some(Box::new(Value::I32(4)))),
        ]
    );
}

#[test]
fn insert_binds_follow_declared_column_order() {
    let mut row1 = InputRecord::default();
    row1.add_col("a", 11.into_value());
    row1.add_col("b", 12.into_value());

    let mut row2 = InputRecord::default();
    row2.add_col("c", 23.into_value());
    row2.add_col("b", 22.into_value());

    let query = InsertQuery { table_name: "t", values: vec![row1, row2] };

    let sql = query.to_sql(&mut Postgres::parameter_factory());
    assert_eq!(
        sql,
        "INSERT INTO \"t\" (\"a\", \"b\", \"c\") VALUES ($1, $2, DEFAULT), (DEFAULT, $3, $4)"
    );

    // Row 2 declared c before b, but binding walks the declared column
    // list (a, b, c), exactly as the placeholders were numbered.
    let binds = query.bind_values();
    assert_eq!(
        binds,
        vec![Value::I32(11), Value::I32(12), Value::I32(22), Value::I32(23)]
    );
}

#[test]
fn update_binds_values_before_filters() {
    let mut selector = Selector::default();
    selector.add_col("id", FindOperator::Eq(7).boxed());

    let mut values = InputRecord::default();
    values.add_col("is_handsome", false.into_value());

    let query = UpdateQuery { table_name: "character", selectors: vec![selector], new_values: values };

    let sql = query.to_sql(&mut Postgres::parameter_factory());
    assert_eq!(sql, "UPDATE \"character\" SET \"is_handsome\" = $1 WHERE \"id\" = $2");

    let binds = query.bind_values();
    assert_eq!(binds, vec![Value::Bool(false), Value::I32(7)]);
}

#[test]
fn unsigned_64_bit_has_no_sqlite_encoding() {
    let binds = vec![Value::U64(1)];
    match build_arguments(&binds) {
        Err(BindError::UnsupportedType) => {}
        Ok(_) => panic!("a u64 must not be encodable for SQLite"),
    }
}

#[test]
fn nested_option_binds_inner_value() {
    let binds = vec![Some(5i64).into_value(), Option::<i64>::None.into_value()];
    assert!(build_arguments(&binds).is_ok());
}

#[test]
fn statement_round_trip_through_sqlite() {
    let mut conn = block_on(
        sqlx::sqlite::SqliteConnectOptions::from_str("sqlite::memory:")
            .unwrap()
            .connect(),
    )
    .unwrap();

    block_on(conn.execute(
        "CREATE TABLE character (id INTEGER, name TEXT, is_handsome BOOLEAN)",
    ))
    .unwrap();

    let mut row = InputRecord::default();
    row.add_col("id", 1i64.into_value());
    row.add_col("name", String::from("Legalas").into_value());
    row.add_col("is_handsome", true.into_value());

    let insert = InsertQuery { table_name: "character", values: vec![row] };
    let st = match plan_insert::<SqliteDialect>(insert) {
        ExecPlan::Run(st) => st,
        ExecPlan::Skip => panic!("a non-empty insert must run"),
    };
    let args = build_arguments(&st.binds).unwrap();
    block_on(conn.execute(sqlx::query_with(&st.sql, args))).unwrap();

    let mut selector = Selector::default();
    selector.add_col("is_handsome", FindOperator::Eq(true).boxed());
    let select = SelectQuery {
        table_name: "character",
        col_names: vec!["id", "name"],
        selectors: vec![selector],
        order_by: None,
        offset: None,
        limit: None,
    };
    let st = match plan_select::<SqliteDialect>(select) {
        SelectPlan::Run(st) => st,
        _ => panic!("a filtered select over columns must run"),
    };
    assert_eq!(st.sql, "SELECT \"id\", \"name\" FROM \"character\" WHERE \"is_handsome\" = ?");
    assert_eq!(st.binds, vec![Value::Bool(true)]);

    let args = build_arguments(&st.binds).unwrap();
    let row = block_on(conn.fetch_one(sqlx::query_with(&st.sql, args))).unwrap();
    let id: i64 = row.get("id");
    let name: String = row.get("name");
    assert_eq!(id, 1);
    assert_eq!(name, "Legalas");
}

#[test]
fn every_scalar_width_round_trips_through_sqlite() {
    let mut conn = block_on(
        sqlx::sqlite::SqliteConnectOptions::from_str("sqlite::memory:")
            .unwrap()
            .connect(),
    )
    .unwrap();

    block_on(conn.execute(
        "CREATE TABLE scalars (b BOOLEAN, i8 INTEGER, i16 INTEGER, i32 INTEGER, i64 INTEGER, \
         u8 INTEGER, u16 INTEGER, u32 INTEGER, t TEXT, bl BLOB, n INTEGER)",
    ))
    .unwrap();

    let mut row = InputRecord::default();
    row.add_col("b", true.into_value());
    row.add_col("i8", (-8i8).into_value());
    row.add_col("i16", (-16i16).into_value());
    row.add_col("i32", (-32i32).into_value());
    row.add_col("i64", (-64i64).into_value());
    row.add_col("u8", 8u8.into_value());
    row.add_col("u16", 16u16.into_value());
    row.add_col("u32", 32u32.into_value());
    row.add_col("t", String::from("text").into_value());
    row.add_col("bl", vec![1u8, 2, 3].into_value());
    row.add_col("n", Option::<i64>::None.into_value());

    let insert = InsertQuery { table_name: "scalars", values: vec![row] };
    let st = match plan_insert::<SqliteDialect>(insert) {
        ExecPlan::Run(st) => st,
        ExecPlan::Skip => panic!("a non-empty insert must run"),
    };
    let args = build_arguments(&st.binds).unwrap();
    block_on(conn.execute(sqlx::query_with(&st.sql, args))).unwrap();

    let raw = block_on(conn.fetch_one("SELECT * FROM scalars")).unwrap();
    let record = Record::from_row(raw);
    assert_eq!(record.col_bool("b"), Ok(true));
    assert_eq!(record.col_i64("i64"), Ok(-64));
    assert_eq!(record.col_i32("i32"), Ok(-32));
    assert_eq!(record.col_i64("i8"), Ok(-8));
    assert_eq!(record.col_i64("i16"), Ok(-16));
    assert_eq!(record.col_i64("u8"), Ok(8));
    assert_eq!(record.col_i64("u16"), Ok(16));
    assert_eq!(record.col_i64("u32"), Ok(32));
    assert_eq!(record.col_text("t"), Ok(String::from("text")));
    assert_eq!(record.col_bytes("bl"), Ok(vec![1u8, 2, 3]));
}

#[test]
fn dates_and_json_round_trip_as_driver_text() {
    let mut conn = block_on(
        sqlx::sqlite::SqliteConnectOptions::from_str("sqlite::memory:")
            .unwrap()
            .connect(),
    )
    .unwrap();

    block_on(conn.execute("CREATE TABLE events (day TEXT, at TEXT, payload TEXT)")).unwrap();

    // The caller converts calendar and JSON values to the text the driver
    // itself stores for them; the core carries and binds them as their
    // own kinds.
    let day = chrono::NaiveDate::from_ymd_opt(2024, 3, 9).unwrap();
    let at = chrono::NaiveTime::from_hms_opt(12, 30, 5).unwrap();
    let mut payload = serde_json::Map::new();
    payload.insert(String::from("kind"), serde_json::Value::String(String::from("feast")));
    let payload = serde_json::Value::Object(payload);

    let mut row = InputRecord::default();
    row.add_col("day", Value::Date(day.format("%F").to_string()));
    row.add_col("at", Value::Time(at.format("%T%.f").to_string()));
    row.add_col("payload", Value::Json(payload.to_string()));

    let insert = InsertQuery { table_name: "events", values: vec![row] };
    let st = match plan_insert::<SqliteDialect>(insert) {
        ExecPlan::Run(st) => st,
        ExecPlan::Skip => panic!("a non-empty insert must run"),
    };
    let args = build_arguments(&st.binds).unwrap();
    block_on(conn.execute(sqlx::query_with(&st.sql, args))).unwrap();

    let raw = block_on(conn.fetch_one("SELECT * FROM events")).unwrap();
    let day_text: String = raw.get("day");
    let at_text: String = raw.get("at");
    let payload_text: String = raw.get("payload");

    let day_back = chrono::NaiveDate::parse_from_str(&day_text, "%F").unwrap();
    assert_eq!(day_back, day);
    let at_back = chrono::NaiveTime::parse_from_str(&at_text, "%T%.f").unwrap();
    assert_eq!(at_back, at);
    let payload_back: serde_json::Value = serde_json::from_str(&payload_text).unwrap();
    assert_eq!(payload_back, payload);
}

#[test]
fn record_over_a_live_row() {
    let mut conn = block_on(
        sqlx::sqlite::SqliteConnectOptions::from_str("sqlite::memory:")
            .unwrap()
            .connect(),
    )
    .unwrap();

    block_on(conn.execute("CREATE TABLE character (id INTEGER, name TEXT, is_handsome BOOLEAN)"))
        .unwrap();
    block_on(conn.execute("INSERT INTO character VALUES (1, 'Legalas', true)")).unwrap();

    let row = block_on(conn.fetch_one("SELECT * FROM character")).unwrap();
    let mut record = Record::from_row(row);

    assert_eq!(record.col_i64("id"), Ok(1));
    assert_eq!(record.col_text("name"), Ok(String::from("Legalas")));
    assert_eq!(record.col_bool("is_handsome"), Ok(true));
    match record.col_i64("age") {
        Err(RecordError::ColumnNotFound(name)) => assert_eq!(name, "age"),
        other => panic!("expected ColumnNotFound, got {:?}", other),
    }

    // A synthesized value shadows the live row's column of the same name.
    record.set_col("name", foil::Value::Text(String::from("Himmly")));
    assert_eq!(record.col_text("name"), Ok(String::from("Himmly")));
}
