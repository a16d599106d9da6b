//! The data-holding pieces: values, accumulators, parameter factories and
//! records.

use foil::params::{MssqlParameterFactory, ParameterFactory, PgParameterFactory,
    UnorderedParameterFactory};
use foil::query::Order;
use foil::record::{Record, RecordError};
use foil::{FindOperator, InputRecord, IntoValue, Selector, Value};

#[test]
fn ordered_numbered_factory_counts_up() {
    let mut pf = PgParameterFactory::default();
    assert_eq!(pf.get(), "$1");
    assert_eq!(pf.get(), "$2");
    assert_eq!(pf.get(), "$3");
}

#[test]
fn unordered_factory_is_constant() {
    let mut pf = UnorderedParameterFactory::default();
    assert_eq!(pf.get(), "?");
    assert_eq!(pf.get(), "?");
    assert_eq!(pf.get(), "?");
}

#[test]
fn named_numbered_factory_counts_up() {
    let mut pf = MssqlParameterFactory::default();
    assert_eq!(pf.get(), "@P1");
    assert_eq!(pf.get(), "@P2");
    assert_eq!(pf.get(), "@P3");
}

#[test]
fn numbered_factory_renders_multi_digit_counts() {
    let mut pf = PgParameterFactory::default();
    let mut last = String::new();
    let mut i = 0;
    while i < 12 {
        last = pf.get();
        i += 1;
    }
    assert_eq!(last, "$12");
}

#[test]
fn only_absent_options_are_null() {
    assert!(Value::Opt(None).is_null());
    assert!(!Value::Opt(Some(Box::new(Value::I32(1)))).is_null());
    assert!(!Value::I32(0).is_null());
    assert!(!Value::Text(String::new()).is_null());
    assert!(!Value::Bytes(Vec::new()).is_null());
}

#[test]
fn selector_lookup_is_first_match() {
    let mut selector = Selector::new();
    assert!(selector.is_empty());
    selector.add_col("a", FindOperator::Eq(1).boxed());
    selector.add_col("a", FindOperator::Eq(2).boxed());
    selector.add_col("b", FindOperator::Ne(3).boxed());

    assert_eq!(selector.len(), 3);
    assert!(selector.has_col("a"));
    assert!(selector.has_col("b"));
    assert!(!selector.has_col("c"));
    assert_eq!(selector.col("a"), Some(&FindOperator::Eq(Value::I32(1))));
    assert_eq!(selector.col("c"), None);
}

#[test]
fn selector_remove_takes_the_first_entry() {
    let mut selector = Selector::new();
    selector.add_col("a", FindOperator::Eq(1).boxed());
    selector.add_col("a", FindOperator::Eq(2).boxed());
    selector.remove_col("a");

    assert_eq!(selector.len(), 1);
    assert_eq!(selector.col("a"), Some(&FindOperator::Eq(Value::I32(2))));

    selector.remove_col("missing");
    assert_eq!(selector.len(), 1);
}

#[test]
fn input_record_keeps_declaration_order() {
    let mut record = InputRecord::new();
    assert!(record.is_empty());
    record.add_col("x", 1.into_value());
    record.add_col("y", 2.into_value());

    assert!(record.has_col("x"));
    assert!(!record.has_col("z"));
    assert_eq!(record.col("y"), Some(&Value::I32(2)));

    let cols = record.into_cols();
    assert_eq!(cols[0].0, "x");
    assert_eq!(cols[1].0, "y");
}

#[test]
fn record_reads_are_typed() {
    let mut record = Record::new();
    record.set_col("id", Value::I64(9));
    record.set_col("name", Value::Text(String::from("Himmly")));
    record.set_col("is_handsome", Value::Bool(true));

    assert_eq!(record.col_i64("id"), Ok(9));
    assert_eq!(record.col_text("name"), Ok(String::from("Himmly")));
    assert_eq!(record.col_bool("is_handsome"), Ok(true));
}

#[test]
fn record_missing_column_is_column_not_found() {
    let record = Record::new();
    match record.col_bool("id") {
        Err(RecordError::ColumnNotFound(name)) => assert_eq!(name, "id"),
        other => panic!("expected ColumnNotFound, got {:?}", other),
    }
}

#[test]
fn record_wrong_type_is_column_decode() {
    let mut record = Record::new();
    record.set_col("id", Value::Text(String::from("nine")));
    match record.col_i64("id") {
        Err(RecordError::ColumnDecode { index, source }) => {
            assert_eq!(index, "id");
            assert_eq!(source, None);
        }
        other => panic!("expected ColumnDecode, got {:?}", other),
    }
}

#[test]
fn order_keywords() {
    assert_eq!(Order::Asc.as_str(), "ASC");
    assert_eq!(Order::Desc.as_str(), "DESC");
}
