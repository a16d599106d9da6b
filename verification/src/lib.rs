//! A typed data-access core: database-agnostic conditions, input records and
//! query models, rendered into dialect-correct parameterized SQL with an
//! ordered bind sequence that is proved to line up with the placeholders.

pub mod bind;
pub mod entity;
pub mod laws;
pub mod log;
pub mod operator;
pub mod params;
pub mod plan;
pub mod query;
pub mod record;
pub mod render;
pub mod selector;
pub mod statement;
pub mod text;
pub mod value;

pub use entity::Col;
pub use entity::Field;
pub use operator::FindOperator;
pub use params::MssqlParameterFactory;
pub use params::ParameterFactory;
pub use params::PgParameterFactory;
pub use params::UnorderedParameterFactory;
pub use params::WithBindParameters;
pub use query::CountQuery;
pub use query::DeleteQuery;
pub use query::FindOptions;
pub use query::InsertQuery;
pub use query::InsertReturningQuery;
pub use query::Order;
pub use query::OrderBy;
pub use query::SelectQuery;
pub use query::UpdateQuery;
pub use record::FromRecord;
pub use record::Record;
pub use record::RecordError;
pub use selector::InputRecord;
pub use selector::IntoSelector;
pub use selector::Selector;
pub use selector::ToInputRecord;
pub use value::IntoValue;
pub use value::Value;
