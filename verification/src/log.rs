//! A logging decorator for a query executor: renders each query's SQL text
//! into an owned log before the inner executor runs it. Formatting failures
//! are a distinct error kind from execution errors, never conflated.

use vstd::prelude::*;
use vstd::string::StringExecFns;

use crate::params::WithBindParameters;
use crate::query::CountQuery;
use crate::query::DeleteQuery;
use crate::query::InsertQuery;
use crate::query::InsertReturningQuery;
use crate::query::SelectQuery;
use crate::query::UpdateQuery;
use crate::render::spec_count_slots;
use crate::render::spec_count_sql;
use crate::render::spec_delete_slots;
use crate::render::spec_delete_sql;
use crate::render::spec_insert_returning_sql;
use crate::render::spec_insert_slots;
use crate::render::spec_insert_sql;
use crate::render::spec_select_slots;
use crate::render::spec_select_sql;
use crate::render::spec_tokens;
use crate::render::spec_update_slots;
use crate::render::spec_update_sql;

verus! {

/// Wraps an inner executor `M` and records the SQL text of every query
/// handed through it.
pub struct LogManager<M> {
    inner: M,
    writer: String,
}

impl<M> LogManager<M> {
    /// The text logged so far.
    pub closed spec fn log(&self) -> Seq<char> {
        self.writer@
    }

    /// The wrapped executor.
    pub closed spec fn spec_inner(&self) -> M {
        self.inner
    }

    /// Wrap `inner`, appending logged SQL to `writer`.
    pub fn new(inner: M, writer: String) -> (r: Self)
        ensures
            r.log() == writer@,
            r.spec_inner() == inner,
    {
        LogManager { inner, writer }
    }

    /// Read the log.
    pub fn writer(&self) -> (r: &String)
        ensures
            r@ == self.log(),
    {
        &self.writer
    }

    /// Unwrap, returning the inner executor and the log.
    pub fn into_parts(self) -> (r: (M, String))
        ensures
            r.0 == self.spec_inner(),
            r.1@ == self.log(),
    {
        (self.inner, self.writer)
    }

    /// Log the text of a select for dialect `D`.
    pub fn log_select<D: WithBindParameters>(&mut self, query: &SelectQuery)
        requires
            spec_select_slots(*query) <= u64::MAX,
        ensures
            final(self).log() == old(self).log() + spec_select_sql(
                *query,
                spec_tokens::<<D as WithBindParameters>::ParameterFactory>(),
                0,
            ),
            final(self).spec_inner() == old(self).spec_inner(),
    {
        let mut pf = D::parameter_factory();
        let sql = query.to_sql(&mut pf);
        self.writer.append(sql.as_str());
    }

    /// Log the text of a count for dialect `D`.
    pub fn log_count<D: WithBindParameters>(&mut self, query: &CountQuery)
        requires
            spec_count_slots(*query) <= u64::MAX,
        ensures
            final(self).log() == old(self).log() + spec_count_sql(
                *query,
                spec_tokens::<<D as WithBindParameters>::ParameterFactory>(),
                0,
            ),
            final(self).spec_inner() == old(self).spec_inner(),
    {
        let mut pf = D::parameter_factory();
        let sql = query.to_sql(&mut pf);
        self.writer.append(sql.as_str());
    }

    /// Log the text of an insert for dialect `D`.
    pub fn log_insert<D: WithBindParameters>(&mut self, query: &InsertQuery)
        requires
            spec_insert_slots(*query) <= u64::MAX,
        ensures
            final(self).log() == old(self).log() + spec_insert_sql(
                *query,
                spec_tokens::<<D as WithBindParameters>::ParameterFactory>(),
                0,
            ),
            final(self).spec_inner() == old(self).spec_inner(),
    {
        let mut pf = D::parameter_factory();
        let sql = query.to_sql(&mut pf);
        self.writer.append(sql.as_str());
    }

    /// Log the text of an insert-returning for dialect `D`.
    pub fn log_insert_returning<D: WithBindParameters>(&mut self, query: &InsertReturningQuery)
        requires
            spec_insert_slots(query.insert_query) <= u64::MAX,
        ensures
            final(self).log() == old(self).log() + spec_insert_returning_sql(
                *query,
                spec_tokens::<<D as WithBindParameters>::ParameterFactory>(),
                0,
            ),
            final(self).spec_inner() == old(self).spec_inner(),
    {
        let mut pf = D::parameter_factory();
        let sql = query.to_sql(&mut pf);
        self.writer.append(sql.as_str());
    }

    /// Log the text of an update for dialect `D`.
    pub fn log_update<D: WithBindParameters>(&mut self, query: &UpdateQuery)
        requires
            spec_update_slots(*query) <= u64::MAX,
        ensures
            final(self).log() == old(self).log() + spec_update_sql(
                *query,
                spec_tokens::<<D as WithBindParameters>::ParameterFactory>(),
                0,
            ),
            final(self).spec_inner() == old(self).spec_inner(),
    {
        let mut pf = D::parameter_factory();
        let sql = query.to_sql(&mut pf);
        self.writer.append(sql.as_str());
    }

    /// Log the text of a delete for dialect `D`.
    pub fn log_delete<D: WithBindParameters>(&mut self, query: &DeleteQuery)
        requires
            spec_delete_slots(*query) <= u64::MAX,
        ensures
            final(self).log() == old(self).log() + spec_delete_sql(
                *query,
                spec_tokens::<<D as WithBindParameters>::ParameterFactory>(),
                0,
            ),
            final(self).spec_inner() == old(self).spec_inner(),
    {
        let mut pf = D::parameter_factory();
        let sql = query.to_sql(&mut pf);
        self.writer.append(sql.as_str());
    }
}

/// An error of the logging executor: either the log could not be written,
/// or the inner executor failed. The two kinds are kept apart.
#[derive(Debug, PartialEq, Eq)]
pub enum Error<Inner> {
    /// Writing the SQL text to the log failed.
    Fmt,
    /// The inner executor failed.
    Inner(Inner),
}

} // verus!
