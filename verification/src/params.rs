//! Per-dialect placeholder generation: a `ParameterFactory` is a small
//! stateful generator of placeholder tokens, and `WithBindParameters` selects
//! the factory for a target dialect at compile time.

use vstd::prelude::*;
use vstd::string::StringExecFns;

use crate::text::spec_u64_str;
use crate::text::u64_str;

verus! {

/// A generator of placeholder tokens for parameterized SQL.
///
/// `token_of(k)` is the token produced by the `k`-th call of `get` (counting
/// from zero), and `counter` is the number of calls made so far; the SQL
/// renderer consumes one token per bound value, so a factory's counter always
/// equals the number of values bound up to that point of the statement.
pub trait ParameterFactory: Sized {
    /// How many tokens this factory has handed out.
    spec fn counter(&self) -> nat;

    /// The token handed out by the `k`-th call, counting from zero.
    spec fn token_of(k: nat) -> Seq<char>;

    /// Produce the next placeholder token.
    fn get(&mut self) -> (r: String)
        requires
            old(self).counter() < u64::MAX,
        ensures
            final(self).counter() == old(self).counter() + 1,
            r@ == Self::token_of(old(self).counter()),
    ;
}

/// Selection of the placeholder style for one target dialect.
pub trait WithBindParameters {
    /// The factory type for this dialect.
    type ParameterFactory: ParameterFactory;

    /// A fresh factory, with no tokens handed out yet.
    fn parameter_factory() -> (r: Self::ParameterFactory)
        ensures
            r.counter() == 0,
    ;
}

/// Ordered, numbered placeholders: `$1`, `$2`, `$3`, ...
pub struct PgParameterFactory {
    count: u64,
}

impl ParameterFactory for PgParameterFactory {
    closed spec fn counter(&self) -> nat {
        self.count as nat
    }

    open spec fn token_of(k: nat) -> Seq<char> {
        "$"@ + spec_u64_str(k + 1)
    }

    fn get(&mut self) -> (r: String) {
        self.count = self.count + 1;
        let mut s = String::from_str("$");
        s.append(u64_str(self.count).as_str());
        s
    }
}

impl Default for PgParameterFactory {
    /// A fresh factory: the next token is `$1`.
    fn default() -> (r: Self)
        ensures
            r.counter() == 0,
    {
        PgParameterFactory { count: 0 }
    }
}

/// Unordered placeholders: every token is `?`, and parameters bind strictly
/// by call order. The call count is still tracked, as ghost state, so that
/// the renderer's contracts speak of one counter whatever the dialect.
pub struct UnorderedParameterFactory {
    gets: Ghost<nat>,
}

impl ParameterFactory for UnorderedParameterFactory {
    closed spec fn counter(&self) -> nat {
        self.gets@
    }

    open spec fn token_of(k: nat) -> Seq<char> {
        "?"@
    }

    fn get(&mut self) -> (r: String) {
        proof {
            self.gets@ = self.gets@ + 1;
        }
        String::from_str("?")
    }
}

impl Default for UnorderedParameterFactory {
    /// A fresh factory.
    fn default() -> (r: Self)
        ensures
            r.counter() == 0,
    {
        UnorderedParameterFactory { gets: Ghost(0) }
    }
}

/// Named, numbered placeholders: `@P1`, `@P2`, `@P3`, ...
pub struct MssqlParameterFactory {
    count: u64,
}

impl ParameterFactory for MssqlParameterFactory {
    closed spec fn counter(&self) -> nat {
        self.count as nat
    }

    open spec fn token_of(k: nat) -> Seq<char> {
        "@P"@ + spec_u64_str(k + 1)
    }

    fn get(&mut self) -> (r: String) {
        self.count = self.count + 1;
        let mut s = String::from_str("@P");
        s.append(u64_str(self.count).as_str());
        s
    }
}

impl Default for MssqlParameterFactory {
    /// A fresh factory: the next token is `@P1`.
    fn default() -> (r: Self)
        ensures
            r.counter() == 0,
    {
        MssqlParameterFactory { count: 0 }
    }
}

/// The Postgres dialect: ordered, numbered placeholders.
pub struct Postgres;

impl WithBindParameters for Postgres {
    type ParameterFactory = PgParameterFactory;

    fn parameter_factory() -> (r: PgParameterFactory) {
        PgParameterFactory::default()
    }
}

/// The MySQL dialect: unordered `?` placeholders.
pub struct MySql;

impl WithBindParameters for MySql {
    type ParameterFactory = UnorderedParameterFactory;

    fn parameter_factory() -> (r: UnorderedParameterFactory) {
        UnorderedParameterFactory::default()
    }
}

/// The SQLite dialect: unordered `?` placeholders.
pub struct SqliteDialect;

impl WithBindParameters for SqliteDialect {
    type ParameterFactory = UnorderedParameterFactory;

    fn parameter_factory() -> (r: UnorderedParameterFactory) {
        UnorderedParameterFactory::default()
    }
}

/// The MSSQL dialect: named, numbered placeholders.
pub struct Mssql;

impl WithBindParameters for Mssql {
    type ParameterFactory = MssqlParameterFactory;

    fn parameter_factory() -> (r: MssqlParameterFactory) {
        MssqlParameterFactory::default()
    }
}

/// The generic dialect: unordered `?` placeholders.
pub struct AnyDb;

impl WithBindParameters for AnyDb {
    type ParameterFactory = UnorderedParameterFactory;

    fn parameter_factory() -> (r: UnorderedParameterFactory) {
        UnorderedParameterFactory::default()
    }
}

} // verus!
