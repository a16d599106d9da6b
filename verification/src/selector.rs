//! The condition and values accumulators: ordered mappings from column name
//! to a filter operator (for reading) or a value (for writing).
//!
//! Both keep insertion order, and `add_col` appends: calling it twice for the
//! same column keeps both entries, and lookup returns the first match in
//! declaration order. (A uniqueness-enforcing map is the other possible
//! design; this library deliberately retains duplicates, and the renderer
//! renders them as repeated predicates.)

use vstd::prelude::*;

use crate::operator::FindOperator;
use crate::text::str_eq;
use crate::value::Value;

verus! {

/// The first entry for `name` in `s`, searching left to right.
pub open spec fn spec_first_match<T>(s: Seq<(&'static str, T)>, name: Seq<char>) -> Option<T>
    decreases s.len(),
{
    if s.len() == 0 {
        None
    } else if s[0].0@ == name {
        Some(s[0].1)
    } else {
        spec_first_match(s.drop_first(), name)
    }
}

/// The index of the first entry for `name` in `s`, if any.
pub open spec fn spec_first_index<T>(s: Seq<(&'static str, T)>, name: Seq<char>) -> Option<int>
    decreases s.len(),
{
    if s.len() == 0 {
        None
    } else if s[0].0@ == name {
        Some(0int)
    } else {
        match spec_first_index(s.drop_first(), name) {
            Some(i) => Some(i + 1),
            None => None,
        }
    }
}

/// One conjunctive filter clause: an ordered sequence of
/// `(column name, operator)` pairs. A `Selector` with no entries matches
/// every row.
pub struct Selector {
    entries: Vec<(&'static str, FindOperator<Value>)>,
}

impl View for Selector {
    type V = Seq<(&'static str, FindOperator<Value>)>;

    closed spec fn view(&self) -> Seq<(&'static str, FindOperator<Value>)> {
        self.entries@
    }
}

impl Selector {
    /// An empty filter, matching every row.
    pub fn new() -> (r: Self)
        ensures
            r@ == Seq::<(&'static str, FindOperator<Value>)>::empty(),
    {
        Selector { entries: Vec::new() }
    }

    /// The number of column entries.
    pub fn len(&self) -> (r: usize)
        ensures
            r == self@.len(),
    {
        self.entries.len()
    }

    /// Whether this filter has no entries (and so matches every row).
    pub fn is_empty(&self) -> (r: bool)
        ensures
            r == (self@.len() == 0),
    {
        self.entries.len() == 0
    }

    /// Append one `(column, operator)` entry; earlier entries are kept, even
    /// for the same column name.
    pub fn add_col(&mut self, col_name: &'static str, operator: FindOperator<Value>)
        ensures
            final(self)@ == old(self)@.push((col_name, operator)),
    {
        self.entries.push((col_name, operator));
    }

    /// Remove the first entry for `col_name`, if any; later entries and the
    /// order of the rest are kept.
    pub fn remove_col(&mut self, col_name: &str)
        ensures
            match spec_first_index(old(self)@, col_name@) {
                Some(i) => final(self)@ == old(self)@.remove(i),
                None => final(self)@ == old(self)@,
            },
    {
        let n = self.entries.len();
        let mut i: usize = 0;
        proof {
            assert(self@.skip(0) =~= self@);
        }
        while i < n
            invariant
                i <= n,
                n == self@.len(),
                self@ == old(self)@,
                forall|j: int| 0 <= j < i ==> self@[j].0@ != col_name@,
                spec_first_index(old(self)@, col_name@) == spec_first_index_from(
                    old(self)@,
                    col_name@,
                    i as int,
                ),
            decreases n - i,
        {
            if str_eq(self.entries[i].0, col_name) {
                proof {
                    lemma_first_index_from_here(self@, col_name@, i as int);
                }
                self.entries.remove(i);
                return ;
            }
            proof {
                lemma_first_index_from_next(self@, col_name@, i as int);
            }
            i = i + 1;
        }
        proof {
            lemma_first_index_from_end(self@, col_name@);
        }
    }

    /// Whether some entry is for `col_name`.
    pub fn has_col(&self, col_name: &str) -> (r: bool)
        ensures
            r == (spec_first_match(self@, col_name@) is Some),
    {
        match self.col(col_name) {
            Some(_) => true,
            None => false,
        }
    }

    /// The operator of the first entry for `col_name`, in declaration order.
    pub fn col(&self, col_name: &str) -> (r: Option<&FindOperator<Value>>)
        ensures
            match r {
                Some(op) => spec_first_match(self@, col_name@) == Some(*op),
                None => spec_first_match(self@, col_name@) is None,
            },
    {
        let n = self.entries.len();
        let mut i: usize = 0;
        proof {
            assert(self@.skip(0) =~= self@);
        }
        while i < n
            invariant
                i <= n,
                n == self@.len(),
                spec_first_match(self@, col_name@) == spec_first_match_from(
                    self@,
                    col_name@,
                    i as int,
                ),
            decreases n - i,
        {
            if str_eq(self.entries[i].0, col_name) {
                proof {
                    lemma_first_match_from_here(self@, col_name@, i as int);
                }
                return Some(&self.entries[i].1);
            }
            proof {
                lemma_first_match_from_next(self@, col_name@, i as int);
            }
            i = i + 1;
        }
        proof {
            lemma_first_match_from_end(self@, col_name@);
        }
        None
    }

    /// All entries, in declaration order.
    pub fn cols(&self) -> (r: &Vec<(&'static str, FindOperator<Value>)>)
        ensures
            r@ == self@,
    {
        &self.entries
    }

    /// All entries, in declaration order, consuming the filter.
    pub fn into_cols(self) -> (r: Vec<(&'static str, FindOperator<Value>)>)
        ensures
            r@ == self@,
    {
        self.entries
    }
}

impl Default for Selector {
    /// The empty filter.
    fn default() -> (r: Self)
        ensures
            r@ == Seq::<(&'static str, FindOperator<Value>)>::empty(),
    {
        Selector::new()
    }
}

/// Conversion of a generated, entity-specific filter type into a [`Selector`],
/// calling `add_col` for each explicitly set field in declared field order.
pub trait IntoSelector {
    /// Build the erased filter.
    fn into_selector(self) -> Selector;
}

/// One row's worth of data to write: an ordered sequence of
/// `(column name, value)` pairs. An `InputRecord` with no entries means
/// "nothing to write", which the executor treats as a no-op.
pub struct InputRecord {
    entries: Vec<(&'static str, Value)>,
}

impl View for InputRecord {
    type V = Seq<(&'static str, Value)>;

    closed spec fn view(&self) -> Seq<(&'static str, Value)> {
        self.entries@
    }
}

impl InputRecord {
    /// An empty record: nothing to write.
    pub fn new() -> (r: Self)
        ensures
            r@ == Seq::<(&'static str, Value)>::empty(),
    {
        InputRecord { entries: Vec::new() }
    }

    /// The number of column entries.
    pub fn len(&self) -> (r: usize)
        ensures
            r == self@.len(),
    {
        self.entries.len()
    }

    /// Whether this record writes nothing.
    pub fn is_empty(&self) -> (r: bool)
        ensures
            r == (self@.len() == 0),
    {
        self.entries.len() == 0
    }

    /// Whether some entry is for `col_name`.
    pub fn has_col(&self, col_name: &str) -> (r: bool)
        ensures
            r == (spec_first_match(self@, col_name@) is Some),
    {
        match self.col(col_name) {
            Some(_) => true,
            None => false,
        }
    }

    /// Append one `(column, value)` entry; earlier entries are kept, even for
    /// the same column name.
    pub fn add_col(&mut self, col_name: &'static str, value: Value)
        ensures
            final(self)@ == old(self)@.push((col_name, value)),
    {
        self.entries.push((col_name, value));
    }

    /// Remove the first entry for `col_name`, if any; later entries and the
    /// order of the rest are kept.
    pub fn remove_col(&mut self, col_name: &str)
        ensures
            match spec_first_index(old(self)@, col_name@) {
                Some(i) => final(self)@ == old(self)@.remove(i),
                None => final(self)@ == old(self)@,
            },
    {
        let n = self.entries.len();
        let mut i: usize = 0;
        proof {
            assert(self@.skip(0) =~= self@);
        }
        while i < n
            invariant
                i <= n,
                n == self@.len(),
                self@ == old(self)@,
                forall|j: int| 0 <= j < i ==> self@[j].0@ != col_name@,
                spec_first_index(old(self)@, col_name@) == spec_first_index_from(
                    old(self)@,
                    col_name@,
                    i as int,
                ),
            decreases n - i,
        {
            if str_eq(self.entries[i].0, col_name) {
                proof {
                    lemma_first_index_from_here(self@, col_name@, i as int);
                }
                self.entries.remove(i);
                return ;
            }
            proof {
                lemma_first_index_from_next(self@, col_name@, i as int);
            }
            i = i + 1;
        }
        proof {
            lemma_first_index_from_end(self@, col_name@);
        }
    }

    /// The value of the first entry for `col_name`, in declaration order.
    pub fn col(&self, col_name: &str) -> (r: Option<&Value>)
        ensures
            match r {
                Some(v) => spec_first_match(self@, col_name@) == Some(*v),
                None => spec_first_match(self@, col_name@) is None,
            },
    {
        let n = self.entries.len();
        let mut i: usize = 0;
        proof {
            assert(self@.skip(0) =~= self@);
        }
        while i < n
            invariant
                i <= n,
                n == self@.len(),
                spec_first_match(self@, col_name@) == spec_first_match_from(
                    self@,
                    col_name@,
                    i as int,
                ),
            decreases n - i,
        {
            if str_eq(self.entries[i].0, col_name) {
                proof {
                    lemma_first_match_from_here(self@, col_name@, i as int);
                }
                return Some(&self.entries[i].1);
            }
            proof {
                lemma_first_match_from_next(self@, col_name@, i as int);
            }
            i = i + 1;
        }
        proof {
            lemma_first_match_from_end(self@, col_name@);
        }
        None
    }

    /// All entries, in declaration order.
    pub fn cols(&self) -> (r: &Vec<(&'static str, Value)>)
        ensures
            r@ == self@,
    {
        &self.entries
    }

    /// All entries, in declaration order, consuming the record.
    pub fn into_cols(self) -> (r: Vec<(&'static str, Value)>)
        ensures
            r@ == self@,
    {
        self.entries
    }
}

impl Default for InputRecord {
    /// The empty record.
    fn default() -> (r: Self)
        ensures
            r@ == Seq::<(&'static str, Value)>::empty(),
    {
        InputRecord::new()
    }
}

/// Conversion of a generated, entity-specific patch or input type into an
/// [`InputRecord`], calling `add_col` for each explicitly set field in
/// declared field order.
pub trait ToInputRecord {
    /// Build the erased record without consuming the source.
    fn to_input_record(&self) -> InputRecord;
}

/// `spec_first_match` restricted to entries at or after `i`.
pub open spec fn spec_first_match_from<T>(
    s: Seq<(&'static str, T)>,
    name: Seq<char>,
    i: int,
) -> Option<T> {
    spec_first_match(s.skip(i), name)
}

/// `spec_first_index` restricted to entries at or after `i` (still reported
/// as an absolute index).
pub open spec fn spec_first_index_from<T>(
    s: Seq<(&'static str, T)>,
    name: Seq<char>,
    i: int,
) -> Option<int> {
    match spec_first_index(s.skip(i), name) {
        Some(j) => Some(i + j),
        None => None,
    }
}

pub(crate) proof fn lemma_first_match_from_here<T>(s: Seq<(&'static str, T)>, name: Seq<char>, i: int)
    requires
        0 <= i < s.len(),
        s[i].0@ == name,
    ensures
        spec_first_match_from(s, name, i) == Some(s[i].1),
{
    assert(s.skip(i)[0] == s[i]);
}

pub(crate) proof fn lemma_first_match_from_next<T>(s: Seq<(&'static str, T)>, name: Seq<char>, i: int)
    requires
        0 <= i < s.len(),
        s[i].0@ != name,
    ensures
        spec_first_match_from(s, name, i) == spec_first_match_from(s, name, i + 1),
{
    assert(s.skip(i)[0] == s[i]);
    assert(s.skip(i).drop_first() =~= s.skip(i + 1));
}

pub(crate) proof fn lemma_first_match_from_end<T>(s: Seq<(&'static str, T)>, name: Seq<char>)
    ensures
        spec_first_match_from(s, name, s.len() as int) is None,
{
    assert(s.skip(s.len() as int) =~= Seq::<(&'static str, T)>::empty());
}

pub(crate) proof fn lemma_first_index_from_here<T>(s: Seq<(&'static str, T)>, name: Seq<char>, i: int)
    requires
        0 <= i < s.len(),
        s[i].0@ == name,
    ensures
        spec_first_index_from(s, name, i) == Some(i),
{
    assert(s.skip(i)[0] == s[i]);
}

pub(crate) proof fn lemma_first_index_from_next<T>(s: Seq<(&'static str, T)>, name: Seq<char>, i: int)
    requires
        0 <= i < s.len(),
        s[i].0@ != name,
    ensures
        spec_first_index_from(s, name, i) == spec_first_index_from(s, name, i + 1),
{
    assert(s.skip(i)[0] == s[i]);
    assert(s.skip(i).drop_first() =~= s.skip(i + 1));
}

pub(crate) proof fn lemma_first_index_from_end<T>(s: Seq<(&'static str, T)>, name: Seq<char>)
    ensures
        spec_first_index_from(s, name, s.len() as int) is None,
{
    assert(s.skip(s.len() as int) =~= Seq::<(&'static str, T)>::empty());
}

} // verus!
