//! The filter-operator algebra: a closed set of operators over a generic
//! value type, with the transformation that erases the static type of the
//! contained values.

use vstd::prelude::*;

use crate::value::IntoValue;
use crate::value::Value;

verus! {

/// A filter operator over one column. `In`/`NotIn` carry a list of candidate
/// values; the renderer treats an empty `In` as "matches nothing" and an
/// empty `NotIn` as "matches everything" (see the executor plans).
#[derive(Debug, PartialEq, Eq)]
pub enum FindOperator<T> {
    Eq(T),
    Ne(T),
    In(Vec<T>),
    NotIn(Vec<T>),
}

impl<T: IntoValue> FindOperator<T> {
    /// Erase the static value type of this operator, preserving the variant
    /// and the order of any contained list.
    pub fn boxed(self) -> (r: FindOperator<Value>)
        ensures
            match (self, r) {
                (FindOperator::Eq(x), FindOperator::Eq(v)) => v == x.spec_value(),
                (FindOperator::Ne(x), FindOperator::Ne(v)) => v == x.spec_value(),
                (FindOperator::In(xs), FindOperator::In(vs)) => vs@ == xs@.map_values(
                    |x: T| x.spec_value(),
                ),
                (FindOperator::NotIn(xs), FindOperator::NotIn(vs)) => vs@ == xs@.map_values(
                    |x: T| x.spec_value(),
                ),
                _ => false,
            },
    {
        match self {
            FindOperator::Eq(x) => FindOperator::Eq(x.into_value()),
            FindOperator::Ne(x) => FindOperator::Ne(x.into_value()),
            FindOperator::In(xs) => FindOperator::In(erase_list(xs)),
            FindOperator::NotIn(xs) => FindOperator::NotIn(erase_list(xs)),
        }
    }
}

/// Erase every element of a list, in order.
fn erase_list<T: IntoValue>(xs: Vec<T>) -> (r: Vec<Value>)
    ensures
        r@ == xs@.map_values(|x: T| x.spec_value()),
{
    let ghost orig = xs@;
    let n: usize = xs.len();
    let mut out: Vec<Value> = Vec::new();
    let mut rest = xs;
    let mut taken: usize = 0;
    proof {
        assert(orig.map_values(|x: T| x.spec_value()).take(0) =~= Seq::<Value>::empty());
        assert(orig.skip(0) =~= orig);
    }
    while rest.len() > 0
        invariant
            taken <= n,
            n == orig.len(),
            taken + rest@.len() == orig.len(),
            rest@ =~= orig.skip(taken as int),
            out@ =~= orig.map_values(|x: T| x.spec_value()).take(taken as int),
        decreases rest@.len(),
    {
        let x = rest.remove(0);
        proof {
            assert(x == orig[taken as int]);
            assert(orig.map_values(|x: T| x.spec_value()).take(taken + 1) =~= orig.map_values(
                |x: T| x.spec_value(),
            ).take(taken as int).push(x.spec_value()));
        }
        out.push(x.into_value());
        taken = taken + 1;
        proof {
            assert(rest@ =~= orig.skip(taken as int));
        }
    }
    proof {
        assert(out@ =~= orig.map_values(|x: T| x.spec_value()));
    }
    out
}

} // verus!
