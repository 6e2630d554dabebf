//! `UNION` of two renderable statements.

use vstd::prelude::*;
use crate::common::ToSQL;

verus! {

#[derive(Clone, Copy, PartialEq, Eq)]
pub enum UnionMode {
    Simple,
    All,
}

impl UnionMode {
    /// What stands between the two sides: ` UNION `, followed by `ALL ` in the mode `All`.
    pub open spec fn connective(self) -> Seq<char> {
        match self {
            UnionMode::Simple => " UNION "@,
            UnionMode::All => " UNION "@ + "ALL "@,
        }
    }
}

/// Two statements, or unions of statements, held by value or by reference, and the mode
/// that connects them.
pub struct Union<L: ToSQL, R: ToSQL> {
    pub left: L,
    pub right: R,
    pub mode: UnionMode,
}

impl<L: ToSQL, R: ToSQL> Union<L, R> {
    /// Creates `Union` instance.
    pub fn new(mode: UnionMode, left: L, right: R) -> (u: Self)
        ensures
            u.mode == mode,
            u.left == left,
            u.right == right,
    {
        Union { mode: mode, left: left, right: right }
    }
}

impl<L: ToSQL, R: ToSQL> ToSQL for Union<L, R> {
    /// The left side, the connective, the right side: no parentheses are added.
    open spec fn sql(&self) -> Seq<char> {
        self.left.sql() + self.mode.connective() + self.right.sql()
    }

    fn to_sql(&self) -> (s: String) {
        let mut rv = self.left.to_sql();
        rv.append(" UNION ");
        match self.mode {
            UnionMode::All => {
                rv.append("ALL ");
                assert(rv@ =~= self.left.sql() + self.mode.connective());
            },
            UnionMode::Simple => {},
        }
        rv.append(self.right.to_sql().as_str());
        rv
    }
}

/// Nested unions compose from left to right without parentheses: a union whose one side
/// is a union renders as the three statements in order with the two connectives between
/// them, whichever side the inner union stands on.
pub proof fn lemma_nested_union<A: ToSQL, B: ToSQL, C: ToSQL>(
    first: A,
    inner: UnionMode,
    second: B,
    outer: UnionMode,
    third: C,
)
    ensures
        (Union { left: Union { left: first, right: second, mode: inner }, right: third, mode: outer })
            .sql() == first.sql() + inner.connective() + second.sql() + outer.connective()
            + third.sql(),
        (Union { left: first, right: Union { left: second, right: third, mode: outer }, mode: inner })
            .sql() == first.sql() + inner.connective() + second.sql() + outer.connective()
            + third.sql(),
{
    assert(first.sql() + inner.connective() + (second.sql() + outer.connective() + third.sql())
        =~= first.sql() + inner.connective() + second.sql() + outer.connective() + third.sql());
}

} // verus!
