//! The `DISTINCT` clause.

use vstd::prelude::*;
use crate::text::{copy_strs, joined, views};

verus! {

/// The mathematical value of the distinct clause.
pub ghost enum Distinct {
    Empty,
    Simple,
    Extended(Seq<Seq<char>>),
}

impl Distinct {
    /// The columns of `DISTINCT ON` named so far; none in the other two states.
    pub open spec fn columns(self) -> Seq<Seq<char>> {
        match self {
            Distinct::Extended(columns) => columns,
            _ => Seq::empty(),
        }
    }

    /// What the clause adds right after `SELECT`: nothing, ` DISTINCT`, or
    /// ` DISTINCT ON (..)` with the columns separated by a comma and a blank.
    pub open spec fn clause(self) -> Seq<char> {
        match self {
            Distinct::Empty => Seq::empty(),
            Distinct::Simple => " DISTINCT"@,
            Distinct::Extended(columns) => " DISTINCT ON ("@ + joined(columns, ", "@) + ")"@,
        }
    }
}

#[derive(PartialEq, Eq)]
pub enum DistinctType<'a> {
    Empty,
    Simple,
    Extended(Vec<&'a str>),
}

impl<'a> View for DistinctType<'a> {
    type V = Distinct;

    open spec fn view(&self) -> Distinct {
        match self {
            DistinctType::Empty => Distinct::Empty,
            DistinctType::Simple => Distinct::Simple,
            DistinctType::Extended(columns) => Distinct::Extended(views(columns@)),
        }
    }
}

impl<'a> Clone for DistinctType<'a> {
    fn clone(&self) -> (r: Self)
        ensures
            r@ == self@,
    {
        match self {
            DistinctType::Empty => DistinctType::Empty,
            DistinctType::Simple => DistinctType::Simple,
            DistinctType::Extended(columns) => DistinctType::Extended(copy_strs(columns)),
        }
    }
}

} // verus!
