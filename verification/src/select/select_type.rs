//! The list after `SELECT`.

use vstd::prelude::*;
use crate::text::{copy_strs, join_strs, joined, views};

verus! {

/// The mathematical value of a select list: everything, or the named columns in order.
pub ghost enum SelectList {
    All,
    Specific(Seq<Seq<char>>),
}

impl SelectList {
    /// The columns named so far; none while everything is selected.
    pub open spec fn columns(self) -> Seq<Seq<char>> {
        match self {
            SelectList::All => Seq::empty(),
            SelectList::Specific(columns) => columns,
        }
    }

    /// `*`, or the columns separated by a comma and a blank.
    pub open spec fn sql(self) -> Seq<char> {
        match self {
            SelectList::All => "*"@,
            SelectList::Specific(columns) => joined(columns, ", "@),
        }
    }
}

#[derive(PartialEq, Eq)]
pub enum SelectType<'a> {
    All,
    Specific(Vec<&'a str>),
}

impl<'a> View for SelectType<'a> {
    type V = SelectList;

    open spec fn view(&self) -> SelectList {
        match self {
            SelectType::All => SelectList::All,
            SelectType::Specific(columns) => SelectList::Specific(views(columns@)),
        }
    }
}

impl<'a> SelectType<'a> {
    pub fn to_sql(&self) -> (s: String)
        ensures
            s@ == self@.sql(),
    {
        match self {
            SelectType::All => String::from_str("*"),
            SelectType::Specific(clauses) => join_strs(clauses, ", "),
        }
    }
}

impl<'a> Clone for SelectType<'a> {
    fn clone(&self) -> (r: Self)
        ensures
            r@ == self@,
    {
        match self {
            SelectType::All => SelectType::All,
            SelectType::Specific(columns) => SelectType::Specific(copy_strs(columns)),
        }
    }
}

} // verus!
