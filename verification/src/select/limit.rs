//! The `LIMIT` clause.

use vstd::prelude::*;

verus! {

#[derive(Clone, Copy, PartialEq, Eq)]
pub enum LimitType<'a> {
    Empty,
    Specified(&'a str),
}

impl<'a> View for LimitType<'a> {
    type V = Option<Seq<char>>;

    open spec fn view(&self) -> Option<Seq<char>> {
        match self {
            LimitType::Empty => None,
            LimitType::Specified(value) => Some(value@),
        }
    }
}

} // verus!
