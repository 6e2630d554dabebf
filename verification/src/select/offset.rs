//! The `OFFSET` clause.

use vstd::prelude::*;

verus! {

#[derive(Clone, Copy, PartialEq, Eq)]
pub enum OffsetType<'a> {
    Empty,
    Specified(&'a str),
}

impl<'a> View for OffsetType<'a> {
    type V = Option<Seq<char>>;

    open spec fn view(&self) -> Option<Seq<char>> {
        match self {
            OffsetType::Empty => None,
            OffsetType::Specified(value) => Some(value@),
        }
    }
}

} // verus!
