//! `ORDER BY` terms.

use vstd::prelude::*;

verus! {

/// The direction of one `ORDER BY` term.
#[derive(Clone, Copy, PartialEq, Eq)]
pub enum Direction {
    Ascending,
    Descending,
}

impl Direction {
    /// The keyword of the direction.
    pub open spec fn sql(self) -> Seq<char> {
        match self {
            Direction::Ascending => "ASC"@,
            Direction::Descending => "DESC"@,
        }
    }

    pub fn to_sql(&self) -> (s: &'static str)
        ensures
            s@ == self.sql(),
    {
        match *self {
            Direction::Ascending => "ASC",
            Direction::Descending => "DESC",
        }
    }
}

/// The mathematical value of one `ORDER BY` term.
pub ghost struct OrderTerm {
    pub ordering: Direction,
    pub order_by: Seq<char>,
}

impl OrderTerm {
    /// `<column> <ASC|DESC>`.
    pub open spec fn sql(self) -> Seq<char> {
        self.order_by + " "@ + self.ordering.sql()
    }
}

#[derive(Clone, Copy, PartialEq, Eq)]
pub struct OrderBy<'a> {
    pub ordering: Direction,
    pub order_by: &'a str,
}

impl<'a> View for OrderBy<'a> {
    type V = OrderTerm;

    open spec fn view(&self) -> OrderTerm {
        OrderTerm { ordering: self.ordering, order_by: self.order_by@ }
    }
}

impl<'a> OrderBy<'a> {
    pub fn to_sql(&self) -> (s: String)
        ensures
            s@ == self@.sql(),
    {
        let mut rv = String::from_str(self.order_by);
        rv.append(" ");
        rv.append(self.ordering.to_sql());
        rv
    }
}

/// The values of a list of `ORDER BY` terms, in order.
pub open spec fn order_terms(list: Seq<OrderBy>) -> Seq<OrderTerm> {
    Seq::new(list.len(), |i: int| list[i]@)
}

/// A copy of a list of `ORDER BY` terms.
pub fn copy_order_by<'a>(list: &Vec<OrderBy<'a>>) -> (res: Vec<OrderBy<'a>>)
    ensures
        res@ == list@,
{
    let mut res: Vec<OrderBy<'a>> = Vec::new();
    let mut i: usize = 0;
    while i < list.len()
        invariant
            i <= list.len(),
            res@ == list@.take(i as int),
        decreases list.len() - i,
    {
        res.push(list[i]);
        assert(list@.take(i + 1) =~= list@.take(i as int).push(list@[i as int]));
        i += 1;
    }
    assert(list@.take(list.len() as int) =~= list@);
    res
}

} // verus!
