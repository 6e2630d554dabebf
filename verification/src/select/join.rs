//! `JOIN` clauses.

use vstd::prelude::*;

verus! {

/// The kind of a join. A cross join, which has no `ON`, is not offered.
#[derive(Clone, Copy, PartialEq, Eq)]
pub enum JoinType {
    Inner,
    Left,
    Right,
    Outer,
}

impl JoinType {
    /// The keyword of the kind.
    pub open spec fn sql(self) -> Seq<char> {
        match self {
            JoinType::Inner => "INNER"@,
            JoinType::Left => "LEFT"@,
            JoinType::Right => "RIGHT"@,
            JoinType::Outer => "OUTER"@,
        }
    }

    pub fn to_sql(&self) -> (s: &'static str)
        ensures
            s@ == self.sql(),
    {
        match *self {
            JoinType::Inner => "INNER",
            JoinType::Left => "LEFT",
            JoinType::Right => "RIGHT",
            JoinType::Outer => "OUTER",
        }
    }
}

/// The mathematical value of one join.
pub ghost struct JoinTerm {
    pub join_type: JoinType,
    pub target: Seq<char>,
    pub clause: Seq<char>,
}

impl JoinTerm {
    /// `<kind> JOIN <target> ON <clause>`.
    pub open spec fn sql(self) -> Seq<char> {
        self.join_type.sql() + " JOIN "@ + self.target + " ON "@ + self.clause
    }
}

#[derive(Clone, Copy, PartialEq, Eq)]
pub struct Join<'a> {
    pub join_type: JoinType,
    pub target: &'a str,
    pub clause: &'a str,
}

impl<'a> View for Join<'a> {
    type V = JoinTerm;

    open spec fn view(&self) -> JoinTerm {
        JoinTerm { join_type: self.join_type, target: self.target@, clause: self.clause@ }
    }
}

impl<'a> Join<'a> {
    pub fn to_sql(&self) -> (s: String)
        ensures
            s@ == self@.sql(),
    {
        let mut rv = String::from_str(self.join_type.to_sql());
        rv.append(" JOIN ");
        rv.append(self.target);
        rv.append(" ON ");
        rv.append(self.clause);
        rv
    }
}

/// The values of a list of joins, in order.
pub open spec fn join_terms(list: Seq<Join>) -> Seq<JoinTerm> {
    Seq::new(list.len(), |i: int| list[i]@)
}

/// A copy of a list of joins.
pub fn copy_joins<'a>(list: &Vec<Join<'a>>) -> (res: Vec<Join<'a>>)
    ensures
        res@ == list@,
{
    let mut res: Vec<Join<'a>> = Vec::new();
    let mut i: usize = 0;
    while i < list.len()
        invariant
            i <= list.len(),
            res@ == list@.take(i as int),
        decreases list.len() - i,
    {
        res.push(list[i]);
        assert(list@.take(i + 1) =~= list@.take(i as int).push(list@[i as int]));
        i += 1;
    }
    assert(list@.take(list.len() as int) =~= list@);
    res
}

} // verus!
