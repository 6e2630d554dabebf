//! Keeps `UPDATE` related stuff.

use vstd::prelude::*;
use crate::common::{AsStr, Pusheable};
use crate::select::statement::{conditions_clause, push_conditions};
use crate::text::{copy_strs, join_strs, joined, views};
use crate::where_cl::{conds, copy_conditions, Cond, Condition, WhereType};

verus! {

#[derive(Clone, Copy, PartialEq, Eq)]
pub enum FromType<'a> {
    Empty,
    Specified(&'a str),
}

impl<'a> View for FromType<'a> {
    type V = Option<Seq<char>>;

    open spec fn view(&self) -> Option<Seq<char>> {
        match self {
            FromType::Empty => None,
            FromType::Specified(table) => Some(table@),
        }
    }
}

/// The mathematical value of a `RETURNING` clause: absent, everything, or the named
/// expressions in order.
pub ghost enum ReturningList {
    Empty,
    All,
    Specified(Seq<Seq<char>>),
}

impl ReturningList {
    /// The expressions named so far; none in the other two states.
    pub open spec fn expressions(self) -> Seq<Seq<char>> {
        match self {
            ReturningList::Specified(expressions) => expressions,
            _ => Seq::empty(),
        }
    }

    /// What the clause adds at the end of a statement: nothing, ` RETURNING *`, or
    /// ` RETURNING ` and the expressions separated by a comma and a blank.
    pub open spec fn clause(self) -> Seq<char> {
        match self {
            ReturningList::Empty => Seq::empty(),
            ReturningList::All => " RETURNING "@ + "*"@,
            ReturningList::Specified(expressions) => " RETURNING "@ + joined(expressions, ", "@),
        }
    }
}

#[derive(PartialEq, Eq)]
pub enum Returning<'a> {
    Empty,
    All,
    Specified(Vec<&'a str>),
}

impl<'a> View for Returning<'a> {
    type V = ReturningList;

    open spec fn view(&self) -> ReturningList {
        match self {
            Returning::Empty => ReturningList::Empty,
            Returning::All => ReturningList::All,
            Returning::Specified(expressions) => ReturningList::Specified(views(expressions@)),
        }
    }
}

impl<'a> Returning<'a> {
    /// Appends `input` to the expressions named so far.
    pub fn extend<T: Pusheable<'a>>(self, input: T) -> (r: Self)
        ensures
            r@ == ReturningList::Specified(self@.expressions() + input.items()),
    {
        match self {
            Returning::Specified(expressions) => {
                let mut expressions = expressions;
                input.push_to(&mut expressions);
                Returning::Specified(expressions)
            },
            _ => {
                let mut expressions: Vec<&'a str> = Vec::new();
                input.push_to(&mut expressions);
                assert(views(expressions@) =~= self@.expressions() + input.items());
                Returning::Specified(expressions)
            },
        }
    }

    /// Writes the clause at the end of `rv`.
    pub fn push_to_sql(&self, rv: &mut String)
        ensures
            final(rv)@ == old(rv)@ + self@.clause(),
    {
        match self {
            Returning::Empty => {
                assert(rv@ =~= old(rv)@ + self@.clause());
            },
            Returning::All => {
                rv.append(" RETURNING ");
                rv.append("*");
                assert(rv@ =~= old(rv)@ + self@.clause());
            },
            Returning::Specified(values) => {
                rv.append(" RETURNING ");
                rv.append(join_strs(values, ", ").as_str());
                assert(rv@ =~= old(rv)@ + self@.clause());
            },
        }
    }
}

impl<'a> Clone for Returning<'a> {
    fn clone(&self) -> (r: Self)
        ensures
            r@ == self@,
    {
        match self {
            Returning::Empty => Returning::Empty,
            Returning::All => Returning::All,
            Returning::Specified(expressions) => Returning::Specified(copy_strs(expressions)),
        }
    }
}

/// The mathematical value of an `UPDATE` statement.
pub ghost struct UpdateStatement {
    pub table: Seq<char>,
    pub expressions: Seq<Seq<char>>,
    pub from: Option<Seq<char>>,
    pub where_cl: Seq<Cond>,
    pub returning: ReturningList,
}

impl UpdateStatement {
    /// ` FROM ` and the table; nothing where none was given.
    pub open spec fn from_clause(self) -> Seq<char> {
        match self.from {
            None => Seq::empty(),
            Some(table) => " FROM "@ + table,
        }
    }

    /// The text of the statement: `UPDATE <table> SET <expressions>`, then `FROM`,
    /// `WHERE` and `RETURNING` as far as they are set.
    pub open spec fn sql(self) -> Seq<char> {
        "UPDATE "@ + self.table + " SET "@ + joined(self.expressions, ", "@) + self.from_clause()
            + conditions_clause(" WHERE "@, self.where_cl) + self.returning.clause()
    }
}

/// Represents `UPDATE` query
#[derive(PartialEq, Eq)]
pub struct Update<'a> {
    pub table: &'a str,
    pub expressions: Vec<&'a str>,
    pub from: FromType<'a>,
    pub where_cl: Vec<Condition<'a>>,
    pub returning: Returning<'a>,
}

impl<'a> View for Update<'a> {
    type V = UpdateStatement;

    open spec fn view(&self) -> UpdateStatement {
        UpdateStatement {
            table: self.table@,
            expressions: views(self.expressions@),
            from: self.from@,
            where_cl: conds(self.where_cl@),
            returning: self.returning@,
        }
    }
}

impl<'a> Update<'a> {
    /// Method to start with: an update of `table` with nothing set yet.
    pub fn new(table: &'a str) -> (r: Self)
        ensures
            r@ == (UpdateStatement {
                table: table@,
                expressions: Seq::empty(),
                from: None,
                where_cl: Seq::empty(),
                returning: ReturningList::Empty,
            }),
    {
        let r = Update {
            table: table,
            expressions: Vec::new(),
            from: FromType::Empty,
            where_cl: Vec::new(),
            returning: Returning::Empty,
        };
        assert(r@.expressions =~= Seq::empty());
        assert(r@.where_cl =~= Seq::empty());
        r
    }

    /// Specifies update expressions: `expressions` is appended to those given so far.
    pub fn set<T: Pusheable<'a>>(self, expressions: T) -> (r: Self)
        ensures
            r@ == (UpdateStatement {
                expressions: self@.expressions + expressions.items(),
                ..self@
            }),
    {
        let mut update = self;
        expressions.push_to(&mut update.expressions);
        update
    }

    /// Specifies `FROM` clause, in place of an earlier one. Can take either `&str` or
    /// `&Subquery`.
    pub fn from<T: AsStr<'a>>(self, table: T) -> (r: Self)
        ensures
            r@ == (UpdateStatement { from: Some(table.text()), ..self@ }),
    {
        let mut update = self;
        update.from = FromType::Specified(table.as_str());
        update
    }

    /// Removes `FROM` clause.
    pub fn remove_from(self) -> (r: Self)
        ensures
            r@ == (UpdateStatement { from: None, ..self@ }),
    {
        let mut update = self;
        update.from = FromType::Empty;
        update
    }

    /// Specifies `WHERE` clause: one more condition after those given so far. Can take
    /// either `&str` or `Where`.
    pub fn filter<T: WhereType<'a>>(self, expr: T) -> (r: Self)
        ensures
            r@ == (UpdateStatement { where_cl: self@.where_cl.push(expr.cond()), ..self@ }),
    {
        let mut update = self;
        update.where_cl.push(expr.clone_to_trait());
        assert(update@.where_cl =~= self@.where_cl.push(expr.cond()));
        update
    }

    /// Specifies `RETURNING` clause. Will result in `UPDATE ... RETURNING *`
    pub fn returning_all(self) -> (r: Self)
        ensures
            r@ == (UpdateStatement { returning: ReturningList::All, ..self@ }),
    {
        let mut update = self;
        update.returning = Returning::All;
        update
    }

    /// Specifies `RETURNING` clause: `input_expressions` is appended to the expressions
    /// named so far.
    pub fn returning<T: Pusheable<'a>>(self, input_expressions: T) -> (r: Self)
        ensures
            r@ == (UpdateStatement {
                returning: ReturningList::Specified(
                    self@.returning.expressions() + input_expressions.items(),
                ),
                ..self@
            }),
    {
        let Update { table, expressions, from, where_cl, returning } = self;
        Update {
            table,
            expressions,
            from,
            where_cl,
            returning: returning.extend(input_expressions),
        }
    }

    /// Removes `RETURNING` clause
    pub fn empty_returning(self) -> (r: Self)
        ensures
            r@ == (UpdateStatement { returning: ReturningList::Empty, ..self@ }),
    {
        let mut update = self;
        update.returning = Returning::Empty;
        update
    }

    /// Generates SQL.
    pub fn to_sql(&self) -> (s: String)
        ensures
            s@ == self@.sql(),
    {
        let mut rv = String::from_str("UPDATE ");
        rv.append(self.table);
        rv.append(" SET ");
        rv.append(join_strs(&self.expressions, ", ").as_str());

        let ghost before = rv@;
        match self.from {
            FromType::Specified(table) => {
                rv.append(" FROM ");
                rv.append(table);
            },
            FromType::Empty => {},
        }
        assert(rv@ =~= before + self@.from_clause());

        push_conditions(&mut rv, " WHERE ", &self.where_cl);
        self.returning.push_to_sql(&mut rv);
        rv
    }
}

impl<'a> Clone for Update<'a> {
    fn clone(&self) -> (r: Self)
        ensures
            r@ == self@,
    {
        Update {
            table: self.table,
            expressions: copy_strs(&self.expressions),
            from: self.from,
            where_cl: copy_conditions(&self.where_cl),
            returning: self.returning.clone(),
        }
    }
}

} // verus!
