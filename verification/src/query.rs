//! The `SELECT` statement as a plain record.

use vstd::prelude::*;
use crate::common::{Pusheable, ToSQL};
use crate::select::distinct::{Distinct, DistinctType};
use crate::select::for_cl::{For, ForType};
use crate::select::join::{copy_joins, join_terms, Join, JoinTerm, JoinType};
use crate::select::limit::LimitType;
use crate::select::offset::OffsetType;
use crate::select::order_by::{copy_order_by, order_terms, Direction, OrderBy, OrderTerm};
use crate::select::select_type::{SelectList, SelectType};
use crate::select::statement::{
    push_columns, push_conditions, push_joins, push_literal, push_lock, push_order_by,
    start_select, Statement,
};
use crate::text::{copy_strs, views};
use crate::where_cl::{conds, copy_conditions, Condition, WhereType};

verus! {

/// A `SELECT` statement as a plain record of its clauses, with chaining methods that take
/// the statement by value.
#[derive(PartialEq, Eq)]
pub struct Query<'a> {
    pub select: SelectType<'a>,
    pub distinct: DistinctType<'a>,
    pub from: &'a str,
    pub joins: Vec<Join<'a>>,
    pub group_by: Vec<&'a str>,
    pub order_by: Vec<OrderBy<'a>>,
    pub where_cl: Vec<Condition<'a>>,
    pub having: Vec<Condition<'a>>,
    pub limit: LimitType<'a>,
    pub offset: OffsetType<'a>,
    pub for_cl: ForType<'a>,
}

impl<'a> View for Query<'a> {
    type V = Statement;

    open spec fn view(&self) -> Statement {
        Statement {
            select: self.select@,
            distinct: self.distinct@,
            from: self.from@,
            joins: join_terms(self.joins@),
            where_cl: conds(self.where_cl@),
            group_by: views(self.group_by@),
            having: conds(self.having@),
            order_by: order_terms(self.order_by@),
            limit: self.limit@,
            offset: self.offset@,
            for_cl: self.for_cl@,
        }
    }
}

impl<'a> Query<'a> {
    /// Method to start with: everything is selected from `from_table` and no other clause
    /// is set.
    pub fn new(from_table: &'a str) -> (r: Self)
        ensures
            r@ == Statement::on(from_table@),
    {
        let r = Query {
            select: SelectType::All,
            distinct: DistinctType::Empty,
            from: from_table,
            joins: Vec::new(),
            group_by: Vec::new(),
            order_by: Vec::new(),
            where_cl: Vec::new(),
            having: Vec::new(),
            limit: LimitType::Empty,
            offset: OffsetType::Empty,
            for_cl: ForType::Empty,
        };
        assert(r@.joins =~= Seq::empty());
        assert(r@.where_cl =~= Seq::empty());
        assert(r@.group_by =~= Seq::empty());
        assert(r@.having =~= Seq::empty());
        assert(r@.order_by =~= Seq::empty());
        r
    }

    /// Specifies `SELECT` clause. Will result in `SELECT * ...` (which is a default behaviour).
    pub fn select_all(self) -> (r: Self)
        ensures
            r@ == (Statement { select: SelectList::All, ..self@ }),
    {
        let mut query = self;
        query.select = SelectType::All;
        query
    }

    /// Names the fields to select: `input_fields` is appended to the fields named so far.
    pub fn select<T: Pusheable<'a>>(self, input_fields: T) -> (r: Self)
        ensures
            r@ == (Statement {
                select: SelectList::Specific(self@.select.columns() + input_fields.items()),
                ..self@
            }),
    {
        let mut query = self;
        match &mut query.select {
            SelectType::All => {
                let mut columns: Vec<&'a str> = Vec::new();
                input_fields.push_to(&mut columns);
                assert(views(columns@) =~= input_fields.items());
                query.select = SelectType::Specific(columns);
            },
            SelectType::Specific(columns) => {
                input_fields.push_to(columns);
            },
        }
        assert(query@.select.columns() =~= self@.select.columns() + input_fields.items());
        query
    }

    /// Specifies `DISTINCT` clause. Will result in `SELECT DISTINCT ...`
    pub fn distinct(self) -> (r: Self)
        ensures
            r@ == (Statement { distinct: Distinct::Simple, ..self@ }),
    {
        let mut query = self;
        query.distinct = DistinctType::Simple;
        query
    }

    /// Will result in `SELECT DISTINCT ON (...) ...`: `input_fields` is appended to the
    /// fields of `DISTINCT ON` named so far.
    pub fn distinct_on<T: Pusheable<'a>>(self, input_fields: T) -> (r: Self)
        ensures
            r@ == (Statement {
                distinct: Distinct::Extended(self@.distinct.columns() + input_fields.items()),
                ..self@
            }),
    {
        let mut query = self;
        match &mut query.distinct {
            DistinctType::Extended(columns) => {
                input_fields.push_to(columns);
            },
            _ => {
                let mut columns: Vec<&'a str> = Vec::new();
                input_fields.push_to(&mut columns);
                assert(views(columns@) =~= input_fields.items());
                query.distinct = DistinctType::Extended(columns);
            },
        }
        assert(query@.distinct.columns() =~= self@.distinct.columns() + input_fields.items());
        query
    }

    /// Removes `DISTINCT` clause.
    pub fn clear_distinct(self) -> (r: Self)
        ensures
            r@ == (Statement { distinct: Distinct::Empty, ..self@ }),
    {
        let mut query = self;
        query.distinct = DistinctType::Empty;
        query
    }

    /// Appends a join of the given kind after the joins given so far.
    pub fn push_join(self, join_type: JoinType, target: &'a str, clause: &'a str) -> (r: Self)
        ensures
            r@ == (Statement {
                joins: self@.joins.push(
                    JoinTerm { join_type, target: target@, clause: clause@ },
                ),
                ..self@
            }),
    {
        let mut query = self;
        query.joins.push(Join { join_type: join_type, target: target, clause: clause });
        assert(query@.joins =~= self@.joins.push(
            JoinTerm { join_type, target: target@, clause: clause@ },
        ));
        query
    }

    /// Specifies `INNER JOIN`, after the joins given so far.
    pub fn join(self, target: &'a str, clause: &'a str) -> (r: Self)
        ensures
            r@ == (Statement {
                joins: self@.joins.push(
                    JoinTerm { join_type: JoinType::Inner, target: target@, clause: clause@ },
                ),
                ..self@
            }),
    {
        self.push_join(JoinType::Inner, target, clause)
    }

    pub fn left_join(self, target: &'a str, clause: &'a str) -> (r: Self)
        ensures
            r@ == (Statement {
                joins: self@.joins.push(
                    JoinTerm { join_type: JoinType::Left, target: target@, clause: clause@ },
                ),
                ..self@
            }),
    {
        self.push_join(JoinType::Left, target, clause)
    }

    pub fn right_join(self, target: &'a str, clause: &'a str) -> (r: Self)
        ensures
            r@ == (Statement {
                joins: self@.joins.push(
                    JoinTerm { join_type: JoinType::Right, target: target@, clause: clause@ },
                ),
                ..self@
            }),
    {
        self.push_join(JoinType::Right, target, clause)
    }

    pub fn outer_join(self, target: &'a str, clause: &'a str) -> (r: Self)
        ensures
            r@ == (Statement {
                joins: self@.joins.push(
                    JoinTerm { join_type: JoinType::Outer, target: target@, clause: clause@ },
                ),
                ..self@
            }),
    {
        self.push_join(JoinType::Outer, target, clause)
    }

    /// Specifies `GROUP BY` clause: `columns` is appended to the columns given so far.
    pub fn group_by<T: Pusheable<'a>>(self, columns: T) -> (r: Self)
        ensures
            r@ == (Statement { group_by: self@.group_by + columns.items(), ..self@ }),
    {
        let mut query = self;
        columns.push_to(&mut query.group_by);
        query
    }

    /// Specifies `ORDER BY` clause: one more term after those given so far.
    pub fn order_by(self, field: &'a str, ordering: Direction) -> (r: Self)
        ensures
            r@ == (Statement {
                order_by: self@.order_by.push(OrderTerm { ordering, order_by: field@ }),
                ..self@
            }),
    {
        let mut query = self;
        query.order_by.push(OrderBy { ordering: ordering, order_by: field });
        assert(query@.order_by =~= self@.order_by.push(OrderTerm { ordering, order_by: field@ }));
        query
    }

    /// Specifies `WHERE` clause: one more condition after those given so far. The
    /// conditions of the list are connected with `AND`; for `OR`, pass a `Where` group.
    pub fn where_cl<T: WhereType<'a>>(self, clause: T) -> (r: Self)
        ensures
            r@ == (Statement { where_cl: self@.where_cl.push(clause.cond()), ..self@ }),
    {
        let mut query = self;
        query.where_cl.push(clause.clone_to_trait());
        assert(query@.where_cl =~= self@.where_cl.push(clause.cond()));
        query
    }

    /// Specifies `HAVING` clause. Has the same API and usage as `where_cl`.
    pub fn having<T: WhereType<'a>>(self, clause: T) -> (r: Self)
        ensures
            r@ == (Statement { having: self@.having.push(clause.cond()), ..self@ }),
    {
        let mut query = self;
        query.having.push(clause.clone_to_trait());
        assert(query@.having =~= self@.having.push(clause.cond()));
        query
    }

    /// Specifies `LIMIT` clause, in place of an earlier one.
    pub fn limit(self, value: &'a str) -> (r: Self)
        ensures
            r@ == (Statement { limit: Some(value@), ..self@ }),
    {
        let mut query = self;
        query.limit = LimitType::Specified(value);
        query
    }

    /// Removes `LIMIT` clause.
    pub fn clear_limit(self) -> (r: Self)
        ensures
            r@ == (Statement { limit: None, ..self@ }),
    {
        let mut query = self;
        query.limit = LimitType::Empty;
        query
    }

    /// Specifies `OFFSET` clause, in place of an earlier one.
    pub fn offset(self, value: &'a str) -> (r: Self)
        ensures
            r@ == (Statement { offset: Some(value@), ..self@ }),
    {
        let mut query = self;
        query.offset = OffsetType::Specified(value);
        query
    }

    /// Removes `OFFSET` clause.
    pub fn clear_offset(self) -> (r: Self)
        ensures
            r@ == (Statement { offset: None, ..self@ }),
    {
        let mut query = self;
        query.offset = OffsetType::Empty;
        query
    }

    /// Specifies `FOR` clause, in place of an earlier one.
    pub fn for_cl(self, for_cl: For<'a>) -> (r: Self)
        ensures
            r@ == (Statement { for_cl: Some(for_cl@), ..self@ }),
    {
        let mut query = self;
        query.for_cl = ForType::Specified(for_cl);
        query
    }

    /// Removes `FOR` clause.
    pub fn clear_for(self) -> (r: Self)
        ensures
            r@ == (Statement { for_cl: None, ..self@ }),
    {
        let mut query = self;
        query.for_cl = ForType::Empty;
        query
    }
}

impl<'a> ToSQL for Query<'a> {
    open spec fn sql(&self) -> Seq<char> {
        self@.sql()
    }

    fn to_sql(&self) -> (s: String) {
        let mut rv = start_select(&self.distinct);
        rv.append(" ");
        rv.append(self.select.to_sql().as_str());
        rv.append(" FROM ");
        rv.append(self.from);
        assert(rv@ =~= self@.head() + self@.from_clause());
        push_joins(&mut rv, &self.joins);
        push_conditions(&mut rv, " WHERE ", &self.where_cl);
        push_columns(&mut rv, " GROUP BY ", &self.group_by);
        push_conditions(&mut rv, " HAVING ", &self.having);
        push_order_by(&mut rv, &self.order_by);
        push_literal(
            &mut rv,
            " LIMIT ",
            match self.limit {
                LimitType::Empty => None,
                LimitType::Specified(clause) => Some(clause),
            },
        );
        push_literal(
            &mut rv,
            " OFFSET ",
            match self.offset {
                OffsetType::Empty => None,
                OffsetType::Specified(clause) => Some(clause),
            },
        );
        push_lock(&mut rv, &self.for_cl);
        rv
    }
}

impl<'a> Clone for Query<'a> {
    fn clone(&self) -> (r: Self)
        ensures
            r@ == self@,
    {
        Query {
            select: self.select.clone(),
            distinct: self.distinct.clone(),
            from: self.from,
            joins: copy_joins(&self.joins),
            group_by: copy_strs(&self.group_by),
            order_by: copy_order_by(&self.order_by),
            where_cl: copy_conditions(&self.where_cl),
            having: copy_conditions(&self.having),
            limit: self.limit,
            offset: self.offset,
            for_cl: self.for_cl.clone(),
        }
    }
}

} // verus!
