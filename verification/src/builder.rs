//! The `SELECT` statement built in place.

use vstd::prelude::*;
use crate::query::Query;
use crate::select::distinct::{Distinct, DistinctType};
use crate::select::for_cl::ForType;
use crate::select::join::{copy_joins, join_terms, Join, JoinTerm, JoinType};
use crate::select::limit::LimitType;
use crate::select::offset::OffsetType;
use crate::select::order_by::{copy_order_by, order_terms, OrderBy};
use crate::select::select_type::{SelectList, SelectType};
use crate::select::statement::Statement;
use crate::text::{copy_strs, lemma_views_push, views};
use crate::where_cl::{conds, copy_conditions, Condition};

verus! {

/// A `SELECT` statement under construction. Its methods change it in place and hand the
/// exclusive reference back for the next call; `build` takes a `Query` of what it holds.
pub struct Builder<'a> {
    pub select: SelectType<'a>,
    pub distinct: DistinctType<'a>,
    pub from: &'a str,
    pub joins: Vec<Join<'a>>,
    pub group_by: Vec<&'a str>,
    pub order_by: Vec<OrderBy<'a>>,
    pub where_cl: Vec<Condition<'a>>,
    pub having: Vec<Condition<'a>>,
    pub limit: LimitType<'a>,
    pub offset: OffsetType<'a>,
    pub for_cl: ForType<'a>,
}

impl<'a> View for Builder<'a> {
    type V = Statement;

    open spec fn view(&self) -> Statement {
        Statement {
            select: self.select@,
            distinct: self.distinct@,
            from: self.from@,
            joins: join_terms(self.joins@),
            where_cl: conds(self.where_cl@),
            group_by: views(self.group_by@),
            having: conds(self.having@),
            order_by: order_terms(self.order_by@),
            limit: self.limit@,
            offset: self.offset@,
            for_cl: self.for_cl@,
        }
    }
}

/// Appends the slices of `fields` to `destination`, keeping what it held.
fn extend_strs<'a>(destination: &mut Vec<&'a str>, fields: &[&'a str])
    ensures
        views(final(destination)@) == views(old(destination)@) + views(fields@),
{
    let mut i: usize = 0;
    assert(views(destination@) =~= views(old(destination)@) + views(fields@).take(0));
    while i < fields.len()
        invariant
            i <= fields.len(),
            views(destination@) == views(old(destination)@) + views(fields@).take(i as int),
        decreases fields.len() - i,
    {
        let item: &'a str = fields[i];
        let ghost before = destination@;
        destination.push(item);
        proof {
            lemma_views_push(before, item);
            assert(views(fields@).take(i + 1) =~= views(fields@).take(i as int).push(item@));
            assert(views(destination@) =~= views(old(destination)@) + views(fields@).take(i + 1));
        }
        i += 1;
    }
    assert(views(fields@).take(fields.len() as int) =~= views(fields@));
}

impl<'a> Builder<'a> {
    /// Method to start with: everything is selected from `table` and no other clause is
    /// set.
    pub fn from(table: &'a str) -> (r: Self)
        ensures
            r@ == Statement::on(table@),
    {
        let r = Builder {
            select: SelectType::All,
            distinct: DistinctType::Empty,
            from: table,
            joins: Vec::new(),
            group_by: Vec::new(),
            order_by: Vec::new(),
            where_cl: Vec::new(),
            having: Vec::new(),
            limit: LimitType::Empty,
            offset: OffsetType::Empty,
            for_cl: ForType::Empty,
        };
        assert(r@.joins =~= Seq::empty());
        assert(r@.where_cl =~= Seq::empty());
        assert(r@.group_by =~= Seq::empty());
        assert(r@.having =~= Seq::empty());
        assert(r@.order_by =~= Seq::empty());
        r
    }

    /// The statement as it stands. The builder is left as it is and can be built again:
    /// two queries built with no change between them are the same statement.
    pub fn build(&self) -> (q: Query<'a>)
        ensures
            q@ == self@,
    {
        Query {
            select: self.select.clone(),
            distinct: self.distinct.clone(),
            from: self.from,
            joins: copy_joins(&self.joins),
            group_by: copy_strs(&self.group_by),
            order_by: copy_order_by(&self.order_by),
            where_cl: copy_conditions(&self.where_cl),
            having: copy_conditions(&self.having),
            limit: self.limit,
            offset: self.offset,
            for_cl: self.for_cl.clone(),
        }
    }

    /// Selects everything.
    pub fn select_all(&mut self) -> (r: &mut Self)
        ensures
            r@ == (Statement { select: SelectList::All, ..old(self)@ }),
            *final(self) == *final(r),
    {
        self.select = SelectType::All;
        self
    }

    /// Names the fields to select: `fields` is appended to the fields named so far.
    pub fn select(&mut self, fields: &'a [&'a str]) -> (r: &mut Self)
        ensures
            r@ == (Statement {
                select: SelectList::Specific(old(self)@.select.columns() + views(fields@)),
                ..old(self)@
            }),
            *final(self) == *final(r),
    {
        match &mut self.select {
            SelectType::All => {
                let mut columns: Vec<&'a str> = Vec::new();
                extend_strs(&mut columns, fields);
                assert(views(columns@) =~= views(fields@));
                self.select = SelectType::Specific(columns);
            },
            SelectType::Specific(columns) => {
                extend_strs(columns, fields);
            },
        }
        assert(self@.select.columns() =~= old(self)@.select.columns() + views(fields@));
        self
    }

    /// Removes the distinct clause.
    pub fn clear_distinct(&mut self) -> (r: &mut Self)
        ensures
            r@ == (Statement { distinct: Distinct::Empty, ..old(self)@ }),
            *final(self) == *final(r),
    {
        self.distinct = DistinctType::Empty;
        self
    }

    /// Will result in `SELECT DISTINCT ...`
    pub fn distinct(&mut self) -> (r: &mut Self)
        ensures
            r@ == (Statement { distinct: Distinct::Simple, ..old(self)@ }),
            *final(self) == *final(r),
    {
        self.distinct = DistinctType::Simple;
        self
    }

    /// Will result in `SELECT DISTINCT ON (...) ...`: `fields` is appended to the fields of
    /// `DISTINCT ON` named so far.
    pub fn distinct_on(&mut self, fields: &'a [&'a str]) -> (r: &mut Self)
        ensures
            r@ == (Statement {
                distinct: Distinct::Extended(old(self)@.distinct.columns() + views(fields@)),
                ..old(self)@
            }),
            *final(self) == *final(r),
    {
        match &mut self.distinct {
            DistinctType::Extended(columns) => {
                extend_strs(columns, fields);
            },
            _ => {
                let mut columns: Vec<&'a str> = Vec::new();
                extend_strs(&mut columns, fields);
                assert(views(columns@) =~= views(fields@));
                self.distinct = DistinctType::Extended(columns);
            },
        }
        assert(self@.distinct.columns() =~= old(self)@.distinct.columns() + views(fields@));
        self
    }

    /// Specifies `INNER JOIN`, after the joins given so far.
    pub fn join(&mut self, target: &'a str, clause: &'a str) -> (r: &mut Self)
        ensures
            r@ == (Statement {
                joins: old(self)@.joins.push(
                    JoinTerm { join_type: JoinType::Inner, target: target@, clause: clause@ },
                ),
                ..old(self)@
            }),
            *final(self) == *final(r),
    {
        self.joins.push(Join { join_type: JoinType::Inner, target: target, clause: clause });
        assert(self@.joins =~= old(self)@.joins.push(
            JoinTerm { join_type: JoinType::Inner, target: target@, clause: clause@ },
        ));
        self
    }
}

} // verus!
