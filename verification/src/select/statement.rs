//! The mathematical value of a `SELECT` statement, the text it renders to, and the
//! routines that write one clause each.

use vstd::prelude::*;
use crate::select::distinct::{Distinct, DistinctType};
use crate::select::for_cl::{ForLock, ForType};
use crate::select::join::{join_terms, Join, JoinTerm};
use crate::select::order_by::{order_terms, OrderBy, OrderTerm};
use crate::select::select_type::SelectList;
use crate::text::{
    join_strings, join_strs, joined, lemma_prefixed_concat_split, lemma_stands_extend,
    lemma_stands_first, lemma_stands_last, lemma_stands_start, lemma_stands_within, owned_views,
    prefixed_concat, stands_at, views,
};
use crate::where_cl::{conditions_to_sql, conds, sqls, Cond, Condition};

verus! {

/// A `SELECT` statement as a value: one entry per clause, each with a state of its own
/// that says that the clause is absent.
pub ghost struct Statement {
    pub select: SelectList,
    pub distinct: Distinct,
    pub from: Seq<char>,
    pub joins: Seq<JoinTerm>,
    pub where_cl: Seq<Cond>,
    pub group_by: Seq<Seq<char>>,
    pub having: Seq<Cond>,
    pub order_by: Seq<OrderTerm>,
    pub limit: Option<Seq<char>>,
    pub offset: Option<Seq<char>>,
    pub for_cl: Option<ForLock>,
}

/// The texts of a list of joins, in order.
pub open spec fn join_sqls(joins: Seq<JoinTerm>) -> Seq<Seq<char>> {
    Seq::new(joins.len(), |i: int| joins[i].sql())
}

/// The texts of a list of `ORDER BY` terms, in order.
pub open spec fn order_sqls(terms: Seq<OrderTerm>) -> Seq<Seq<char>> {
    Seq::new(terms.len(), |i: int| terms[i].sql())
}

/// Each join in order, with one blank before it.
pub open spec fn joins_clause(joins: Seq<JoinTerm>) -> Seq<char> {
    prefixed_concat(join_sqls(joins), " "@)
}

/// `keyword` and the conditions joined by ` AND `; nothing for an empty list.
pub open spec fn conditions_clause(keyword: Seq<char>, conditions: Seq<Cond>) -> Seq<char> {
    if conditions.len() == 0 {
        Seq::empty()
    } else {
        keyword + joined(sqls(conditions), " AND "@)
    }
}

/// `keyword` and the columns separated by a comma and a blank; nothing for an empty list.
pub open spec fn columns_clause(keyword: Seq<char>, columns: Seq<Seq<char>>) -> Seq<char> {
    if columns.len() == 0 {
        Seq::empty()
    } else {
        keyword + joined(columns, ", "@)
    }
}

/// ` ORDER BY ` and the terms separated by a comma and a blank; nothing for an empty list.
pub open spec fn order_clause(terms: Seq<OrderTerm>) -> Seq<char> {
    if terms.len() == 0 {
        Seq::empty()
    } else {
        " ORDER BY "@ + joined(order_sqls(terms), ", "@)
    }
}

/// `keyword` and the literal; nothing where none was given.
pub open spec fn literal_clause(keyword: Seq<char>, value: Option<Seq<char>>) -> Seq<char> {
    match value {
        None => Seq::empty(),
        Some(literal) => keyword + literal,
    }
}

/// A blank and the locking clause; nothing where none was given.
pub open spec fn lock_clause(lock: Option<ForLock>) -> Seq<char> {
    match lock {
        None => Seq::empty(),
        Some(lock) => " "@ + lock.sql(),
    }
}

impl Statement {
    /// The statement on `from` with every clause absent and everything selected.
    pub open spec fn on(from: Seq<char>) -> Statement {
        Statement {
            select: SelectList::All,
            distinct: Distinct::Empty,
            from,
            joins: Seq::empty(),
            where_cl: Seq::empty(),
            group_by: Seq::empty(),
            having: Seq::empty(),
            order_by: Seq::empty(),
            limit: None,
            offset: None,
            for_cl: None,
        }
    }

    /// `SELECT`, the distinct clause and the select list.
    pub open spec fn head(self) -> Seq<char> {
        "SELECT"@ + self.distinct.clause() + " "@ + self.select.sql()
    }

    /// ` FROM ` and the table or subquery.
    pub open spec fn from_clause(self) -> Seq<char> {
        " FROM "@ + self.from
    }

    /// The text of the statement: its clauses in the order of SQL's grammar, whatever the
    /// order in which they were set. An absent clause adds nothing, not even a blank.
    pub open spec fn sql(self) -> Seq<char> {
        self.head() + self.from_clause() + joins_clause(self.joins) + conditions_clause(
            " WHERE "@,
            self.where_cl,
        ) + columns_clause(" GROUP BY "@, self.group_by) + conditions_clause(
            " HAVING "@,
            self.having,
        ) + order_clause(self.order_by) + literal_clause(" LIMIT "@, self.limit) + literal_clause(
            " OFFSET "@,
            self.offset,
        ) + lock_clause(self.for_cl)
    }
}

impl Statement {
    /// Where the `FROM` clause begins in the text.
    pub open spec fn from_at(self) -> int {
        self.head().len() as int
    }

    /// Where the joins begin in the text.
    pub open spec fn joins_at(self) -> int {
        self.from_at() + self.from_clause().len()
    }

    /// Where the join of index `index` begins in the text, at the blank before it.
    pub open spec fn join_at(self, index: int) -> int {
        self.joins_at() + prefixed_concat(join_sqls(self.joins).take(index), " "@).len()
    }

    /// Where the `WHERE` clause begins in the text.
    pub open spec fn where_at(self) -> int {
        self.joins_at() + joins_clause(self.joins).len()
    }

    /// Where the `GROUP BY` clause begins in the text.
    pub open spec fn group_by_at(self) -> int {
        self.where_at() + conditions_clause(" WHERE "@, self.where_cl).len()
    }

    /// Where the `HAVING` clause begins in the text.
    pub open spec fn having_at(self) -> int {
        self.group_by_at() + columns_clause(" GROUP BY "@, self.group_by).len()
    }

    /// Where the `ORDER BY` clause begins in the text.
    pub open spec fn order_by_at(self) -> int {
        self.having_at() + conditions_clause(" HAVING "@, self.having).len()
    }

    /// Where the `LIMIT` clause begins in the text.
    pub open spec fn limit_at(self) -> int {
        self.order_by_at() + order_clause(self.order_by).len()
    }

    /// Where the `OFFSET` clause begins in the text.
    pub open spec fn offset_at(self) -> int {
        self.limit_at() + literal_clause(" LIMIT "@, self.limit).len()
    }

    /// Where the locking clause begins in the text.
    pub open spec fn for_at(self) -> int {
        self.offset_at() + literal_clause(" OFFSET "@, self.offset).len()
    }

    /// Whether the join of index `index` begins, with a blank, its kind and `JOIN`, where
    /// the joins before it end, and ends before the `WHERE` clause begins.
    pub open spec fn join_in_place(self, index: int) -> bool {
        &&& stands_at(
            self.sql(),
            self.join_at(index),
            " "@ + self.joins[index].join_type.sql() + " JOIN "@,
        )
        &&& self.joins_at() <= self.join_at(index) < self.join_at(index + 1) <= self.where_at()
    }

    /// Whether every clause that can be absent is set.
    pub open spec fn fully_set(self) -> bool {
        &&& self.joins.len() > 0
        &&& self.where_cl.len() > 0
        &&& self.group_by.len() > 0
        &&& self.having.len() > 0
        &&& self.order_by.len() > 0
        &&& self.limit is Some
        &&& self.offset is Some
        &&& self.for_cl is Some
    }
}

/// Ten texts in a row: each stands where the texts before it end.
proof fn lemma_ten_in_a_row(
    c0: Seq<char>,
    c1: Seq<char>,
    c2: Seq<char>,
    c3: Seq<char>,
    c4: Seq<char>,
    c5: Seq<char>,
    c6: Seq<char>,
    c7: Seq<char>,
    c8: Seq<char>,
    c9: Seq<char>,
)
    ensures
        ({
            let text = c0 + c1 + c2 + c3 + c4 + c5 + c6 + c7 + c8 + c9;
            let p1 = c0.len() as int;
            let p2 = p1 + c1.len();
            let p3 = p2 + c2.len();
            let p4 = p3 + c3.len();
            let p5 = p4 + c4.len();
            let p6 = p5 + c5.len();
            let p7 = p6 + c6.len();
            let p8 = p7 + c7.len();
            let p9 = p8 + c8.len();
            &&& stands_at(text, 0, c0)
            &&& stands_at(text, p1, c1)
            &&& stands_at(text, p2, c2)
            &&& stands_at(text, p3, c3)
            &&& stands_at(text, p4, c4)
            &&& stands_at(text, p5, c5)
            &&& stands_at(text, p6, c6)
            &&& stands_at(text, p7, c7)
            &&& stands_at(text, p8, c8)
            &&& stands_at(text, p9, c9)
            &&& text.len() == p9 + c9.len()
        }),
{
    let t0 = c0;
    let t1 = t0 + c1;
    let t2 = t1 + c2;
    let t3 = t2 + c3;
    let t4 = t3 + c4;
    let t5 = t4 + c5;
    let t6 = t5 + c6;
    let t7 = t6 + c7;
    let t8 = t7 + c8;
    let t9 = t8 + c9;
    lemma_stands_first(c0, c1);
    lemma_stands_last(t0, c1);
    lemma_stands_last(t1, c2);
    lemma_stands_last(t2, c3);
    lemma_stands_last(t3, c4);
    lemma_stands_last(t4, c5);
    lemma_stands_last(t5, c6);
    lemma_stands_last(t6, c7);
    lemma_stands_last(t7, c8);
    lemma_stands_last(t8, c9);
    lemma_stands_extend(t1, 0, c0, c2);
    lemma_stands_extend(t1, t0.len() as int, c1, c2);
    lemma_stands_extend(t2, 0, c0, c3);
    lemma_stands_extend(t2, t0.len() as int, c1, c3);
    lemma_stands_extend(t2, t1.len() as int, c2, c3);
    lemma_stands_extend(t3, 0, c0, c4);
    lemma_stands_extend(t3, t0.len() as int, c1, c4);
    lemma_stands_extend(t3, t1.len() as int, c2, c4);
    lemma_stands_extend(t3, t2.len() as int, c3, c4);
    lemma_stands_extend(t4, 0, c0, c5);
    lemma_stands_extend(t4, t0.len() as int, c1, c5);
    lemma_stands_extend(t4, t1.len() as int, c2, c5);
    lemma_stands_extend(t4, t2.len() as int, c3, c5);
    lemma_stands_extend(t4, t3.len() as int, c4, c5);
    lemma_stands_extend(t5, 0, c0, c6);
    lemma_stands_extend(t5, t0.len() as int, c1, c6);
    lemma_stands_extend(t5, t1.len() as int, c2, c6);
    lemma_stands_extend(t5, t2.len() as int, c3, c6);
    lemma_stands_extend(t5, t3.len() as int, c4, c6);
    lemma_stands_extend(t5, t4.len() as int, c5, c6);
    lemma_stands_extend(t6, 0, c0, c7);
    lemma_stands_extend(t6, t0.len() as int, c1, c7);
    lemma_stands_extend(t6, t1.len() as int, c2, c7);
    lemma_stands_extend(t6, t2.len() as int, c3, c7);
    lemma_stands_extend(t6, t3.len() as int, c4, c7);
    lemma_stands_extend(t6, t4.len() as int, c5, c7);
    lemma_stands_extend(t6, t5.len() as int, c6, c7);
    lemma_stands_extend(t7, 0, c0, c8);
    lemma_stands_extend(t7, t0.len() as int, c1, c8);
    lemma_stands_extend(t7, t1.len() as int, c2, c8);
    lemma_stands_extend(t7, t2.len() as int, c3, c8);
    lemma_stands_extend(t7, t3.len() as int, c4, c8);
    lemma_stands_extend(t7, t4.len() as int, c5, c8);
    lemma_stands_extend(t7, t5.len() as int, c6, c8);
    lemma_stands_extend(t7, t6.len() as int, c7, c8);
    lemma_stands_extend(t8, 0, c0, c9);
    lemma_stands_extend(t8, t0.len() as int, c1, c9);
    lemma_stands_extend(t8, t1.len() as int, c2, c9);
    lemma_stands_extend(t8, t2.len() as int, c3, c9);
    lemma_stands_extend(t8, t3.len() as int, c4, c9);
    lemma_stands_extend(t8, t4.len() as int, c5, c9);
    lemma_stands_extend(t8, t5.len() as int, c6, c9);
    lemma_stands_extend(t8, t6.len() as int, c7, c9);
    lemma_stands_extend(t8, t7.len() as int, c8, c9);
}

/// Every clause's text stands in the text of the statement where the clauses before it
/// end, absent clauses as the empty text, and the text ends where the last clause ends.
pub proof fn lemma_clauses_in_a_row(s: Statement)
    ensures
        stands_at(s.sql(), 0, s.head()),
        stands_at(s.sql(), s.from_at(), s.from_clause()),
        stands_at(s.sql(), s.joins_at(), joins_clause(s.joins)),
        stands_at(s.sql(), s.where_at(), conditions_clause(" WHERE "@, s.where_cl)),
        stands_at(s.sql(), s.group_by_at(), columns_clause(" GROUP BY "@, s.group_by)),
        stands_at(s.sql(), s.having_at(), conditions_clause(" HAVING "@, s.having)),
        stands_at(s.sql(), s.order_by_at(), order_clause(s.order_by)),
        stands_at(s.sql(), s.limit_at(), literal_clause(" LIMIT "@, s.limit)),
        stands_at(s.sql(), s.offset_at(), literal_clause(" OFFSET "@, s.offset)),
        stands_at(s.sql(), s.for_at(), lock_clause(s.for_cl)),
        s.sql().len() == s.for_at() + lock_clause(s.for_cl).len(),
{
    lemma_ten_in_a_row(
        s.head(),
        s.from_clause(),
        joins_clause(s.joins),
        conditions_clause(" WHERE "@, s.where_cl),
        columns_clause(" GROUP BY "@, s.group_by),
        conditions_clause(" HAVING "@, s.having),
        order_clause(s.order_by),
        literal_clause(" LIMIT "@, s.limit),
        literal_clause(" OFFSET "@, s.offset),
        lock_clause(s.for_cl),
    );
}

/// Each join's text, with the blank before it, stands in the text of the statement where
/// the joins before it end, and a later join begins after an earlier one.
pub proof fn lemma_join_order(s: Statement, index: int)
    requires
        0 <= index < s.joins.len(),
    ensures
        s.join_in_place(index),
        stands_at(s.sql(), s.join_at(index), " "@ + s.joins[index].sql()),
{
    reveal_strlit(" ");
    let texts = join_sqls(s.joins);
    let join = s.joins[index];
    let done = prefixed_concat(texts.take(index), " "@);
    let upto = prefixed_concat(texts.take(index + 1), " "@);
    let later = prefixed_concat(texts.skip(index + 1), " "@);
    let piece = " "@ + join.sql();
    lemma_prefixed_concat_split(texts, " "@, index + 1);
    assert(texts.take(index + 1).drop_last() =~= texts.take(index));
    assert(texts.take(index + 1).last() == join.sql());
    assert(upto =~= done + piece);
    lemma_stands_last(done, piece);
    lemma_stands_extend(upto, done.len() as int, piece, later);
    lemma_clauses_in_a_row(s);
    lemma_stands_within(s.sql(), s.joins_at(), joins_clause(s.joins), done.len() as int, piece);
    let start = " "@ + join.join_type.sql() + " JOIN "@;
    let rest = join.target + " ON "@ + join.clause;
    assert(piece =~= start + rest);
    lemma_stands_start(s.sql(), s.join_at(index), start, rest);
}

/// In the text of a statement with every clause set, the clause keywords stand in the
/// order `SELECT`, `FROM`, the joins, `WHERE`, `GROUP BY`, `HAVING`, `ORDER BY`, `LIMIT`,
/// `OFFSET`, `FOR`: each stands where the text of the clauses before it ends, and these
/// places ascend. This holds of the statement as a value, so the order in which its
/// clauses were set has no part in it.
pub proof fn lemma_clause_order(s: Statement)
    requires
        s.fully_set(),
    ensures
        stands_at(s.sql(), 0, "SELECT"@),
        stands_at(s.sql(), s.from_at(), " FROM "@),
        forall|index: int| 0 <= index < s.joins.len() ==> #[trigger] s.join_in_place(index),
        stands_at(s.sql(), s.where_at(), " WHERE "@),
        stands_at(s.sql(), s.group_by_at(), " GROUP BY "@),
        stands_at(s.sql(), s.having_at(), " HAVING "@),
        stands_at(s.sql(), s.order_by_at(), " ORDER BY "@),
        stands_at(s.sql(), s.limit_at(), " LIMIT "@),
        stands_at(s.sql(), s.offset_at(), " OFFSET "@),
        stands_at(s.sql(), s.for_at(), " "@ + "FOR "@),
        0 < s.from_at() < s.joins_at() < s.where_at() < s.group_by_at() < s.having_at()
            < s.order_by_at() < s.limit_at() < s.offset_at() < s.for_at() < s.sql().len(),
{
    reveal_strlit(" ");
    reveal_strlit("SELECT");
    reveal_strlit(" FROM ");
    reveal_strlit(" WHERE ");
    reveal_strlit(" GROUP BY ");
    reveal_strlit(" HAVING ");
    reveal_strlit(" ORDER BY ");
    reveal_strlit(" LIMIT ");
    reveal_strlit(" OFFSET ");
    reveal_strlit("FOR ");
    let text = s.sql();
    lemma_clauses_in_a_row(s);
    lemma_join_order(s, 0);
    assert forall|index: int| 0 <= index < s.joins.len() implies #[trigger] s.join_in_place(
        index,
    ) by {
        lemma_join_order(s, index);
    }

    let head_rest = s.distinct.clause() + " "@ + s.select.sql();
    assert(s.head() =~= "SELECT"@ + head_rest);
    lemma_stands_start(text, 0, "SELECT"@, head_rest);
    lemma_stands_start(text, s.from_at(), " FROM "@, s.from);
    lemma_stands_start(text, s.where_at(), " WHERE "@, joined(sqls(s.where_cl), " AND "@));
    lemma_stands_start(text, s.group_by_at(), " GROUP BY "@, joined(s.group_by, ", "@));
    lemma_stands_start(text, s.having_at(), " HAVING "@, joined(sqls(s.having), " AND "@));
    lemma_stands_start(
        text,
        s.order_by_at(),
        " ORDER BY "@,
        joined(order_sqls(s.order_by), ", "@),
    );
    lemma_stands_start(text, s.limit_at(), " LIMIT "@, s.limit->0);
    lemma_stands_start(text, s.offset_at(), " OFFSET "@, s.offset->0);
    let lock = s.for_cl->0;
    let lock_rest = lock.mode.sql() + lock.of_tables() + lock.no_wait();
    assert(lock_clause(s.for_cl) =~= (" "@ + "FOR "@) + lock_rest);
    lemma_stands_start(text, s.for_at(), " "@ + "FOR "@, lock_rest);
}

/// Writes `SELECT` and the distinct clause.
pub fn start_select(distinct: &DistinctType) -> (rv: String)
    ensures
        rv@ == "SELECT"@ + distinct@.clause(),
{
    let mut rv = String::from_str("SELECT");
    match distinct {
        DistinctType::Empty => {
            assert(rv@ =~= "SELECT"@ + distinct@.clause());
        },
        DistinctType::Simple => {
            rv.append(" DISTINCT");
        },
        DistinctType::Extended(clauses) => {
            rv.append(" DISTINCT ON (");
            rv.append(join_strs(clauses, ", ").as_str());
            rv.append(")");
            assert(rv@ =~= "SELECT"@ + distinct@.clause());
        },
    }
    rv
}

/// Writes each join with a blank before it.
pub fn push_joins(rv: &mut String, joins: &Vec<Join>)
    ensures
        final(rv)@ == old(rv)@ + joins_clause(join_terms(joins@)),
{
    let ghost texts = join_sqls(join_terms(joins@));
    let mut i: usize = 0;
    assert(rv@ =~= old(rv)@ + prefixed_concat(texts.take(0), " "@));
    while i < joins.len()
        invariant
            i <= joins.len(),
            texts == join_sqls(join_terms(joins@)),
            rv@ == old(rv)@ + prefixed_concat(texts.take(i as int), " "@),
        decreases joins.len() - i,
    {
        let ghost before = rv@;
        rv.append(" ");
        rv.append(joins[i].to_sql().as_str());
        proof {
            assert(texts.take(i + 1).drop_last() =~= texts.take(i as int));
            assert(texts.take(i + 1).last() == joins@[i as int]@.sql());
            assert(rv@ =~= old(rv)@ + prefixed_concat(texts.take(i + 1), " "@));
        }
        i += 1;
    }
    assert(texts.take(joins.len() as int) =~= texts);
}

/// Writes `keyword` and the conditions joined by ` AND `, if there are any.
pub fn push_conditions(rv: &mut String, keyword: &str, conditions: &Vec<Condition>)
    ensures
        final(rv)@ == old(rv)@ + conditions_clause(keyword@, conds(conditions@)),
{
    if !conditions.is_empty() {
        rv.append(keyword);
        rv.append(conditions_to_sql(conditions, " AND ").as_str());
    }
    assert(rv@ =~= old(rv)@ + conditions_clause(keyword@, conds(conditions@)));
}

/// Writes `keyword` and the columns separated by a comma and a blank, if there are any.
pub fn push_columns(rv: &mut String, keyword: &str, columns: &Vec<&str>)
    ensures
        final(rv)@ == old(rv)@ + columns_clause(keyword@, views(columns@)),
{
    if !columns.is_empty() {
        rv.append(keyword);
        rv.append(join_strs(columns, ", ").as_str());
    }
    assert(rv@ =~= old(rv)@ + columns_clause(keyword@, views(columns@)));
}

/// Writes ` ORDER BY ` and the terms separated by a comma and a blank, if there are any.
pub fn push_order_by(rv: &mut String, terms: &Vec<OrderBy>)
    ensures
        final(rv)@ == old(rv)@ + order_clause(order_terms(terms@)),
{
    if !terms.is_empty() {
        let mut texts: Vec<String> = Vec::new();
        let mut i: usize = 0;
        while i < terms.len()
            invariant
                i <= terms.len(),
                texts.len() == i,
                forall|j: int| 0 <= j < i ==> (#[trigger] texts@[j])@ == terms@[j]@.sql(),
            decreases terms.len() - i,
        {
            texts.push(terms[i].to_sql());
            i += 1;
        }
        assert(owned_views(texts@) =~= order_sqls(order_terms(terms@)));
        rv.append(" ORDER BY ");
        rv.append(join_strings(&texts, ", ").as_str());
    }
    assert(rv@ =~= old(rv)@ + order_clause(order_terms(terms@)));
}

/// Writes `keyword` and the literal, if one was given.
pub fn push_literal(rv: &mut String, keyword: &str, value: Option<&str>)
    ensures
        final(rv)@ == old(rv)@ + literal_clause(
            keyword@,
            match value {
                Some(literal) => Some(literal@),
                None => None,
            },
        ),
{
    match value {
        Some(literal) => {
            rv.append(keyword);
            rv.append(literal);
            assert(rv@ =~= old(rv)@ + (keyword@ + literal@));
        },
        None => {
            assert(rv@ =~= old(rv)@ + Seq::<char>::empty());
        },
    }
}

/// Writes a blank and the locking clause, if one was given.
pub fn push_lock(rv: &mut String, lock: &ForType)
    ensures
        final(rv)@ == old(rv)@ + lock_clause(lock@),
{
    match lock {
        ForType::Empty => {
            assert(rv@ =~= old(rv)@ + lock_clause(lock@));
        },
        ForType::Specified(for_clause) => {
            rv.append(" ");
            rv.append(for_clause.to_sql().as_str());
            assert(rv@ =~= old(rv)@ + lock_clause(lock@));
        },
    }
}

} // verus!
