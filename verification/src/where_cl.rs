//! The boolean expression tree of `WHERE` and `HAVING`.

use vstd::prelude::*;
use crate::common::ToSQL;
use crate::text::{
    join_strings, joined, lemma_joined_empty, lemma_joined_one, lemma_joined_push, owned_views,
};

verus! {

/// The connective of a group.
#[derive(Clone, Copy, PartialEq, Eq)]
pub enum Operator {
    And,
    Or,
}

impl Operator {
    /// The keyword of the connective.
    pub open spec fn sql(self) -> Seq<char> {
        match self {
            Operator::And => "AND"@,
            Operator::Or => "OR"@,
        }
    }

    /// What stands between two neighbours of a group: the keyword with a blank on each side.
    pub open spec fn separator(self) -> Seq<char> {
        " "@ + self.sql() + " "@
    }

    pub fn to_sql(&self) -> (s: &'static str)
        ensures
            s@ == self.sql(),
    {
        match *self {
            Operator::And => "AND",
            Operator::Or => "OR",
        }
    }
}

/// The mathematical value of a condition: a predicate taken verbatim, or a group of
/// conditions under one connective.
pub ghost enum Cond {
    Predicate(Seq<char>),
    Group { operator: Operator, children: Seq<Cond> },
}

impl Cond {
    /// The text of a condition. A predicate is its own text; a group is its children's
    /// texts, joined by the connective and wrapped in one pair of parentheses, however
    /// many children there are.
    pub open spec fn sql(self) -> Seq<char>
        decreases self, 0nat,
    {
        match self {
            Cond::Predicate(text) => text,
            Cond::Group { operator, children } => "("@ + joined(
                sqls(children),
                operator.separator(),
            ) + ")"@,
        }
    }
}

/// The texts of a list of conditions, in order.
pub open spec fn sqls(conds: Seq<Cond>) -> Seq<Seq<char>>
    decreases conds, 1nat,
{
    Seq::new(
        conds.len(),
        |i: int|
            if 0 <= i < conds.len() {
                conds[i].sql()
            } else {
                Seq::empty()
            },
    )
}

/// The values of a list of conditions, in order.
pub open spec fn conds(list: Seq<Condition>) -> Seq<Cond> {
    Seq::new(list.len(), |i: int| list[i]@)
}

/// One entry of a `WHERE` or `HAVING` list, or one child of a group.
#[derive(PartialEq, Eq)]
pub enum Condition<'a> {
    /// A boolean expression, taken verbatim.
    Predicate(&'a str),
    /// A nested group.
    Group(Where<'a>),
}

/// A group of conditions joined by one connective.
#[derive(PartialEq, Eq)]
pub struct Where<'a> {
    /// Operator which will be used to join filters
    pub operator: Operator,
    /// The children, in the order in which they were added.
    pub filters: Vec<Condition<'a>>,
}

impl<'a> View for Condition<'a> {
    type V = Cond;

    open spec fn view(&self) -> Cond
        decreases self,
    {
        match self {
            Condition::Predicate(text) => Cond::Predicate(text@),
            Condition::Group(group) => group.view(),
        }
    }
}

impl<'a> View for Where<'a> {
    type V = Cond;

    open spec fn view(&self) -> Cond
        decreases self,
    {
        Cond::Group {
            operator: self.operator,
            children: Seq::new(
                self.filters@.len(),
                |i: int|
                    if 0 <= i < self.filters@.len() {
                        self.filters@[i].view()
                    } else {
                        Cond::Predicate(Seq::empty())
                    },
            ),
        }
    }
}

/// Conversion of a borrowed filter into a `Condition` that a list or a group can own.
pub trait CloneToTrait<'a> {
    /// The condition that the filter stands for.
    spec fn cond(&self) -> Cond;

    fn clone_to_trait(&self) -> (c: Condition<'a>)
        ensures
            c@ == self.cond(),
    ;
}

/// What may stand in a `WHERE` or `HAVING` list or in a group: it renders to text and
/// converts to a `Condition`, and the two agree.
pub trait WhereType<'a>: ToSQL + CloneToTrait<'a> {
    /// The text of a filter is the text of the condition it stands for.
    proof fn lemma_sql_of_cond(&self)
        ensures
            self.sql() == self.cond().sql(),
    ;
}

impl<'a> ToSQL for &'a str {
    open spec fn sql(&self) -> Seq<char> {
        (*self)@
    }

    fn to_sql(&self) -> (s: String) {
        String::from_str(*self)
    }
}

impl<'a> CloneToTrait<'a> for &'a str {
    open spec fn cond(&self) -> Cond {
        Cond::Predicate((*self)@)
    }

    fn clone_to_trait(&self) -> (c: Condition<'a>) {
        Condition::Predicate(*self)
    }
}

impl<'a> WhereType<'a> for &'a str {
    proof fn lemma_sql_of_cond(&self) {
    }
}

impl<'a> ToSQL for Where<'a> {
    open spec fn sql(&self) -> Seq<char> {
        self@.sql()
    }

    fn to_sql(&self) -> (s: String) {
        self.render()
    }
}

impl<'a> CloneToTrait<'a> for Where<'a> {
    open spec fn cond(&self) -> Cond {
        self@
    }

    fn clone_to_trait(&self) -> (c: Condition<'a>) {
        Condition::Group(self.duplicate())
    }
}

impl<'a> WhereType<'a> for Where<'a> {
    proof fn lemma_sql_of_cond(&self) {
    }
}

impl<'a> ToSQL for Condition<'a> {
    open spec fn sql(&self) -> Seq<char> {
        self@.sql()
    }

    fn to_sql(&self) -> (s: String) {
        self.render()
    }
}

impl<'a> CloneToTrait<'a> for Condition<'a> {
    open spec fn cond(&self) -> Cond {
        self@
    }

    fn clone_to_trait(&self) -> (c: Condition<'a>) {
        self.duplicate()
    }
}

impl<'a> WhereType<'a> for Condition<'a> {
    proof fn lemma_sql_of_cond(&self) {
    }
}

/// Renders each condition of `list` and joins the texts with `sep`.
pub fn conditions_to_sql(list: &Vec<Condition>, sep: &str) -> (s: String)
    ensures
        s@ == joined(sqls(conds(list@)), sep@),
    decreases list, 1nat,
{
    let mut texts: Vec<String> = Vec::new();
    let mut i: usize = 0;
    while i < list.len()
        invariant
            i <= list.len(),
            texts.len() == i,
            forall|j: int| 0 <= j < i ==> (#[trigger] texts@[j])@ == list@[j]@.sql(),
        decreases list.len() - i,
    {
        texts.push(list[i].render());
        i += 1;
    }
    proof {
        assert(owned_views(texts@) =~= sqls(conds(list@)));
    }
    join_strings(&texts, sep)
}

/// A copy of a list of conditions.
pub fn copy_conditions<'a>(list: &Vec<Condition<'a>>) -> (res: Vec<Condition<'a>>)
    ensures
        conds(res@) == conds(list@),
{
    let mut res: Vec<Condition<'a>> = Vec::new();
    let mut i: usize = 0;
    while i < list.len()
        invariant
            i <= list.len(),
            res.len() == i,
            forall|j: int| 0 <= j < i ==> (#[trigger] res@[j])@ == list@[j]@,
        decreases list.len() - i,
    {
        res.push(list[i].clone());
        i += 1;
    }
    assert(conds(res@) =~= conds(list@));
    res
}

impl<'a> Condition<'a> {
    fn render(&self) -> (s: String)
        ensures
            s@ == self@.sql(),
        decreases self, 0nat,
    {
        match self {
            Condition::Predicate(text) => String::from_str(*text),
            Condition::Group(group) => group.render(),
        }
    }

    fn duplicate(&self) -> (r: Self)
        ensures
            r@ == self@,
        decreases self,
    {
        match self {
            Condition::Predicate(text) => Condition::Predicate(*text),
            Condition::Group(group) => Condition::Group(group.duplicate()),
        }
    }
}

impl<'a> Clone for Condition<'a> {
    fn clone(&self) -> (r: Self)
        ensures
            r@ == self@,
    {
        self.duplicate()
    }
}

impl<'a> Where<'a> {
    /// Method to start with: a group under `operator` with no children yet.
    pub fn new(operator: Operator) -> (r: Self)
        ensures
            r@ == (Cond::Group { operator, children: Seq::empty() }),
    {
        let r = Where { operator: operator, filters: Vec::new() };
        assert(r@->children =~= Seq::empty());
        r
    }

    /// Just an alias for `new` with pre-defined `AND` operator.
    pub fn with_and() -> (r: Self)
        ensures
            r@ == (Cond::Group { operator: Operator::And, children: Seq::empty() }),
    {
        Self::new(Operator::And)
    }

    /// Just an alias for `new` with pre-defined `OR` operator.
    pub fn with_or() -> (r: Self)
        ensures
            r@ == (Cond::Group { operator: Operator::Or, children: Seq::empty() }),
    {
        Self::new(Operator::Or)
    }

    /// Appends `raw` as the last child; the children before it and the connective stay.
    pub fn filter<T: WhereType<'a>>(self, raw: T) -> (r: Self)
        ensures
            r@ == (Cond::Group {
                operator: self.operator,
                children: self@->children.push(raw.cond()),
            }),
    {
        let mut group = self;
        group.filters.push(raw.clone_to_trait());
        assert(group@->children =~= self@->children.push(raw.cond()));
        group
    }

    fn render(&self) -> (s: String)
        ensures
            s@ == self@.sql(),
        decreases self, 0nat,
    {
        let mut separator = String::from_str(" ");
        separator.append(self.operator.to_sql());
        separator.append(" ");
        let mut rv = String::from_str("(");
        rv.append(conditions_to_sql(&self.filters, separator.as_str()).as_str());
        rv.append(")");
        proof {
            assert(conds(self.filters@) =~= self@->children);
        }
        rv
    }

    fn duplicate(&self) -> (r: Self)
        ensures
            r@ == self@,
        decreases self,
    {
        let mut filters: Vec<Condition<'a>> = Vec::new();
        let mut i: usize = 0;
        while i < self.filters.len()
            invariant
                i <= self.filters.len(),
                filters.len() == i,
                forall|j: int| 0 <= j < i ==> (#[trigger] filters@[j])@ == self.filters@[j]@,
            decreases self.filters.len() - i,
        {
            filters.push(self.filters[i].duplicate());
            i += 1;
        }
        let r = Where { operator: self.operator, filters };
        assert(r@->children =~= self@->children);
        r
    }
}

impl<'a> Clone for Where<'a> {
    fn clone(&self) -> (r: Self)
        ensures
            r@ == self@,
    {
        self.duplicate()
    }
}

/// A group without children renders as an opening and a closing parenthesis with nothing
/// between them.
pub proof fn lemma_empty_group(operator: Operator)
    ensures
        (Cond::Group { operator, children: Seq::empty() }).sql() == "("@ + ")"@,
{
    assert(sqls(Seq::empty()) =~= Seq::<Seq<char>>::empty());
    lemma_joined_empty(operator.separator());
    assert("("@ + Seq::<char>::empty() + ")"@ =~= "("@ + ")"@);
}

/// A group with a single child renders as that child's text in one pair of parentheses.
pub proof fn lemma_single_child_group(operator: Operator, child: Cond)
    ensures
        (Cond::Group { operator, children: seq![child] }).sql() == "("@ + child.sql() + ")"@,
{
    assert(sqls(seq![child]) =~= seq![child.sql()]);
    lemma_joined_one(child.sql(), operator.separator());
}

/// A group renders as the texts of its children, in order, with the connective between
/// each two neighbours and a blank on each side of it, the whole in one pair of
/// parentheses.
pub proof fn lemma_group_sql(operator: Operator, children: Seq<Cond>)
    ensures
        sqls(children).len() == children.len(),
        forall|i: int| 0 <= i < children.len() ==> sqls(children)[i] == children[i].sql(),
        (Cond::Group { operator, children }).sql() == "("@ + joined(
            sqls(children),
            " "@ + operator.sql() + " "@,
        ) + ")"@,
{
}

/// The texts of a list with one more condition are the texts of the list and then the
/// text of that condition.
pub proof fn lemma_sqls_push(children: Seq<Cond>, last: Cond)
    ensures
        sqls(children.push(last)) == sqls(children).push(last.sql()),
{
    let more = children.push(last);
    assert(sqls(more).len() == sqls(children).push(last.sql()).len());
    assert forall|i: int| 0 <= i < more.len() implies sqls(more)[i] == sqls(children).push(
        last.sql(),
    )[i] by {
        if i < children.len() {
            assert(more[i] == children[i]);
        } else {
            assert(more[i] == last);
        }
    }
    assert(sqls(more) =~= sqls(children).push(last.sql()));
}

/// Adding a child to a group that has children puts the connective, with a blank on each
/// side, and the child's text before the closing parenthesis.
pub proof fn lemma_group_push(operator: Operator, children: Seq<Cond>, last: Cond)
    requires
        children.len() > 0,
    ensures
        (Cond::Group { operator, children: children.push(last) }).sql() == "("@ + joined(
            sqls(children),
            " "@ + operator.sql() + " "@,
        ) + " "@ + operator.sql() + " "@ + last.sql() + ")"@,
{
    let separator = " "@ + operator.sql() + " "@;
    let body = joined(sqls(children), separator);
    lemma_sqls_push(children, last);
    lemma_joined_push(sqls(children), last.sql(), separator);
    assert(joined(sqls(children.push(last)), separator) == body + separator + last.sql());
    assert("("@ + (body + separator + last.sql()) + ")"@ =~= "("@ + body + " "@ + operator.sql()
        + " "@ + last.sql() + ")"@);
}

} // verus!
