//! What the different statements share: the rendering capability, the traits that
//! let one method take a slice, a subquery or an array of slices, and `Subquery`.

use vstd::prelude::*;
use crate::text::{lemma_views_push, views};

verus! {

/// The capability to render oneself to SQL text.
pub trait ToSQL {
    /// The text this value renders to.
    spec fn sql(&self) -> Seq<char>;

    /// Renders the value. The text is a function of the value alone.
    fn to_sql(&self) -> (s: String)
        ensures
            s@ == self.sql(),
    ;
}

/// A reference renders as what it refers to.
impl<'a, T: ToSQL> ToSQL for &'a T {
    open spec fn sql(&self) -> Seq<char> {
        (**self).sql()
    }

    fn to_sql(&self) -> (s: String) {
        (**self).to_sql()
    }
}

/// Lets a method take either a `&str` or a `&Subquery` where one piece of text is
/// expected.
pub trait AsStr<'a> {
    /// The text handed over.
    spec fn text(&self) -> Seq<char>;

    fn as_str(&self) -> (s: &'a str)
        ensures
            s@ == self.text(),
    ;
}

impl<'a> AsStr<'a> for &'a str {
    open spec fn text(&self) -> Seq<char> {
        (*self)@
    }

    fn as_str(&self) -> (s: &'a str) {
        *self
    }
}

impl<'a> AsStr<'a> for &'a Subquery<'a> {
    open spec fn text(&self) -> Seq<char> {
        self.query@
    }

    fn as_str(&self) -> (s: &'a str) {
        let whole: &'a Subquery<'a> = *self;
        whole.query.as_str()
    }
}

/// Lets a method take either a `&str`, a `&Subquery` or a reference to an array of
/// `&str` where a list of texts is extended.
pub trait Pusheable<'a> {
    /// The texts handed over, in order.
    spec fn items(&self) -> Seq<Seq<char>>;

    /// Appends the texts to `destination`, keeping what it held.
    fn push_to(&self, destination: &mut Vec<&'a str>)
        ensures
            views(final(destination)@) == views(old(destination)@) + self.items(),
    ;
}

impl<'a> Pusheable<'a> for &'a str {
    open spec fn items(&self) -> Seq<Seq<char>> {
        seq![(*self)@]
    }

    fn push_to(&self, destination: &mut Vec<&'a str>) {
        destination.push(*self);
        assert(views(destination@) =~= views(old(destination)@) + self.items());
    }
}

impl<'a> Pusheable<'a> for &'a Subquery<'a> {
    open spec fn items(&self) -> Seq<Seq<char>> {
        seq![self.query@]
    }

    fn push_to(&self, destination: &mut Vec<&'a str>) {
        destination.push(self.as_str());
        assert(views(destination@) =~= views(old(destination)@) + self.items());
    }
}

impl<'a, 'b, const N: usize> Pusheable<'a> for &'b [&'a str; N] {
    open spec fn items(&self) -> Seq<Seq<char>> {
        views(self@)
    }

    fn push_to(&self, destination: &mut Vec<&'a str>) {
        let mut i: usize = 0;
        while i < N
            invariant
                i <= N,
                self@.len() == N,
                views(destination@) == views(old(destination)@) + views(self@).take(i as int),
            decreases N - i,
        {
            let item: &'a str = self[i];
            let ghost before = destination@;
            destination.push(item);
            proof {
                lemma_views_push(before, item);
                assert(views(self@).take(i + 1) =~= views(self@).take(i as int).push(item@));
                assert(views(destination@) =~= views(old(destination)@) + views(self@).take(
                    i + 1,
                ));
            }
            i += 1;
        }
        assert(views(self@).take(N as int) =~= views(self@));
    }
}

/// The rendered text of a statement, parenthesised, for use wherever a table, a join
/// target or a column is expected. Attaching an alias changes `query` for good.
pub struct Subquery<'a> {
    /// The generated SQL.
    pub query: String,
    /// The alias attached last, if any.
    pub alias: Option<&'a str>,
}

impl<'a> Subquery<'a> {
    /// Wraps `query` in one pair of parentheses.
    pub fn new(query: String) -> (r: Self)
        ensures
            r.query@ == "("@ + query@ + ")"@,
            r.alias is None,
    {
        let mut text = String::from_str("(");
        text.append(query.as_str());
        text.append(")");
        Subquery { query: text, alias: None }
    }

    /// Appends `AS {alias}` to the `query` field.
    pub fn with_alias(self, alias: &'a str) -> (r: Self)
        ensures
            r.query@ == self.query@ + " AS "@ + alias@,
            r.alias == Some(alias),
    {
        let mut aliased = self;
        aliased.alias = Some(alias);
        aliased.query.append(" AS ");
        aliased.query.append(alias);
        aliased
    }
}

impl<'a> Clone for Subquery<'a> {
    fn clone(&self) -> (r: Self)
        ensures
            r.query@ == self.query@,
            r.alias == self.alias,
    {
        Subquery { query: self.query.clone(), alias: self.alias }
    }
}

} // verus!
