//! The locking clause, `FOR UPDATE` and `FOR SHARE`.

use vstd::prelude::*;
use crate::common::Pusheable;
use crate::text::{copy_strs, join_strs, joined, views};

verus! {

#[derive(Clone, Copy, PartialEq, Eq)]
pub enum ForMode {
    Update,
    Share,
}

impl ForMode {
    /// The keyword of the mode.
    pub open spec fn sql(self) -> Seq<char> {
        match self {
            ForMode::Update => "UPDATE"@,
            ForMode::Share => "SHARE"@,
        }
    }

    pub fn to_sql(&self) -> (s: &'static str)
        ensures
            s@ == self.sql(),
    {
        match *self {
            ForMode::Update => "UPDATE",
            ForMode::Share => "SHARE",
        }
    }
}

/// The mathematical value of a locking clause.
pub ghost struct ForLock {
    pub mode: ForMode,
    pub tables: Seq<Seq<char>>,
    pub nowait: bool,
}

impl ForLock {
    /// ` OF` and the tables, separated by a comma and a blank; nothing without tables.
    pub open spec fn of_tables(self) -> Seq<char> {
        if self.tables.len() == 0 {
            Seq::empty()
        } else {
            " OF "@ + joined(self.tables, ", "@)
        }
    }

    /// ` NOWAIT` where it was asked for.
    pub open spec fn no_wait(self) -> Seq<char> {
        if self.nowait {
            " NOWAIT"@
        } else {
            Seq::empty()
        }
    }

    /// `FOR <mode>`, then the tables, then `NOWAIT`.
    pub open spec fn sql(self) -> Seq<char> {
        "FOR "@ + self.mode.sql() + self.of_tables() + self.no_wait()
    }
}

#[derive(PartialEq, Eq)]
pub struct For<'a> {
    pub mode: ForMode,
    pub tables: Vec<&'a str>,
    pub nowait: bool,
}

impl<'a> View for For<'a> {
    type V = ForLock;

    open spec fn view(&self) -> ForLock {
        ForLock { mode: self.mode, tables: views(self.tables@), nowait: self.nowait }
    }
}

impl<'a> For<'a> {
    /// A lock of the given mode on no table in particular, waiting.
    pub fn new(mode: ForMode) -> (r: Self)
        ensures
            r@ == (ForLock { mode, tables: Seq::empty(), nowait: false }),
    {
        let r = For { mode: mode, tables: Vec::new(), nowait: false };
        assert(r@.tables =~= Seq::empty());
        r
    }

    pub fn update() -> (r: Self)
        ensures
            r@ == (ForLock { mode: ForMode::Update, tables: Seq::empty(), nowait: false }),
    {
        Self::new(ForMode::Update)
    }

    pub fn share() -> (r: Self)
        ensures
            r@ == (ForLock { mode: ForMode::Share, tables: Seq::empty(), nowait: false }),
    {
        Self::new(ForMode::Share)
    }

    /// Appends `tables` to the tables named so far.
    pub fn table<T: Pusheable<'a>>(self, tables: T) -> (r: Self)
        ensures
            r@ == (ForLock { tables: self@.tables + tables.items(), ..self@ }),
    {
        let mut lock = self;
        tables.push_to(&mut lock.tables);
        lock
    }

    pub fn nowait(self) -> (r: Self)
        ensures
            r@ == (ForLock { nowait: true, ..self@ }),
    {
        let mut lock = self;
        lock.nowait = true;
        lock
    }

    pub fn to_sql(&self) -> (s: String)
        ensures
            s@ == self@.sql(),
    {
        let mut rv = String::from_str("FOR ");
        rv.append(self.mode.to_sql());

        if !self.tables.is_empty() {
            let ghost before = rv@;
            rv.append(" OF ");
            rv.append(join_strs(&self.tables, ", ").as_str());
            assert(rv@ =~= before + self@.of_tables());
        } else {
            assert(rv@ =~= rv@ + self@.of_tables());
        }

        if self.nowait {
            rv.append(" NOWAIT");
        } else {
            assert(rv@ =~= rv@ + self@.no_wait());
        }
        rv
    }
}

impl<'a> Clone for For<'a> {
    fn clone(&self) -> (r: Self)
        ensures
            r@ == self@,
    {
        For { mode: self.mode, tables: copy_strs(&self.tables), nowait: self.nowait }
    }
}

#[derive(PartialEq, Eq)]
pub enum ForType<'a> {
    Empty,
    Specified(For<'a>),
}

impl<'a> View for ForType<'a> {
    type V = Option<ForLock>;

    open spec fn view(&self) -> Option<ForLock> {
        match self {
            ForType::Empty => None,
            ForType::Specified(lock) => Some(lock@),
        }
    }
}

impl<'a> Clone for ForType<'a> {
    fn clone(&self) -> (r: Self)
        ensures
            r@ == self@,
    {
        match self {
            ForType::Empty => ForType::Empty,
            ForType::Specified(lock) => ForType::Specified(lock.clone()),
        }
    }
}

} // verus!
