//! Keeps `INSERT` related stuff.

use vstd::prelude::*;
use crate::common::{Pusheable, ToSQL};
use crate::select::statement::Statement;
use crate::select::Select;
use crate::text::{copy_strs, join_strings, join_strs, joined, owned_views, views};
use crate::update::{Returning, ReturningList};

verus! {

/// The text of one row of values: the values separated by a comma and a blank, in one
/// pair of parentheses.
pub open spec fn row_sql(row: Seq<Seq<char>>) -> Seq<char> {
    "("@ + joined(row, ", "@) + ")"@
}

/// The texts of a list of rows, in order.
pub open spec fn row_sqls(rows: Seq<Seq<Seq<char>>>) -> Seq<Seq<char>> {
    Seq::new(rows.len(), |i: int| row_sql(rows[i]))
}

/// The texts of the values of each row, in order.
pub open spec fn rows(list: Seq<Vec<&str>>) -> Seq<Seq<Seq<char>>> {
    Seq::new(list.len(), |i: int| views(list[i]@))
}

/// The mathematical value of what an `INSERT` inserts.
pub ghost enum ValuesSource {
    Default,
    Specified(Seq<Seq<Seq<char>>>),
    Select(Statement),
}

impl ValuesSource {
    /// The rows given so far; none in the other two states.
    pub open spec fn rows(self) -> Seq<Seq<Seq<char>>> {
        match self {
            ValuesSource::Specified(rows) => rows,
            _ => Seq::empty(),
        }
    }

    /// `DEFAULT VALUES`, or `VALUES ` and the rows separated by a comma and a blank, or
    /// the text of the statement that supplies the rows.
    pub open spec fn sql(self) -> Seq<char> {
        match self {
            ValuesSource::Default => "DEFAULT VALUES"@,
            ValuesSource::Specified(rows) => "VALUES "@ + joined(row_sqls(rows), ", "@),
            ValuesSource::Select(query) => query.sql(),
        }
    }
}

#[derive(PartialEq, Eq)]
pub enum Values<'a> {
    Default,
    Specified(Vec<Vec<&'a str>>),
    Select(Select<'a>),
}

impl<'a> View for Values<'a> {
    type V = ValuesSource;

    open spec fn view(&self) -> ValuesSource {
        match self {
            Values::Default => ValuesSource::Default,
            Values::Specified(list) => ValuesSource::Specified(rows(list@)),
            Values::Select(query) => ValuesSource::Select(query@),
        }
    }
}

impl<'a> Values<'a> {
    pub fn to_sql(&self) -> (s: String)
        ensures
            s@ == self@.sql(),
    {
        match self {
            Values::Default => String::from_str("DEFAULT VALUES"),
            Values::Specified(values) => {
                let mut texts: Vec<String> = Vec::new();
                let mut i: usize = 0;
                while i < values.len()
                    invariant
                        i <= values.len(),
                        texts.len() == i,
                        forall|j: int|
                            0 <= j < i ==> (#[trigger] texts@[j])@ == row_sql(views(values@[j]@)),
                    decreases values.len() - i,
                {
                    let mut row = String::from_str("(");
                    row.append(join_strs(&values[i], ", ").as_str());
                    row.append(")");
                    texts.push(row);
                    i += 1;
                }
                assert(owned_views(texts@) =~= row_sqls(rows(values@)));
                let mut rv = String::from_str("VALUES ");
                rv.append(join_strings(&texts, ", ").as_str());
                rv
            },
            Values::Select(query) => query.to_sql(),
        }
    }

    /// Appends one row to the rows given so far; a source of another kind gives way to
    /// the row.
    pub fn with_row(self, input_values: Vec<&'a str>) -> (r: Self)
        ensures
            r@ == ValuesSource::Specified(self@.rows().push(views(input_values@))),
    {
        match self {
            Values::Specified(list) => {
                let mut list = list;
                list.push(input_values);
                assert(rows(list@) =~= self@.rows().push(views(input_values@)));
                Values::Specified(list)
            },
            _ => {
                let mut list: Vec<Vec<&'a str>> = Vec::new();
                list.push(input_values);
                assert(rows(list@) =~= self@.rows().push(views(input_values@)));
                Values::Specified(list)
            },
        }
    }
}

impl<'a> Clone for Values<'a> {
    fn clone(&self) -> (r: Self)
        ensures
            r@ == self@,
    {
        match self {
            Values::Default => Values::Default,
            Values::Specified(list) => {
                let mut copy: Vec<Vec<&'a str>> = Vec::new();
                let mut i: usize = 0;
                while i < list.len()
                    invariant
                        i <= list.len(),
                        copy.len() == i,
                        forall|j: int| 0 <= j < i ==> (#[trigger] copy@[j])@ == list@[j]@,
                    decreases list.len() - i,
                {
                    copy.push(copy_strs(&list[i]));
                    i += 1;
                }
                assert(rows(copy@) =~= rows(list@));
                Values::Specified(copy)
            },
            Values::Select(query) => Values::Select(query.clone()),
        }
    }
}

/// The mathematical value of an `INSERT` statement.
pub ghost struct InsertStatement {
    pub table: Seq<char>,
    pub columns: Seq<Seq<char>>,
    pub values: ValuesSource,
    pub returning: ReturningList,
}

impl InsertStatement {
    /// A blank and the columns, separated by a comma and a blank, in one pair of
    /// parentheses; nothing without columns.
    pub open spec fn columns_clause(self) -> Seq<char> {
        if self.columns.len() == 0 {
            Seq::empty()
        } else {
            " ("@ + joined(self.columns, ", "@) + ")"@
        }
    }

    /// The text of the statement: `INSERT INTO <table>`, the columns if any, the source
    /// of the rows, and `RETURNING` if it is set.
    pub open spec fn sql(self) -> Seq<char> {
        "INSERT INTO "@ + self.table + self.columns_clause() + " "@ + self.values.sql()
            + self.returning.clause()
    }
}

/// Represents `INSERT` query.
#[derive(PartialEq, Eq)]
pub struct Insert<'a> {
    pub table: &'a str,
    pub columns: Vec<&'a str>,
    pub values: Values<'a>,
    pub returning: Returning<'a>,
}

impl<'a> View for Insert<'a> {
    type V = InsertStatement;

    open spec fn view(&self) -> InsertStatement {
        InsertStatement {
            table: self.table@,
            columns: views(self.columns@),
            values: self.values@,
            returning: self.returning@,
        }
    }
}

impl<'a> Insert<'a> {
    /// Method to start with: default values go into `table` and nothing is returned.
    pub fn into(table: &'a str) -> (r: Self)
        ensures
            r@ == (InsertStatement {
                table: table@,
                columns: Seq::empty(),
                values: ValuesSource::Default,
                returning: ReturningList::Empty,
            }),
    {
        let r = Insert {
            table: table,
            columns: Vec::new(),
            values: Values::Default,
            returning: Returning::Empty,
        };
        assert(r@.columns =~= Seq::empty());
        r
    }

    /// Specifies columns for `INSERT`: `columns` is appended to the columns named so far.
    pub fn columns<T: Pusheable<'a>>(self, columns: T) -> (r: Self)
        ensures
            r@ == (InsertStatement { columns: self@.columns + columns.items(), ..self@ }),
    {
        let mut insert = self;
        columns.push_to(&mut insert.columns);
        insert
    }

    /// Specifies `INSERT` values: one more row after the rows given so far. Rows take the
    /// place of default values and of a `SELECT`.
    pub fn values(self, input_values: Vec<&'a str>) -> (r: Self)
        ensures
            r@ == (InsertStatement {
                values: ValuesSource::Specified(self@.values.rows().push(views(input_values@))),
                ..self@
            }),
    {
        let Insert { table, columns, values, returning } = self;
        Insert { table, columns, values: values.with_row(input_values), returning }
    }

    /// Specifies `SELECT` as `INSERT` value, in place of what was given before. Results in
    /// `INSERT INTO ... SELECT`
    pub fn query(self, query: Select<'a>) -> (r: Self)
        ensures
            r@ == (InsertStatement { values: ValuesSource::Select(query@), ..self@ }),
    {
        let mut insert = self;
        insert.values = Values::Select(query);
        insert
    }

    /// Specifies `RETURNING` clause. WIll result in `RETURNING *`
    pub fn returning_all(self) -> (r: Self)
        ensures
            r@ == (InsertStatement { returning: ReturningList::All, ..self@ }),
    {
        let mut insert = self;
        insert.returning = Returning::All;
        insert
    }

    /// Specifies columns for `RETURNING` clause: `input_columns` is appended to the columns
    /// named so far.
    pub fn returning<T: Pusheable<'a>>(self, input_columns: T) -> (r: Self)
        ensures
            r@ == (InsertStatement {
                returning: ReturningList::Specified(
                    self@.returning.expressions() + input_columns.items(),
                ),
                ..self@
            }),
    {
        let Insert { table, columns, values, returning } = self;
        Insert { table, columns, values, returning: returning.extend(input_columns) }
    }

    /// Removes `RETURNING` clause.
    pub fn remove_returning(self) -> (r: Self)
        ensures
            r@ == (InsertStatement { returning: ReturningList::Empty, ..self@ }),
    {
        let mut insert = self;
        insert.returning = Returning::Empty;
        insert
    }

    /// Generates SQL.
    pub fn to_sql(&self) -> (s: String)
        ensures
            s@ == self@.sql(),
    {
        let mut rv = String::from_str("INSERT INTO ");
        rv.append(self.table);

        let ghost before = rv@;
        if !self.columns.is_empty() {
            rv.append(" (");
            rv.append(join_strs(&self.columns, ", ").as_str());
            rv.append(")");
        }
        assert(rv@ =~= before + self@.columns_clause());

        rv.append(" ");
        rv.append(self.values.to_sql().as_str());
        self.returning.push_to_sql(&mut rv);
        rv
    }
}

impl<'a> Clone for Insert<'a> {
    fn clone(&self) -> (r: Self)
        ensures
            r@ == self@,
    {
        Insert {
            table: self.table,
            columns: copy_strs(&self.columns),
            values: self.values.clone(),
            returning: self.returning.clone(),
        }
    }
}

} // verus!
