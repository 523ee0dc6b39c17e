use vstd::prelude::*;

use crate::text::{join, join_strings, lemma_join_append, string_of, string_views};

verus! {

/// A `REPLACE INTO` statement. Each identifier and the source are held as
/// the text that displays them.
#[derive(Debug, Clone, PartialEq)]
pub struct ReplaceStmt {
    pub catalog: Option<String>,
    pub database: Option<String>,
    pub table: String,
    pub on: String,
    pub columns: Vec<String>,
    pub source: String,
}

/// The present parts of an optional name, as a sequence of zero or one text.
pub open spec fn optional_name(o: Option<String>) -> Seq<Seq<char>> {
    match o {
        Some(s) => seq![s@],
        None => Seq::empty(),
    }
}

/// The qualified table name: catalog, database and table, those present,
/// separated by periods.
pub open spec fn qualified_table(s: ReplaceStmt) -> Seq<char> {
    join(optional_name(s.catalog) + optional_name(s.database) + seq![s.table@], "."@)
}

/// The column list: empty without columns, else ` (` the columns separated by
/// `, ` and `)`.
pub open spec fn column_list(s: ReplaceStmt) -> Seq<char> {
    if s.columns.len() == 0 {
        Seq::empty()
    } else {
        " ("@ + join(string_views(s.columns@), ", "@) + ")"@
    }
}

/// The SQL text of a `REPLACE INTO` statement.
pub open spec fn replace_sql(s: ReplaceStmt) -> Seq<char> {
    "REPLACE INTO "@ + qualified_table(s) + "ON ( "@ + s.on@ + " )"@ + column_list(s) + " "@
        + s.source@
}

impl ReplaceStmt {
    /// The SQL text of this statement (see [`replace_sql`]).
    pub fn to_display_string(&self) -> (r: String)
        ensures
            r@ == replace_sql(*self),
    {
        let mut names: Vec<String> = Vec::new();
        if let Some(c) = &self.catalog {
            names.push(c.clone());
        }
        if let Some(d) = &self.database {
            names.push(d.clone());
        }
        names.push(self.table.clone());
        assert(string_views(names@) =~= optional_name(self.catalog) + optional_name(self.database)
            + seq![self.table@]);
        let mut out = string_of("REPLACE INTO ");
        let qualified = join_strings(&names, ".");
        out.append(qualified.as_str());
        out.append("ON ( ");
        out.append(self.on.as_str());
        out.append(" )");
        if self.columns.len() > 0 {
            out.append(" (");
            let cols = join_strings(&self.columns, ", ");
            out.append(cols.as_str());
            out.append(")");
        }
        out.append(" ");
        out.append(self.source.as_str());
        out
    }
}

} // verus!

verus! {

/// The SQL text of a statement with columns lists all of them, in order,
/// separated by `, ` in brackets, between the `ON` clause and the source;
/// without columns the `ON` clause is followed by the source directly.
pub proof fn lemma_replace_sql_lists_every_column(s: ReplaceStmt)
    ensures
        s.columns.len() > 0 ==> replace_sql(s) == "REPLACE INTO "@ + qualified_table(s) + "ON ( "@ + s.on@
            + " )"@ + " ("@ + join(string_views(s.columns@), ", "@) + ")"@ + " "@ + s.source@,
        s.columns.len() == 0 ==> replace_sql(s) == "REPLACE INTO "@ + qualified_table(s) + "ON ( "@
            + s.on@ + " )"@ + " "@ + s.source@,
{
    if s.columns.len() == 0 {
        assert(column_list(s) =~= Seq::<char>::empty());
    }
}

/// Adding a column to a statement that has columns puts `, ` and the new
/// column at the end of its column list, and changes nothing else.
pub proof fn lemma_replace_sql_one_more_column(s: ReplaceStmt, c: String, t: ReplaceStmt)
    requires
        s.columns.len() > 0,
        t == (ReplaceStmt { columns: t.columns, ..s }),
        t.columns@ == s.columns@.push(c),
    ensures
        column_list(t) == " ("@ + join(string_views(s.columns@), ", "@) + ", "@ + c@ + ")"@,
{
    let a = string_views(s.columns@);
    assert(string_views(t.columns@) =~= a + seq![c@]);
    lemma_join_append(a, seq![c@], ", "@);
}

/// The qualified table name: the table alone without catalog and database,
/// else the present ones before it, each followed by a period.
pub proof fn lemma_qualified_table_parts(s: ReplaceStmt)
    ensures
        s.catalog is None && s.database is None ==> qualified_table(s) == s.table@,
        s.catalog matches Some(c) ==> (s.database is None ==> qualified_table(s) == c@ + "."@ + s.table@),
        s.database matches Some(d) ==> (s.catalog is None ==> qualified_table(s) == d@ + "."@ + s.table@),
        s.catalog matches Some(c) ==> (s.database matches Some(d) ==> qualified_table(s) == c@ + "."@ + d@
            + "."@ + s.table@),
{
    let parts = optional_name(s.catalog) + optional_name(s.database) + seq![s.table@];
    match (s.catalog, s.database) {
        (None, None) => {
            assert(parts =~= seq![s.table@]);
        },
        (Some(c), None) => {
            assert(parts =~= seq![c@] + seq![s.table@]);
            lemma_join_append(seq![c@], seq![s.table@], "."@);
        },
        (None, Some(d)) => {
            assert(parts =~= seq![d@] + seq![s.table@]);
            lemma_join_append(seq![d@], seq![s.table@], "."@);
        },
        (Some(c), Some(d)) => {
            assert(parts =~= seq![c@, d@] + seq![s.table@]);
            lemma_join_append(seq![c@, d@], seq![s.table@], "."@);
            assert(seq![c@, d@] =~= seq![c@] + seq![d@]);
            lemma_join_append(seq![c@], seq![d@], "."@);
        },
    }
}

} // verus!
