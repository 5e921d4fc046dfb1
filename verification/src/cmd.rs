use vstd::prelude::*;
use vstd::string::*;
use crate::lex::lemma_push_view;
use crate::text::{chars_of, lowercase, to_lowercase};
use crate::types::{Column, Database, SimpleColumnView, SimpleDatabaseView, SimpleTableView};

verus! {

/// A column that a query found: where it stands.
#[derive(Debug, Clone, PartialEq, Eq)]
pub struct ColumnMatch {
    pub db_name: String,
    pub table_name: String,
    pub column_name: String,
}

/// A found column with every name as a sequence of characters.
pub struct ColumnMatchView {
    pub db_name: Seq<char>,
    pub table_name: Seq<char>,
    pub column_name: Seq<char>,
}

impl DeepView for ColumnMatch {
    type V = ColumnMatchView;

    open spec fn deep_view(&self) -> ColumnMatchView {
        ColumnMatchView {
            db_name: self.db_name@,
            table_name: self.table_name@,
            column_name: self.column_name@,
        }
    }
}

/// Whether `needle` stands in `hay` at `i`.
pub open spec fn stands_at(hay: Seq<char>, needle: Seq<char>, i: int) -> bool {
    0 <= i && i + needle.len() <= hay.len() && hay.subrange(i, i + needle.len()) == needle
}

/// Whether `needle` stands somewhere in `hay`.
pub open spec fn contains_text(hay: Seq<char>, needle: Seq<char>) -> bool {
    exists|i: int| stands_at(hay, needle, i)
}

/// Whether `needle` stands in `hay` at `i`.
pub(crate) fn stands(hay: &Vec<char>, needle: &Vec<char>, i: usize) -> (b: bool)
    ensures
        b == stands_at(hay@, needle@, i as int),
{
    if i > hay.len() || needle.len() > hay.len() - i {
        return false;
    }
    let n: usize = needle.len();
    let h: usize = hay.len();
    let mut k: usize = 0;
    while k < n
        invariant
            k <= n,
            n == needle@.len(),
            h == hay@.len(),
            i + n <= h,
            forall|j: int| 0 <= j < k ==> hay@[i + j] == needle@[j],
        decreases n - k,
    {
        if hay[i + k] != needle[k] {
            assert(hay@.subrange(i as int, i + n)[k as int] != needle@[k as int]);
            return false;
        }
        k += 1;
    }
    assert(hay@.subrange(i as int, i + n) =~= needle@);
    true
}

/// Whether `needle` stands somewhere in `hay`.
pub fn has_text(hay: &Vec<char>, needle: &Vec<char>) -> (b: bool)
    ensures
        b == contains_text(hay@, needle@),
{
    if needle.len() > hay.len() {
        return false;
    }
    let last: usize = hay.len() - needle.len();
    let mut i: usize = 0;
    loop
        invariant
            i <= last,
            last + needle@.len() == hay@.len(),
            forall|j: int| 0 <= j < i ==> !stands_at(hay@, needle@, j),
        decreases last - i,
    {
        if stands(hay, needle, i) {
            return true;
        }
        if i == last {
            return false;
        }
        i += 1;
    }
}

/// Whether a column's name holds the query, letter case aside.
pub open spec fn name_matches(name: Seq<char>, query: Seq<char>) -> bool {
    contains_text(lowercase(name), lowercase(query))
}

/// Index of the first column from `from` on whose name holds the query;
/// the number of columns where none does.
pub open spec fn first_match(columns: Seq<SimpleColumnView>, query: Seq<char>, from: int) -> int
    decreases columns.len() - from,
{
    if from < 0 || from >= columns.len() {
        columns.len() as int
    } else if name_matches(columns[from].name, query) {
        from
    } else {
        first_match(columns, query, from + 1)
    }
}

/// For each table that has a column whose name holds the query, in the
/// order of the tables: the first such column.
pub open spec fn table_hits(
    db_name: Seq<char>,
    tables: Seq<SimpleTableView>,
    query: Seq<char>,
) -> Seq<ColumnMatchView>
    decreases tables.len(),
{
    if tables.len() == 0 {
        Seq::empty()
    } else {
        let before = table_hits(db_name, tables.drop_last(), query);
        let t = tables.last();
        let i = first_match(t.columns, query, 0);
        if i < t.columns.len() {
            before.push(
                ColumnMatchView { db_name, table_name: t.name, column_name: t.columns[i].name },
            )
        } else {
            before
        }
    }
}

/// The hits of every database, in the order of the databases.
pub open spec fn all_hits(databases: Seq<SimpleDatabaseView>, query: Seq<char>) -> Seq<
    ColumnMatchView,
>
    decreases databases.len(),
{
    if databases.len() == 0 {
        Seq::empty()
    } else {
        all_hits(databases.drop_last(), query) + table_hits(
            databases.last().db_name,
            databases.last().tables,
            query,
        )
    }
}

/// Index of the first column whose name holds the query, letter case
/// aside.
fn find_column(columns: &Vec<Column>, wanted: &Vec<char>, Ghost(query): Ghost<Seq<char>>) -> (r:
    Option<usize>)
    requires
        wanted@ == lowercase(query),
    ensures
        match r {
            Some(i) => i < columns@.len() && i == first_match(columns.deep_view(), query, 0),
            None => first_match(columns.deep_view(), query, 0) == columns@.len(),
        },
{
    let ghost views = columns.deep_view();
    let n: usize = columns.len();
    let mut i: usize = 0;
    while i < n
        invariant
            i <= n,
            n == columns@.len(),
            views == columns.deep_view(),
            wanted@ == lowercase(query),
            first_match(views, query, i as int) == first_match(views, query, 0),
        decreases n - i,
    {
        assert(views[i as int] == columns@[i as int].deep_view());
        let name = chars_of(to_lowercase(columns[i].name.as_str()).as_str());
        if has_text(&name, wanted) {
            return Some(i);
        }
        i += 1;
    }
    None
}

/// The columns that a query finds: in every table of every database, in
/// their order, the first column whose name holds the query, letter case
/// aside.
pub fn find_pass_columns(databases: &Vec<Database>, query_str: &str) -> (result: Vec<ColumnMatch>)
    ensures
        result.deep_view() == all_hits(databases.deep_view(), query_str@),
{
    let wanted = chars_of(to_lowercase(query_str).as_str());
    let ghost dbs = databases.deep_view();
    let mut result: Vec<ColumnMatch> = Vec::new();
    let mut d: usize = 0;
    assert(result.deep_view() =~= all_hits(dbs.take(0), query_str@));
    while d < databases.len()
        invariant
            d <= databases@.len(),
            dbs == databases.deep_view(),
            wanted@ == lowercase(query_str@),
            result.deep_view() == all_hits(dbs.take(d as int), query_str@),
        decreases databases@.len() - d,
    {
        let database = &databases[d];
        let ghost tables = database.tables.deep_view();
        let ghost start = result.deep_view();
        assert(dbs[d as int] == databases@[d as int].deep_view());
        assert(dbs.take(d + 1).drop_last() =~= dbs.take(d as int));
        assert(dbs.take(d + 1).last() == dbs[d as int]);
        let mut t: usize = 0;
        assert(result.deep_view() =~= start + table_hits(
            database.db_name@,
            tables.take(0),
            query_str@,
        ));
        while t < database.tables.len()
            invariant
                t <= database.tables@.len(),
                tables == database.tables.deep_view(),
                wanted@ == lowercase(query_str@),
                result.deep_view() == start + table_hits(
                    database.db_name@,
                    tables.take(t as int),
                    query_str@,
                ),
            decreases database.tables@.len() - t,
        {
            let table = &database.tables[t];
            assert(tables[t as int] == database.tables@[t as int].deep_view());
            assert(tables.take(t + 1).drop_last() =~= tables.take(t as int));
            assert(tables.take(t + 1).last() == tables[t as int]);
            let ghost before = table_hits(database.db_name@, tables.take(t as int), query_str@);
            match find_column(&table.columns, &wanted, Ghost(query_str@)) {
                Some(i) => {
                    let found = ColumnMatch {
                        db_name: database.db_name.clone(),
                        table_name: table.name.clone(),
                        column_name: table.columns[i].name.clone(),
                    };
                    assert(table.columns.deep_view()[i as int] == table.columns@[i as int].deep_view());
                    proof {
                        lemma_push_view::<ColumnMatch>(result@, result@.push(found), found);
                        assert((start + before).push(found.deep_view()) =~= start + before.push(
                            found.deep_view(),
                        ));
                    }
                    result.push(found);
                },
                None => {},
            }
            t += 1;
        }
        assert(tables.take(t as int) =~= tables);
        d += 1;
    }
    assert(dbs.take(d as int) =~= dbs);
    result
}

} // verus!
