use vstd::prelude::*;
use vstd::string::*;
use crate::create_table::{CreateTableView, render_create_table, write_definition};
use crate::database::{Database, DatabaseView};
use crate::database_option::{render_database_options, write_database_options};
use crate::table::{Table, TableView};
use crate::text::{lemma_append, push_quoted, quoted};

verus! {

/// The `CREATE TABLE` statement that defines a table of the catalog.
pub open spec fn statement_of(t: TableView) -> CreateTableView {
    CreateTableView {
        name: t.name,
        if_not_exists: false,
        columns: t.columns,
        primary_key: t.primary_key,
        foreign_keys: t.foreign_keys,
        indexes: t.indexes,
        options: t.options,
    }
}

/// The SQL text that makes a table anew: a `DROP TABLE IF EXISTS`
/// statement on a line of its own, and the `CREATE TABLE` statement that
/// defines the table, both closed by a semicolon. The row operations are
/// not written.
pub open spec fn render_table(t: TableView) -> Seq<char> {
    "DROP TABLE IF EXISTS "@ + quoted(t.name, '`') + ";\n"@ + render_create_table(
        statement_of(t),
        ", "@,
    ) + ";"@
}

/// The text of each table, with an empty line before it and a line break
/// after it.
pub open spec fn render_tables(tables: Seq<TableView>) -> Seq<char>
    decreases tables.len(),
{
    if tables.len() == 0 {
        Seq::empty()
    } else {
        render_tables(tables.drop_last()) + "\n"@ + render_table(tables.last()) + "\n"@
    }
}

/// The SQL text that makes a database anew: `CREATE DATABASE IF NOT
/// EXISTS` with the options, `USE`, and the tables in their order.
pub open spec fn render_database(d: DatabaseView) -> Seq<char> {
    "CREATE DATABASE IF NOT EXISTS "@ + quoted(d.name, '`') + render_database_options(d.options)
        + ";\nUSE "@ + quoted(d.name, '`') + ";\n"@ + render_tables(d.tables)
}

impl Table {
    /// Appends the SQL text that makes this table anew.
    pub fn write(&self, out: &mut String)
        ensures
            final(out)@ == old(out)@ + render_table(self.deep_view()),
    {
        let ghost base = old(out)@;
        let ghost v = self.deep_view();
        out.append("DROP TABLE IF EXISTS ");
        push_quoted(out, &self.name, '`');
        out.append(";\n");
        let ghost r1 = "DROP TABLE IF EXISTS "@ + quoted(v.name, '`') + ";\n"@;
        assert(out@ =~= base + r1);
        write_definition(
            out,
            &self.name,
            false,
            &self.columns,
            &self.primary_key,
            &self.foreign_keys,
            &self.indexes,
            &self.options,
            ", ",
        );
        let ghost r2 = r1 + render_create_table(statement_of(v), ", "@);
        proof {
            lemma_append(base, r1, render_create_table(statement_of(v), ", "@));
        }
        out.append(";");
        proof {
            lemma_append(base, r2, ";"@);
        }
    }

    /// The SQL text that makes this table anew.
    pub fn as_sql(&self) -> (r: String)
        ensures
            r@ == render_table(self.deep_view()),
    {
        let mut out = String::new();
        self.write(&mut out);
        assert(out@ =~= render_table(self.deep_view()));
        out
    }
}

/// Appends the text of each table, with an empty line before it and a line
/// break after it.
pub fn write_tables(out: &mut String, tables: &Vec<Table>)
    ensures
        final(out)@ == old(out)@ + render_tables(tables.deep_view()),
{
    let ghost views = tables.deep_view();
    let n: usize = tables.len();
    let mut i: usize = 0;
    assert(views.take(0) =~= Seq::<TableView>::empty());
    assert(out@ =~= old(out)@ + render_tables(views.take(0)));
    while i < n
        invariant
            i <= n,
            n == tables@.len(),
            views == tables.deep_view(),
            out@ == old(out)@ + render_tables(views.take(i as int)),
        decreases n - i,
    {
        let ghost before = render_tables(views.take(i as int));
        let ghost t = tables@[i as int].deep_view();
        out.append("\n");
        proof {
            lemma_append(old(out)@, before, "\n"@);
        }
        tables[i].write(out);
        proof {
            lemma_append(old(out)@, before + "\n"@, render_table(t));
        }
        out.append("\n");
        proof {
            lemma_append(old(out)@, before + "\n"@ + render_table(t), "\n"@);
            let next = views.take(i + 1);
            assert(next.drop_last() =~= views.take(i as int));
            assert(next.last() == t);
        }
        i += 1;
    }
    assert(views.take(n as int) =~= views);
}

impl Database {
    /// The SQL text that makes this database anew.
    pub fn as_sql(&self) -> (r: String)
        ensures
            r@ == render_database(self.deep_view()),
    {
        let ghost v = self.deep_view();
        let mut out = String::new();
        out.append("CREATE DATABASE IF NOT EXISTS ");
        push_quoted(&mut out, &self.name, '`');
        let ghost r1 = "CREATE DATABASE IF NOT EXISTS "@ + quoted(v.name, '`');
        assert(out@ =~= r1);
        write_database_options(&mut out, &self.options);
        out.append(";\nUSE ");
        let ghost r2 = r1 + render_database_options(v.options) + ";\nUSE "@;
        assert(out@ =~= r2);
        push_quoted(&mut out, &self.name, '`');
        out.append(";\n");
        let ghost r3 = r2 + quoted(v.name, '`') + ";\n"@;
        assert(out@ =~= r3);
        write_tables(&mut out, &self.tables);
        assert(r3 + render_tables(v.tables) == render_database(v));
        out
    }
}

} // verus!
