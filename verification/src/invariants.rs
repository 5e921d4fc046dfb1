use vstd::prelude::*;
use crate::alter_table::{AlterSpecView, alter_all, alter_one};
use crate::database::{DatabaseView, databases_position, tables_position, tables_without};
use crate::parser::{
    MyParserView,
    addressed_table,
    apply,
    apply_all,
    apply_to_database,
    drop_tables,
    empty_catalog,
    open_database,
    open_index,
    put_table,
    record,
    record_in,
};
use crate::statement::StatementView;
use crate::table::{TableView, table_of};

verus! {

/// Whether no two tables bear the same name.
pub open spec fn distinct_tables(tables: Seq<TableView>) -> bool {
    forall|i: int, j: int|
        #![trigger tables[i], tables[j]]
        0 <= i < j < tables.len() ==> tables[i].name != tables[j].name
}

/// Whether no two databases bear the same name.
pub open spec fn distinct_databases(databases: Seq<DatabaseView>) -> bool {
    forall|i: int, j: int|
        #![trigger databases[i], databases[j]]
        0 <= i < j < databases.len() ==> databases[i].name != databases[j].name
}

/// Whether a list of databases maps names to databases, and each database
/// maps names to tables: no name occurs twice.
pub open spec fn is_map(databases: Seq<DatabaseView>) -> bool {
    &&& distinct_databases(databases)
    &&& forall|i: int| 0 <= i < databases.len() ==> distinct_tables(#[trigger] databases[i].tables)
}

/// Where the first table of a name is found.
pub proof fn lemma_tables_position(tables: Seq<TableView>, name: Seq<char>, from: int)
    requires
        0 <= from <= tables.len(),
    ensures
        from <= tables_position(tables, name, from) <= tables.len(),
        tables_position(tables, name, from) < tables.len() ==> tables[tables_position(
            tables,
            name,
            from,
        )].name == name,
        forall|k: int|
            from <= k < tables_position(tables, name, from) ==> (#[trigger] tables[k]).name != name,
    decreases tables.len() - from,
{
    if from < tables.len() && tables[from].name != name {
        lemma_tables_position(tables, name, from + 1);
    }
}

/// Where the first database of a name is found.
pub proof fn lemma_databases_position(databases: Seq<DatabaseView>, name: Seq<char>, from: int)
    requires
        0 <= from <= databases.len(),
    ensures
        from <= databases_position(databases, name, from) <= databases.len(),
        databases_position(databases, name, from) < databases.len() ==> databases[databases_position(
            databases,
            name,
            from,
        )].name == name,
        forall|k: int|
            from <= k < databases_position(databases, name, from) ==> (
            #[trigger] databases[k]).name != name,
    decreases databases.len() - from,
{
    if from < databases.len() && databases[from].name != name {
        lemma_databases_position(databases, name, from + 1);
    }
}

/// What is left after the tables of a name were removed is taken from the
/// tables, and holds no two tables of one name where the tables held
/// none.
pub proof fn lemma_tables_without(tables: Seq<TableView>, name: Seq<char>)
    ensures
        forall|k: int|
            0 <= k < tables_without(tables, name).len() ==> tables.contains(
                #[trigger] tables_without(tables, name)[k],
            ),
        distinct_tables(tables) ==> distinct_tables(tables_without(tables, name)),
    decreases tables.len(),
{
    let w = tables_without(tables, name);
    if tables.len() > 0 {
        let front = tables.drop_last();
        let wf = tables_without(front, name);
        lemma_tables_without(front, name);
        assert forall|k: int| 0 <= k < w.len() implies tables.contains(#[trigger] w[k]) by {
            if k < wf.len() {
                assert(w[k] == wf[k]);
                assert(front.contains(wf[k]));
                let j = choose|j: int| 0 <= j < front.len() && front[j] == wf[k];
                assert(tables[j] == wf[k]);
            } else {
                assert(w[k] == tables.last());
                assert(tables[tables.len() - 1] == w[k]);
            }
        }
        if distinct_tables(tables) {
            assert(distinct_tables(front)) by {
                assert forall|i: int, j: int|
                    #![trigger front[i], front[j]]
                    0 <= i < j < front.len() implies front[i].name != front[j].name by {
                    assert(tables[i].name != tables[j].name);
                }
            }
            assert forall|i: int, j: int|
                #![trigger w[i], w[j]]
                0 <= i < j < w.len() implies w[i].name != w[j].name by {
                if j < wf.len() {
                    assert(wf[i].name != wf[j].name);
                } else {
                    assert(w[j] == tables.last());
                    assert(w[i] == wf[i]);
                    assert(front.contains(wf[i]));
                    let m = choose|m: int| 0 <= m < front.len() && front[m] == wf[i];
                    assert(tables[m].name != tables[tables.len() - 1].name);
                }
            }
        }
    }
}

/// Putting a table in keeps the names distinct.
pub proof fn lemma_put_table(tables: Seq<TableView>, t: TableView)
    requires
        distinct_tables(tables),
    ensures
        distinct_tables(put_table(tables, t)),
{
    lemma_tables_position(tables, t.name, 0);
    let p = tables_position(tables, t.name, 0);
    let after = put_table(tables, t);
    assert forall|i: int, j: int|
        #![trigger after[i], after[j]]
        0 <= i < j < after.len() implies after[i].name != after[j].name by {
        if p < tables.len() {
            assert(after[i].name == tables[i].name);
            assert(after[j].name == tables[j].name);
            assert(tables[i].name != tables[j].name);
        } else {
            if j < tables.len() {
                assert(tables[i].name != tables[j].name);
            } else {
                assert(tables[i].name != t.name);
            }
        }
    }
}

/// Removing the tables of some names keeps the names distinct.
pub proof fn lemma_drop_tables(tables: Seq<TableView>, names: Seq<Seq<char>>)
    requires
        distinct_tables(tables),
    ensures
        distinct_tables(drop_tables(tables, names)),
    decreases names.len(),
{
    if names.len() > 0 {
        lemma_tables_without(tables, names[0]);
        lemma_drop_tables(tables_without(tables, names[0]), names.drop_first());
    }
}

/// A change to a table leaves its name alone.
pub proof fn lemma_alter_keeps_name(t: TableView, specs: Seq<AlterSpecView>)
    ensures
        alter_all(t, specs).name == t.name,
    decreases specs.len(),
{
    if specs.len() > 0 {
        lemma_alter_keeps_name(alter_one(t, specs[0]), specs.drop_first());
    }
}

/// A statement that a table records leaves its name alone.
pub proof fn lemma_record_keeps_name(t: TableView, st: StatementView)
    ensures
        record(t, st).name == t.name,
{
    match st {
        StatementView::AlterTable(a) => {
            lemma_alter_keeps_name(t, a.specs);
        },
        _ => {},
    }
}

/// A statement keeps the names of the tables of a database distinct, and
/// leaves the name of the database alone.
pub proof fn lemma_apply_to_database(d: DatabaseView, st: StatementView)
    requires
        distinct_tables(d.tables),
    ensures
        distinct_tables(apply_to_database(d, st).tables),
        apply_to_database(d, st).name == d.name,
{
    match st {
        StatementView::CreateTable(c) => {
            lemma_put_table(d.tables, table_of(c));
        },
        StatementView::DropTable(x) => {
            lemma_drop_tables(d.tables, x.names);
        },
        StatementView::SetVariables(_) => {},
        StatementView::CreateDatabase(_) => {},
        StatementView::UseDatabase(_) => {},
        _ => {
            let name = addressed_table(st)->0;
            lemma_tables_position(d.tables, name, 0);
            let p = tables_position(d.tables, name, 0);
            let after = record_in(d.tables, name, st);
            if p < d.tables.len() {
                lemma_record_keeps_name(d.tables[p], st);
                assert forall|i: int, j: int|
                    #![trigger after[i], after[j]]
                    0 <= i < j < after.len() implies after[i].name != after[j].name by {
                    assert(after[i].name == d.tables[i].name);
                    assert(after[j].name == d.tables[j].name);
                    assert(d.tables[i].name != d.tables[j].name);
                }
            }
        },
    }
}

/// Opening a database keeps every name distinct.
pub proof fn lemma_open_database(
    c: MyParserView,
    name: Seq<char>,
    options: Option<Seq<crate::database_option::DatabaseOptionView>>,
)
    requires
        is_map(c.databases),
    ensures
        is_map(open_database(c, name, options).databases),
{
    lemma_databases_position(c.databases, name, 0);
    let p = databases_position(c.databases, name, 0);
    let before = c.databases;
    let after = open_database(c, name, options).databases;
    assert forall|i: int, j: int|
        #![trigger after[i], after[j]]
        0 <= i < j < after.len() implies after[i].name != after[j].name by {
        if p < before.len() {
            assert(after[i].name == before[i].name);
            assert(after[j].name == before[j].name);
            assert(before[i].name != before[j].name);
        } else {
            if j < before.len() {
                assert(before[i].name != before[j].name);
            } else {
                assert(before[i].name != name);
            }
        }
    }
    assert forall|i: int| 0 <= i < after.len() implies distinct_tables(
        #[trigger] after[i].tables,
    ) by {
        if i < before.len() {
            assert(after[i].tables == before[i].tables);
            assert(distinct_tables(before[i].tables));
        }
    }
}

/// A statement keeps every name of the catalog distinct: at most one
/// database bears a name, and in each database at most one table.
pub proof fn lemma_apply_keeps_map(c: MyParserView, st: StatementView)
    requires
        is_map(c.databases),
    ensures
        is_map(apply(c, st).databases),
{
    match st {
        StatementView::CreateDatabase(d) => {
            lemma_open_database(c, d.name, Some(d.options));
        },
        StatementView::UseDatabase(u) => {
            lemma_open_database(c, u.name, None);
        },
        _ => {
            match open_index(c) {
                Some(k) => {
                    let before = c.databases;
                    let after = apply(c, st).databases;
                    assert(distinct_tables(before[k].tables));
                    lemma_apply_to_database(before[k], st);
                    assert forall|i: int, j: int|
                        #![trigger after[i], after[j]]
                        0 <= i < j < after.len() implies after[i].name != after[j].name by {
                        assert(after[i].name == before[i].name);
                        assert(after[j].name == before[j].name);
                        assert(before[i].name != before[j].name);
                    }
                    assert forall|i: int| 0 <= i < after.len() implies distinct_tables(
                        #[trigger] after[i].tables,
                    ) by {
                        if i != k {
                            assert(after[i].tables == before[i].tables);
                            assert(distinct_tables(before[i].tables));
                        }
                    }
                },
                None => {},
            }
        },
    }
}

/// Statements applied one after the other keep every name of the catalog
/// distinct.
pub proof fn lemma_apply_all_keeps_map(c: MyParserView, sts: Seq<StatementView>)
    requires
        is_map(c.databases),
    ensures
        is_map(apply_all(c, sts).databases),
    decreases sts.len(),
{
    if sts.len() > 0 {
        lemma_apply_all_keeps_map(c, sts.drop_last());
        lemma_apply_keeps_map(apply_all(c, sts.drop_last()), sts.last());
    }
}

/// The catalog of a dump is a map: whatever the statements, no two of its
/// databases bear the same name, and no two tables of one database.
pub proof fn lemma_catalog_is_map(sts: Seq<StatementView>)
    ensures
        is_map(apply_all(empty_catalog(), sts).databases),
{
    lemma_apply_all_keeps_map(empty_catalog(), sts);
}

} // verus!
