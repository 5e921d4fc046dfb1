use vstd::prelude::*;
use vstd::string::*;
use crate::column::{Column, ColumnView};
use crate::create_table::{CreateTable, CreateTableView, empty_table};
use crate::delete::{Delete, DeleteView};
use crate::foreign_key::{ForeignKey, ForeignKeyView};
use crate::index::{Index, IndexView};
use crate::insert::{Insert, InsertView};
use crate::lex::lemma_remove_view;
use crate::primary_key::{PrimaryKey, PrimaryKeyView};
use crate::table_option::{TableOption, TableOptionView};
use crate::update::{Update, UpdateView};

verus! {

/// A table of the catalog: its definition, and the row operations that the
/// dump addressed to it, in their order.
#[derive(Debug, Clone, PartialEq, Eq)]
pub struct Table {
    pub name: String,
    pub columns: Vec<Column>,
    pub primary_key: Option<PrimaryKey>,
    pub foreign_keys: Vec<ForeignKey>,
    pub indexes: Vec<Index>,
    pub options: Vec<TableOption>,
    pub inserts: Vec<Insert>,
    pub updates: Vec<Update>,
    pub deletes: Vec<Delete>,
}

/// What a `Table` holds, with each text as a sequence of characters.
pub struct TableView {
    pub name: Seq<char>,
    pub columns: Seq<ColumnView>,
    pub primary_key: Option<PrimaryKeyView>,
    pub foreign_keys: Seq<ForeignKeyView>,
    pub indexes: Seq<IndexView>,
    pub options: Seq<TableOptionView>,
    pub inserts: Seq<InsertView>,
    pub updates: Seq<UpdateView>,
    pub deletes: Seq<DeleteView>,
}

impl DeepView for Table {
    type V = TableView;

    open spec fn deep_view(&self) -> TableView {
        TableView {
            name: self.name@,
            columns: self.columns.deep_view(),
            primary_key: self.primary_key.deep_view(),
            foreign_keys: self.foreign_keys.deep_view(),
            indexes: self.indexes.deep_view(),
            options: self.options.deep_view(),
            inserts: self.inserts.deep_view(),
            updates: self.updates.deep_view(),
            deletes: self.deletes.deep_view(),
        }
    }
}

/// The table that a `CREATE TABLE` statement defines: its definition, and
/// no row operation.
pub open spec fn table_of(c: CreateTableView) -> TableView {
    TableView {
        name: c.name,
        columns: c.columns,
        primary_key: c.primary_key,
        foreign_keys: c.foreign_keys,
        indexes: c.indexes,
        options: c.options,
        inserts: Seq::empty(),
        updates: Seq::empty(),
        deletes: Seq::empty(),
    }
}

/// Index of the first of `items` that bears `name`, looking from `from`
/// on; the length of `items` where none does.
pub open spec fn columns_position(items: Seq<ColumnView>, name: Seq<char>, from: int) -> int
    decreases items.len() - from,
{
    if from < 0 || from >= items.len() {
        items.len() as int
    } else if items[from].name == name {
        from
    } else {
        columns_position(items, name, from + 1)
    }
}

/// Index of the first of `items` that bears `name`, if any does.
pub fn find_columns(items: &Vec<Column>, name: &String) -> (r: Option<usize>)
    ensures
        match r {
            Some(i) => i < items@.len() && i == columns_position(items.deep_view(), name@, 0),
            None => columns_position(items.deep_view(), name@, 0) == items@.len(),
        },
{
    let ghost views = items.deep_view();
    let n: usize = items.len();
    let mut i: usize = 0;
    while i < n
        invariant
            i <= n,
            n == items@.len(),
            views == items.deep_view(),
            columns_position(views, name@, i as int) == columns_position(views, name@, 0),
        decreases n - i,
    {
        assert(views[i as int] == items@[i as int].deep_view());
        if items[i].name == *name {
            return Some(i);
        }
        i += 1;
    }
    None
}

/// Those of `items` that do not bear `name`, in their order.
pub open spec fn columns_without(items: Seq<ColumnView>, name: Seq<char>) -> Seq<ColumnView>
    decreases items.len(),
{
    if items.len() == 0 {
        items
    } else if items.last().name == name {
        columns_without(items.drop_last(), name)
    } else {
        columns_without(items.drop_last(), name).push(items.last())
    }
}

/// Removes from `items` each one that bears `name`.
pub fn remove_columns(items: &mut Vec<Column>, name: &String)
    ensures
        final(items).deep_view() == columns_without(old(items).deep_view(), name@),
{
    let ghost orig = items.deep_view();
    let mut i: usize = 0;
    let ghost mut j: int = 0;
    assert(items.deep_view().take(0) =~= columns_without(orig.take(0), name@));
    while i < items.len()
        invariant
            orig == old(items).deep_view(),
            0 <= i <= items@.len(),
            i <= j <= orig.len(),
            items@.len() - i == orig.len() - j,
            items.deep_view().take(i as int) == columns_without(orig.take(j), name@),
            forall|k: int|
                0 <= k < items@.len() - i ==> #[trigger] items.deep_view()[i + k] == orig[j + k],
        decreases items@.len() - i,
    {
        let ghost before = items.deep_view();
        assert(before[i + 0] == orig[j + 0]);
        assert(before[i as int] == items@[i as int].deep_view());
        assert(orig.take(j + 1).drop_last() =~= orig.take(j));
        assert(orig.take(j + 1).last() == orig[j]);
        if items[i].name == *name {
            proof {
                lemma_remove_view::<Column>(items@, i as int);
            }
            let _ = items.remove(i);
            proof {
                assert(items.deep_view() == before.remove(i as int));
                assert(items.deep_view().take(i as int) =~= before.take(i as int));
                assert forall|k: int| 0 <= k < items@.len() - i implies #[trigger] items.deep_view()[i
                    + k] == orig[j + 1 + k] by {
                    assert(before[i + (k + 1)] == orig[j + (k + 1)]);
                }
                j = j + 1;
            }
        } else {
            proof {
                assert(before.take(i + 1) =~= before.take(i as int).push(before[i as int]));
                assert forall|k: int| 0 <= k < items@.len() - (i + 1) implies #[trigger] before[i
                    + 1 + k] == orig[j + 1 + k] by {
                    assert(before[i + (k + 1)] == orig[j + (k + 1)]);
                }
                j = j + 1;
            }
            i += 1;
        }
    }
    proof {
        assert(items.deep_view().take(i as int) =~= items.deep_view());
        assert(orig.take(j) =~= orig);
    }
}

/// Index of the first of `items` that bears `name`, looking from `from`
/// on; the length of `items` where none does.
pub open spec fn indexes_position(items: Seq<IndexView>, name: Seq<char>, from: int) -> int
    decreases items.len() - from,
{
    if from < 0 || from >= items.len() {
        items.len() as int
    } else if items[from].name == name {
        from
    } else {
        indexes_position(items, name, from + 1)
    }
}

/// Index of the first of `items` that bears `name`, if any does.
pub fn find_indexes(items: &Vec<Index>, name: &String) -> (r: Option<usize>)
    ensures
        match r {
            Some(i) => i < items@.len() && i == indexes_position(items.deep_view(), name@, 0),
            None => indexes_position(items.deep_view(), name@, 0) == items@.len(),
        },
{
    let ghost views = items.deep_view();
    let n: usize = items.len();
    let mut i: usize = 0;
    while i < n
        invariant
            i <= n,
            n == items@.len(),
            views == items.deep_view(),
            indexes_position(views, name@, i as int) == indexes_position(views, name@, 0),
        decreases n - i,
    {
        assert(views[i as int] == items@[i as int].deep_view());
        if items[i].name == *name {
            return Some(i);
        }
        i += 1;
    }
    None
}

/// Those of `items` that do not bear `name`, in their order.
pub open spec fn indexes_without(items: Seq<IndexView>, name: Seq<char>) -> Seq<IndexView>
    decreases items.len(),
{
    if items.len() == 0 {
        items
    } else if items.last().name == name {
        indexes_without(items.drop_last(), name)
    } else {
        indexes_without(items.drop_last(), name).push(items.last())
    }
}

/// Removes from `items` each one that bears `name`.
pub fn remove_indexes(items: &mut Vec<Index>, name: &String)
    ensures
        final(items).deep_view() == indexes_without(old(items).deep_view(), name@),
{
    let ghost orig = items.deep_view();
    let mut i: usize = 0;
    let ghost mut j: int = 0;
    assert(items.deep_view().take(0) =~= indexes_without(orig.take(0), name@));
    while i < items.len()
        invariant
            orig == old(items).deep_view(),
            0 <= i <= items@.len(),
            i <= j <= orig.len(),
            items@.len() - i == orig.len() - j,
            items.deep_view().take(i as int) == indexes_without(orig.take(j), name@),
            forall|k: int|
                0 <= k < items@.len() - i ==> #[trigger] items.deep_view()[i + k] == orig[j + k],
        decreases items@.len() - i,
    {
        let ghost before = items.deep_view();
        assert(before[i + 0] == orig[j + 0]);
        assert(before[i as int] == items@[i as int].deep_view());
        assert(orig.take(j + 1).drop_last() =~= orig.take(j));
        assert(orig.take(j + 1).last() == orig[j]);
        if items[i].name == *name {
            proof {
                lemma_remove_view::<Index>(items@, i as int);
            }
            let _ = items.remove(i);
            proof {
                assert(items.deep_view() == before.remove(i as int));
                assert(items.deep_view().take(i as int) =~= before.take(i as int));
                assert forall|k: int| 0 <= k < items@.len() - i implies #[trigger] items.deep_view()[i
                    + k] == orig[j + 1 + k] by {
                    assert(before[i + (k + 1)] == orig[j + (k + 1)]);
                }
                j = j + 1;
            }
        } else {
            proof {
                assert(before.take(i + 1) =~= before.take(i as int).push(before[i as int]));
                assert forall|k: int| 0 <= k < items@.len() - (i + 1) implies #[trigger] before[i
                    + 1 + k] == orig[j + 1 + k] by {
                    assert(before[i + (k + 1)] == orig[j + (k + 1)]);
                }
                j = j + 1;
            }
            i += 1;
        }
    }
    proof {
        assert(items.deep_view().take(i as int) =~= items.deep_view());
        assert(orig.take(j) =~= orig);
    }
}

impl Table {
    /// A table with a name and nothing else.
    pub fn new(name: String) -> (t: Table)
        ensures
            t.deep_view() == table_of(empty_table(name@, false)),
    {
        let t = Table {
            name,
            columns: Vec::new(),
            primary_key: None,
            foreign_keys: Vec::new(),
            indexes: Vec::new(),
            options: Vec::new(),
            inserts: Vec::new(),
            updates: Vec::new(),
            deletes: Vec::new(),
        };
        assert(t.columns.deep_view() =~= Seq::<ColumnView>::empty());
        assert(t.foreign_keys.deep_view() =~= Seq::<ForeignKeyView>::empty());
        assert(t.indexes.deep_view() =~= Seq::<IndexView>::empty());
        assert(t.options.deep_view() =~= Seq::<TableOptionView>::empty());
        assert(t.inserts.deep_view() =~= Seq::<InsertView>::empty());
        assert(t.updates.deep_view() =~= Seq::<UpdateView>::empty());
        assert(t.deletes.deep_view() =~= Seq::<DeleteView>::empty());
        t
    }

    /// The table that a `CREATE TABLE` statement defines.
    pub fn from_statement(c: CreateTable) -> (t: Table)
        ensures
            t.deep_view() == table_of(c.deep_view()),
    {
        let t = Table {
            name: c.name,
            columns: c.columns,
            primary_key: c.primary_key,
            foreign_keys: c.foreign_keys,
            indexes: c.indexes,
            options: c.options,
            inserts: Vec::new(),
            updates: Vec::new(),
            deletes: Vec::new(),
        };
        assert(t.inserts.deep_view() =~= Seq::<InsertView>::empty());
        assert(t.updates.deep_view() =~= Seq::<UpdateView>::empty());
        assert(t.deletes.deep_view() =~= Seq::<DeleteView>::empty());
        t
    }
}

} // verus!
