use vstd::prelude::*;
use vstd::string::*;
use crate::assignments::{KVPair, KVPairView};
use crate::database_option::{DatabaseOption, DatabaseOptionView};
use crate::lex::lemma_remove_view;
use crate::table::{Table, TableView};

verus! {

/// A database of the catalog: its tables in the order of their creation,
/// its options, and the variables that `SET` statements assigned while it
/// was open.
#[derive(Debug, Clone, PartialEq, Eq)]
pub struct Database {
    pub name: String,
    pub tables: Vec<Table>,
    pub options: Vec<DatabaseOption>,
    pub set_variables: Vec<KVPair>,
}

/// What a `Database` holds, with each text as a sequence of characters.
pub struct DatabaseView {
    pub name: Seq<char>,
    pub tables: Seq<TableView>,
    pub options: Seq<DatabaseOptionView>,
    pub set_variables: Seq<KVPairView>,
}

impl DeepView for Database {
    type V = DatabaseView;

    open spec fn deep_view(&self) -> DatabaseView {
        DatabaseView {
            name: self.name@,
            tables: self.tables.deep_view(),
            options: self.options.deep_view(),
            set_variables: self.set_variables.deep_view(),
        }
    }
}

/// A database with a name and nothing else.
pub open spec fn empty_database(name: Seq<char>) -> DatabaseView {
    DatabaseView {
        name,
        tables: Seq::empty(),
        options: Seq::empty(),
        set_variables: Seq::empty(),
    }
}

/// Index of the first of `items` that bears `name`, looking from `from`
/// on; the length of `items` where none does.
pub open spec fn tables_position(items: Seq<TableView>, name: Seq<char>, from: int) -> int
    decreases items.len() - from,
{
    if from < 0 || from >= items.len() {
        items.len() as int
    } else if items[from].name == name {
        from
    } else {
        tables_position(items, name, from + 1)
    }
}

/// Index of the first of `items` that bears `name`, if any does.
pub fn find_tables(items: &Vec<Table>, name: &String) -> (r: Option<usize>)
    ensures
        match r {
            Some(i) => i < items@.len() && i == tables_position(items.deep_view(), name@, 0),
            None => tables_position(items.deep_view(), name@, 0) == items@.len(),
        },
{
    let ghost views = items.deep_view();
    let n: usize = items.len();
    let mut i: usize = 0;
    while i < n
        invariant
            i <= n,
            n == items@.len(),
            views == items.deep_view(),
            tables_position(views, name@, i as int) == tables_position(views, name@, 0),
        decreases n - i,
    {
        assert(views[i as int] == items@[i as int].deep_view());
        if items[i].name == *name {
            return Some(i);
        }
        i += 1;
    }
    None
}

/// Those of `items` that do not bear `name`, in their order.
pub open spec fn tables_without(items: Seq<TableView>, name: Seq<char>) -> Seq<TableView>
    decreases items.len(),
{
    if items.len() == 0 {
        items
    } else if items.last().name == name {
        tables_without(items.drop_last(), name)
    } else {
        tables_without(items.drop_last(), name).push(items.last())
    }
}

/// Removes from `items` each one that bears `name`.
pub fn remove_tables(items: &mut Vec<Table>, name: &String)
    ensures
        final(items).deep_view() == tables_without(old(items).deep_view(), name@),
{
    let ghost orig = items.deep_view();
    let mut i: usize = 0;
    let ghost mut j: int = 0;
    assert(items.deep_view().take(0) =~= tables_without(orig.take(0), name@));
    while i < items.len()
        invariant
            orig == old(items).deep_view(),
            0 <= i <= items@.len(),
            i <= j <= orig.len(),
            items@.len() - i == orig.len() - j,
            items.deep_view().take(i as int) == tables_without(orig.take(j), name@),
            forall|k: int|
                0 <= k < items@.len() - i ==> #[trigger] items.deep_view()[i + k] == orig[j + k],
        decreases items@.len() - i,
    {
        let ghost before = items.deep_view();
        assert(before[i + 0] == orig[j + 0]);
        assert(before[i as int] == items@[i as int].deep_view());
        assert(orig.take(j + 1).drop_last() =~= orig.take(j));
        assert(orig.take(j + 1).last() == orig[j]);
        if items[i].name == *name {
            proof {
                lemma_remove_view::<Table>(items@, i as int);
            }
            let _ = items.remove(i);
            proof {
                assert(items.deep_view() == before.remove(i as int));
                assert(items.deep_view().take(i as int) =~= before.take(i as int));
                assert forall|k: int| 0 <= k < items@.len() - i implies #[trigger] items.deep_view()[i
                    + k] == orig[j + 1 + k] by {
                    assert(before[i + (k + 1)] == orig[j + (k + 1)]);
                }
                j = j + 1;
            }
        } else {
            proof {
                assert(before.take(i + 1) =~= before.take(i as int).push(before[i as int]));
                assert forall|k: int| 0 <= k < items@.len() - (i + 1) implies #[trigger] before[i
                    + 1 + k] == orig[j + 1 + k] by {
                    assert(before[i + (k + 1)] == orig[j + (k + 1)]);
                }
                j = j + 1;
            }
            i += 1;
        }
    }
    proof {
        assert(items.deep_view().take(i as int) =~= items.deep_view());
        assert(orig.take(j) =~= orig);
    }
}

/// Index of the first of `items` that bears `name`, looking from `from`
/// on; the length of `items` where none does.
pub open spec fn databases_position(items: Seq<DatabaseView>, name: Seq<char>, from: int) -> int
    decreases items.len() - from,
{
    if from < 0 || from >= items.len() {
        items.len() as int
    } else if items[from].name == name {
        from
    } else {
        databases_position(items, name, from + 1)
    }
}

/// Index of the first of `items` that bears `name`, if any does.
pub fn find_databases(items: &Vec<Database>, name: &String) -> (r: Option<usize>)
    ensures
        match r {
            Some(i) => i < items@.len() && i == databases_position(items.deep_view(), name@, 0),
            None => databases_position(items.deep_view(), name@, 0) == items@.len(),
        },
{
    let ghost views = items.deep_view();
    let n: usize = items.len();
    let mut i: usize = 0;
    while i < n
        invariant
            i <= n,
            n == items@.len(),
            views == items.deep_view(),
            databases_position(views, name@, i as int) == databases_position(views, name@, 0),
        decreases n - i,
    {
        assert(views[i as int] == items@[i as int].deep_view());
        if items[i].name == *name {
            return Some(i);
        }
        i += 1;
    }
    None
}

/// Those of `items` that do not bear `name`, in their order.
pub open spec fn databases_without(items: Seq<DatabaseView>, name: Seq<char>) -> Seq<DatabaseView>
    decreases items.len(),
{
    if items.len() == 0 {
        items
    } else if items.last().name == name {
        databases_without(items.drop_last(), name)
    } else {
        databases_without(items.drop_last(), name).push(items.last())
    }
}

/// Removes from `items` each one that bears `name`.
pub fn remove_databases(items: &mut Vec<Database>, name: &String)
    ensures
        final(items).deep_view() == databases_without(old(items).deep_view(), name@),
{
    let ghost orig = items.deep_view();
    let mut i: usize = 0;
    let ghost mut j: int = 0;
    assert(items.deep_view().take(0) =~= databases_without(orig.take(0), name@));
    while i < items.len()
        invariant
            orig == old(items).deep_view(),
            0 <= i <= items@.len(),
            i <= j <= orig.len(),
            items@.len() - i == orig.len() - j,
            items.deep_view().take(i as int) == databases_without(orig.take(j), name@),
            forall|k: int|
                0 <= k < items@.len() - i ==> #[trigger] items.deep_view()[i + k] == orig[j + k],
        decreases items@.len() - i,
    {
        let ghost before = items.deep_view();
        assert(before[i + 0] == orig[j + 0]);
        assert(before[i as int] == items@[i as int].deep_view());
        assert(orig.take(j + 1).drop_last() =~= orig.take(j));
        assert(orig.take(j + 1).last() == orig[j]);
        if items[i].name == *name {
            proof {
                lemma_remove_view::<Database>(items@, i as int);
            }
            let _ = items.remove(i);
            proof {
                assert(items.deep_view() == before.remove(i as int));
                assert(items.deep_view().take(i as int) =~= before.take(i as int));
                assert forall|k: int| 0 <= k < items@.len() - i implies #[trigger] items.deep_view()[i
                    + k] == orig[j + 1 + k] by {
                    assert(before[i + (k + 1)] == orig[j + (k + 1)]);
                }
                j = j + 1;
            }
        } else {
            proof {
                assert(before.take(i + 1) =~= before.take(i as int).push(before[i as int]));
                assert forall|k: int| 0 <= k < items@.len() - (i + 1) implies #[trigger] before[i
                    + 1 + k] == orig[j + 1 + k] by {
                    assert(before[i + (k + 1)] == orig[j + (k + 1)]);
                }
                j = j + 1;
            }
            i += 1;
        }
    }
    proof {
        assert(items.deep_view().take(i as int) =~= items.deep_view());
        assert(orig.take(j) =~= orig);
    }
}

impl Database {
    /// A database with a name and nothing else.
    pub fn new(name: String) -> (d: Database)
        ensures
            d.deep_view() == empty_database(name@),
    {
        let d = Database {
            name,
            tables: Vec::new(),
            options: Vec::new(),
            set_variables: Vec::new(),
        };
        assert(d.tables.deep_view() =~= Seq::<TableView>::empty());
        assert(d.options.deep_view() =~= Seq::<DatabaseOptionView>::empty());
        assert(d.set_variables.deep_view() =~= Seq::<KVPairView>::empty());
        d
    }

    /// The table of that name, if the database holds one.
    pub fn get_table(&self, name: &str) -> (r: Option<&Table>)
        ensures
            match r {
                Some(t) => tables_position(self.deep_view().tables, name@, 0)
                    < self.tables@.len() && t.deep_view() == self.deep_view().tables[tables_position(
                    self.deep_view().tables,
                    name@,
                    0,
                )],
                None => tables_position(self.deep_view().tables, name@, 0) == self.tables@.len(),
            },
    {
        let key = name.to_owned();
        match find_tables(&self.tables, &key) {
            Some(i) => {
                assert(self.deep_view().tables[i as int] == self.tables@[i as int].deep_view());
                Some(&self.tables[i])
            },
            None => None,
        }
    }
}

} // verus!
