use vstd::prelude::*;
use vstd::string::*;
use crate::alter_table::alter_all;
use crate::assignments::KVPair;
use crate::database::{
    Database,
    DatabaseView,
    databases_position,
    empty_database,
    find_databases,
    find_tables,
    remove_tables,
    tables_position,
    tables_without,
};
use crate::database_option::{DatabaseOption, DatabaseOptionView};
use crate::delete::Delete;
use crate::error::ParseError;
use crate::insert::Insert;
use crate::invariants::{
    is_map,
    lemma_apply_all_keeps_map,
    lemma_apply_keeps_map,
    lemma_catalog_is_map,
};
use crate::lex::{lemma_concat_view, lemma_push_view, lemma_update_view};
use crate::statement::{
    Statement,
    StatementView,
    Step,
    next_statement,
    spec_parse_dump,
    spec_parse_dump_from,
};
use crate::table::{Table, TableView, table_of};
use crate::text::chars_of;
use crate::update::Update;

verus! {

/// The tables with `t` in the place of the first table of its name, or at
/// the end where no table bears that name.
pub open spec fn put_table(tables: Seq<TableView>, t: TableView) -> Seq<TableView> {
    if tables_position(tables, t.name, 0) < tables.len() {
        tables.update(tables_position(tables, t.name, 0), t)
    } else {
        tables.push(t)
    }
}

/// The tables without any that bears one of the names.
pub open spec fn drop_tables(tables: Seq<TableView>, names: Seq<Seq<char>>) -> Seq<TableView>
    decreases names.len(),
{
    if names.len() == 0 {
        tables
    } else {
        drop_tables(tables_without(tables, names[0]), names.drop_first())
    }
}

/// The table that a statement addresses, for the statements that address
/// one existing table.
pub open spec fn addressed_table(st: StatementView) -> Option<Seq<char>> {
    match st {
        StatementView::Insert(i) => Some(i.table_name),
        StatementView::Update(u) => Some(u.table_name),
        StatementView::Delete(d) => Some(d.table_name),
        StatementView::AlterTable(a) => Some(a.table_name),
        _ => None,
    }
}

/// The table after a statement addressed to it: a row operation is added
/// to the end of its list, and never touches the definition; an
/// `ALTER TABLE` makes its changes.
pub open spec fn record(t: TableView, st: StatementView) -> TableView {
    match st {
        StatementView::Insert(i) => TableView { inserts: t.inserts.push(i), ..t },
        StatementView::Update(u) => TableView { updates: t.updates.push(u), ..t },
        StatementView::Delete(d) => TableView { deletes: t.deletes.push(d), ..t },
        StatementView::AlterTable(a) => alter_all(t, a.specs),
        _ => t,
    }
}

/// The tables after a statement that addresses the table `name`: the first
/// table of that name records it; where there is none the statement is
/// dropped.
pub open spec fn record_in(tables: Seq<TableView>, name: Seq<char>, st: StatementView) -> Seq<
    TableView,
> {
    if tables_position(tables, name, 0) < tables.len() {
        tables.update(
            tables_position(tables, name, 0),
            record(tables[tables_position(tables, name, 0)], st),
        )
    } else {
        tables
    }
}

/// The open database after a statement. `CREATE TABLE` puts the table in,
/// in the place of one of the same name if there is one; `DROP TABLE`
/// removes the named tables; `SET` adds its assignments to the variables;
/// the statements that address a table are recorded there.
pub open spec fn apply_to_database(d: DatabaseView, st: StatementView) -> DatabaseView {
    match st {
        StatementView::CreateTable(c) => DatabaseView {
            tables: put_table(d.tables, table_of(c)),
            ..d
        },
        StatementView::DropTable(x) => DatabaseView { tables: drop_tables(d.tables, x.names), ..d },
        StatementView::SetVariables(pairs) => DatabaseView {
            set_variables: d.set_variables + pairs,
            ..d
        },
        StatementView::CreateDatabase(_) => d,
        StatementView::UseDatabase(_) => d,
        _ => match addressed_table(st) {
            Some(name) => DatabaseView { tables: record_in(d.tables, name, st), ..d },
            None => d,
        },
    }
}

/// The state of the fold over a dump: the databases seen so far, in the
/// order in which they were first opened, and the index of the open one.
#[derive(Debug, Clone, PartialEq, Eq)]
pub struct MyParser {
    pub databases: Vec<Database>,
    /// Index in `databases` of the database that statements address. An
    /// index outside the list stands for no open database.
    pub current_database: Option<usize>,
}

/// The state of the fold with each text as a sequence of characters, and the
/// open index as an integer.
pub struct MyParserView {
    pub databases: Seq<DatabaseView>,
    pub current: Option<int>,
}

impl DeepView for MyParser {
    type V = MyParserView;

    open spec fn deep_view(&self) -> MyParserView {
        MyParserView {
            databases: self.databases.deep_view(),
            current: match self.current_database {
                Some(i) => Some(i as int),
                None => None,
            },
        }
    }
}

/// No database, and none open.
pub open spec fn empty_catalog() -> MyParserView {
    MyParserView { databases: Seq::empty(), current: None }
}

/// Index of the open database, if one is open.
pub open spec fn open_index(c: MyParserView) -> Option<int> {
    match c.current {
        Some(i) => if 0 <= i < c.databases.len() {
            Some(i)
        } else {
            None
        },
        None => None,
    }
}

/// The database with the options replaced, where options are given.
pub open spec fn with_options(d: DatabaseView, options: Option<Seq<DatabaseOptionView>>) -> DatabaseView {
    match options {
        Some(o) => DatabaseView { options: o, ..d },
        None => d,
    }
}

/// The state after `name` was opened: the first database of that name
/// becomes the open one and keeps what it holds, or a new, empty one is
/// added at the end. Options that are given replace the database's.
pub open spec fn open_database(
    c: MyParserView,
    name: Seq<char>,
    options: Option<Seq<DatabaseOptionView>>,
) -> MyParserView {
    let i: int = databases_position(c.databases, name, 0);
    if i < c.databases.len() {
        MyParserView {
            databases: c.databases.update(i, with_options(c.databases[i], options)),
            current: Some(i),
        }
    } else {
        MyParserView {
            databases: c.databases.push(with_options(empty_database(name), options)),
            current: Some(c.databases.len() as int),
        }
    }
}

/// The state after one statement. `CREATE DATABASE` and `USE` open a
/// database; every other statement goes to the open database, and is
/// dropped where none is open.
pub open spec fn apply(c: MyParserView, st: StatementView) -> MyParserView {
    match st {
        StatementView::CreateDatabase(d) => open_database(c, d.name, Some(d.options)),
        StatementView::UseDatabase(u) => open_database(c, u.name, None),
        _ => match open_index(c) {
            Some(i) => MyParserView {
                databases: c.databases.update(i, apply_to_database(c.databases[i], st)),
                ..c
            },
            None => c,
        },
    }
}

/// The state after the statements, applied in their order.
pub open spec fn apply_all(c: MyParserView, sts: Seq<StatementView>) -> MyParserView
    decreases sts.len(),
{
    if sts.len() == 0 {
        c
    } else {
        apply(apply_all(c, sts.drop_last()), sts.last())
    }
}

/// Puts `t` back at index `i`, from which it was taken.
fn restore<T: DeepView>(items: &mut Vec<T>, i: usize, t: T, Ghost(before): Ghost<Seq<T>>)
    requires
        i < before.len(),
        old(items)@ == before.remove(i as int),
    ensures
        final(items)@ == before.update(i as int, t),
        final(items).deep_view() == Seq::new(before.len(), |k: int| before[k].deep_view()).update(
            i as int,
            t.deep_view(),
        ),
{
    items.insert(i, t);
    proof {
        assert(items@ =~= before.update(i as int, t));
        lemma_update_view::<T>(before, i as int, t);
    }
}

impl Database {
    /// Puts the table in, in the place of the first table of its name if
    /// there is one, else at the end.
    pub fn put(&mut self, t: Table)
        ensures
            final(self).deep_view() == (DatabaseView {
                tables: put_table(old(self).deep_view().tables, t.deep_view()),
                ..old(self).deep_view()
            }),
    {
        match find_tables(&self.tables, &t.name) {
            Some(i) => {
                let ghost before = self.tables@;
                let _ = self.tables.remove(i);
                restore(&mut self.tables, i, t, Ghost(before));
            },
            None => {
                proof {
                    lemma_push_view::<Table>(self.tables@, self.tables@.push(t), t);
                }
                self.tables.push(t);
            },
        }
    }

    /// Removes every table that bears one of the names.
    pub fn drop_all(&mut self, names: &Vec<String>)
        ensures
            final(self).deep_view() == (DatabaseView {
                tables: drop_tables(old(self).deep_view().tables, names.deep_view()),
                ..old(self).deep_view()
            }),
    {
        let ghost all = names.deep_view();
        let n: usize = names.len();
        let mut i: usize = 0;
        assert(all.skip(0) =~= all);
        while i < n
            invariant
                i <= n,
                n == names@.len(),
                all == names.deep_view(),
                self.name == old(self).name,
                self.options == old(self).options,
                self.set_variables == old(self).set_variables,
                drop_tables(self.tables.deep_view(), all.skip(i as int)) == drop_tables(
                    old(self).tables.deep_view(),
                    all,
                ),
            decreases n - i,
        {
            proof {
                assert(all.skip(i as int)[0] == names@[i as int]@);
                assert(all.skip(i as int).drop_first() =~= all.skip(i + 1));
            }
            remove_tables(&mut self.tables, &names[i]);
            i += 1;
        }
        assert(all.skip(n as int).len() == 0);
    }

    /// Hands a statement that addresses the table `name` to the first
    /// table of that name; drops it where there is none.
    pub fn record(&mut self, name: &String, st: Statement)
        ensures
            final(self).deep_view() == (DatabaseView {
                tables: record_in(old(self).deep_view().tables, name@, st.deep_view()),
                ..old(self).deep_view()
            }),
    {
        match find_tables(&self.tables, name) {
            Some(i) => {
                let ghost before = self.tables@;
                let ghost views = self.tables.deep_view();
                assert(views[i as int] == before[i as int].deep_view());
                let mut t = self.tables.remove(i);
                t.record(st);
                restore(&mut self.tables, i, t, Ghost(before));
            },
            None => {},
        }
    }

    /// Applies a statement to this database.
    pub fn apply(&mut self, st: Statement)
        ensures
            final(self).deep_view() == apply_to_database(old(self).deep_view(), st.deep_view()),
    {
        match st {
            Statement::CreateTable(c) => {
                self.put(Table::from_statement(c));
            },
            Statement::DropTable(x) => {
                self.drop_all(&x.names);
            },
            Statement::SetVariables(v) => {
                let mut pairs = v.kv_pairs;
                proof {
                    lemma_concat_view::<KVPair>(self.set_variables@, pairs@);
                }
                self.set_variables.append(&mut pairs);
            },
            Statement::CreateDatabase(_) => {},
            Statement::UseDatabase(_) => {},
            Statement::Insert(i) => {
                let name = i.table_name.clone();
                self.record(&name, Statement::Insert(i));
            },
            Statement::Update(u) => {
                let name = u.table_name.clone();
                self.record(&name, Statement::Update(u));
            },
            Statement::Delete(d) => {
                let name = d.table_name.clone();
                self.record(&name, Statement::Delete(d));
            },
            Statement::AlterTable(a) => {
                let name = a.table_name.clone();
                self.record(&name, Statement::AlterTable(a));
            },
        }
    }
}

impl Table {
    /// Records a statement addressed to this table: a row operation is
    /// added to its list, an `ALTER TABLE` makes its changes. Any other
    /// statement changes nothing.
    pub fn record(&mut self, st: Statement)
        ensures
            final(self).deep_view() == record(old(self).deep_view(), st.deep_view()),
    {
        match st {
            Statement::Insert(i) => {
                proof {
                    lemma_push_view::<Insert>(self.inserts@, self.inserts@.push(i), i);
                }
                self.inserts.push(i);
            },
            Statement::Update(u) => {
                proof {
                    lemma_push_view::<Update>(self.updates@, self.updates@.push(u), u);
                }
                self.updates.push(u);
            },
            Statement::Delete(d) => {
                proof {
                    lemma_push_view::<Delete>(self.deletes@, self.deletes@.push(d), d);
                }
                self.deletes.push(d);
            },
            Statement::AlterTable(a) => {
                self.alter_all(a.specs);
            },
            _ => {},
        }
    }
}

impl MyParser {
    /// The state before any statement: no database, and none open.
    pub fn new() -> (p: MyParser)
        ensures
            p.deep_view() == empty_catalog(),
    {
        let p = MyParser { databases: Vec::new(), current_database: None };
        assert(p.databases.deep_view() =~= Seq::<DatabaseView>::empty());
        p
    }

    /// The databases seen so far, in the order in which they were first
    /// opened.
    pub fn get_databases(&self) -> (d: &Vec<Database>)
        ensures
            d == &self.databases,
    {
        &self.databases
    }

    /// Opens the database `name`: the first of that name if there is one,
    /// else a new one at the end. Options that are given replace the
    /// database's.
    pub fn open(&mut self, name: String, options: Option<Vec<DatabaseOption>>)
        ensures
            final(self).deep_view() == open_database(
                old(self).deep_view(),
                name@,
                options.deep_view(),
            ),
    {
        match find_databases(&self.databases, &name) {
            Some(i) => {
                let ghost before = self.databases@;
                let ghost views = self.databases.deep_view();
                assert(views[i as int] == before[i as int].deep_view());
                let mut db = self.databases.remove(i);
                match options {
                    Some(o) => {
                        db.options = o;
                    },
                    None => {},
                }
                restore(&mut self.databases, i, db, Ghost(before));
                self.current_database = Some(i);
            },
            None => {
                let mut db = Database::new(name);
                match options {
                    Some(o) => {
                        db.options = o;
                    },
                    None => {},
                }
                let at: usize = self.databases.len();
                proof {
                    lemma_push_view::<Database>(self.databases@, self.databases@.push(db), db);
                }
                self.databases.push(db);
                self.current_database = Some(at);
            },
        }
    }

    /// Applies one statement to the state. Names that were distinct stay
    /// distinct.
    pub fn apply(&mut self, st: Statement)
        ensures
            final(self).deep_view() == apply(old(self).deep_view(), st.deep_view()),
            is_map(old(self).deep_view().databases) ==> is_map(final(self).deep_view().databases),
    {
        proof {
            if is_map(self.deep_view().databases) {
                lemma_apply_keeps_map(self.deep_view(), st.deep_view());
            }
        }
        match st {
            Statement::CreateDatabase(d) => {
                self.open(d.name, Some(d.options));
            },
            Statement::UseDatabase(u) => {
                self.open(u.name, None);
            },
            other => {
                match self.current_database {
                    Some(i) => {
                        if i < self.databases.len() {
                            let ghost before = self.databases@;
                            let ghost views = self.databases.deep_view();
                            assert(views[i as int] == before[i as int].deep_view());
                            let mut db = self.databases.remove(i);
                            db.apply(other);
                            restore(&mut self.databases, i, db, Ghost(before));
                        }
                    },
                    None => {},
                }
            },
        }
    }

    /// Applies the statements of `input` to the state, in their order. The
    /// text is read to its end; the first statement that cannot be read
    /// ends the work with its error.
    pub fn parse(self, input: &str) -> (r: Result<MyParser, ParseError>)
        ensures
            match spec_parse_dump(input@) {
                Err(e) => r == Err::<MyParser, ParseError>(e),
                Ok(sts) => r is Ok && r->Ok_0.deep_view() == apply_all(self.deep_view(), sts),
            },
            is_map(self.deep_view().databases) && r is Ok ==> is_map(
                r->Ok_0.deep_view().databases,
            ),
    {
        proof {
            if is_map(self.deep_view().databases) && spec_parse_dump(input@) is Ok {
                lemma_apply_all_keeps_map(self.deep_view(), spec_parse_dump(input@)->Ok_0);
            }
        }
        let s = chars_of(input);
        let ghost start = self.deep_view();
        let mut state = self;
        let ghost mut acc: Seq<StatementView> = Seq::empty();
        let mut cur: usize = 0;
        loop
            invariant
                cur <= s@.len(),
                s@ == input@,
                start == self.deep_view(),
                spec_parse_dump_from(s@, cur as int, acc) == spec_parse_dump(s@),
                state.deep_view() == apply_all(start, acc),
                is_map(start.databases) && spec_parse_dump(s@) is Ok ==> is_map(
                    apply_all(start, spec_parse_dump(s@)->Ok_0).databases,
                ),
            decreases s@.len() - cur,
        {
            match next_statement(&s, cur) {
                Err(e) => {
                    return Err(e);
                },
                Ok(Step::End) => {
                    return Ok(state);
                },
                Ok(Step::Found(st, next)) => {
                    proof {
                        assert(acc.push(st.deep_view()).drop_last() =~= acc);
                        acc = acc.push(st.deep_view());
                    }
                    state.apply(st);
                    cur = next;
                },
            }
        }
    }
}

/// The databases that a dump describes, in the order in which they were
/// first opened. No two of them bear the same name, and no two tables of
/// one database.
pub fn parse_mysqldump(input: &str) -> (r: Result<Vec<Database>, ParseError>)
    ensures
        match spec_parse_dump(input@) {
            Err(e) => r == Err::<Vec<Database>, ParseError>(e),
            Ok(sts) => r is Ok && r->Ok_0.deep_view() == apply_all(empty_catalog(), sts).databases,
        },
        r is Ok ==> is_map(r->Ok_0.deep_view()),
{
    proof {
        if spec_parse_dump(input@) is Ok {
            lemma_catalog_is_map(spec_parse_dump(input@)->Ok_0);
        }
    }
    match MyParser::new().parse(input) {
        Err(e) => Err(e),
        Ok(state) => Ok(state.databases),
    }
}

} // verus!
