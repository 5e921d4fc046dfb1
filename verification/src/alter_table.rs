use vstd::prelude::*;
use vstd::string::*;
use crate::column::{Column, ColumnView, parse_column, render_column, spec_parse_column};
use crate::error::ParseError;
use crate::index::{Index, IndexView, parse_index, render_index, spec_parse_index};
use crate::lex::{
    CharClass,
    accept_keyword,
    after_word,
    agrees,
    at_char,
    at_keyword,
    expect_keyword,
    finish,
    is_char,
    is_keyword,
    lemma_push_view,
    lemma_remove_view,
    lemma_update_view,
    parse_name,
    parsed,
    run_end,
    scan_run,
    sees_keyword,
    skip_ws,
    spec_expect_keyword,
    spec_parse_name,
};
use crate::table::{
    Table,
    TableView,
    columns_position,
    columns_without,
    find_columns,
    indexes_without,
    remove_columns,
    remove_indexes,
};
use crate::text::{chars_of, join, push_join, push_quoted, quoted};

verus! {

/// One change that an `ALTER TABLE` statement makes.
#[derive(Debug, Clone, PartialEq, Eq)]
pub enum AlterSpec {
    AddColumn(Column),
    AddIndex(Index),
    ModifyColumn(Column),
    DropColumn(String),
    DropIndex(String),
}

/// What a `AlterSpec` holds, with each text as a sequence of characters.
pub enum AlterSpecView {
    AddColumn(ColumnView),
    AddIndex(IndexView),
    ModifyColumn(ColumnView),
    DropColumn(Seq<char>),
    DropIndex(Seq<char>),
}

impl DeepView for AlterSpec {
    type V = AlterSpecView;

    open spec fn deep_view(&self) -> AlterSpecView {
        match *self {
            AlterSpec::AddColumn(c) => AlterSpecView::AddColumn(c.deep_view()),
            AlterSpec::AddIndex(i) => AlterSpecView::AddIndex(i.deep_view()),
            AlterSpec::ModifyColumn(c) => AlterSpecView::ModifyColumn(c.deep_view()),
            AlterSpec::DropColumn(n) => AlterSpecView::DropColumn(n@),
            AlterSpec::DropIndex(n) => AlterSpecView::DropIndex(n@),
        }
    }
}

/// An `ALTER TABLE` statement: the addressed table and the changes, in
/// their order.
#[derive(Debug, Clone, PartialEq, Eq)]
pub struct AlterTable {
    pub table_name: String,
    pub specs: Vec<AlterSpec>,
}

/// What a `AlterTable` holds, with each text as a sequence of characters.
pub struct AlterTableView {
    pub table_name: Seq<char>,
    pub specs: Seq<AlterSpecView>,
}

impl DeepView for AlterTable {
    type V = AlterTableView;

    open spec fn deep_view(&self) -> AlterTableView {
        AlterTableView { table_name: self.table_name@, specs: self.specs.deep_view() }
    }
}

/// Whether the word at `pos` opens an index definition.
pub open spec fn at_index_word(s: Seq<char>, pos: int) -> bool {
    at_keyword(s, pos, "UNIQUE"@) || at_keyword(s, pos, "KEY"@) || at_keyword(s, pos, "INDEX"@)
}

/// Whether the word at `pos` opens an index definition.
pub fn is_index_word(s: &Vec<char>, pos: usize) -> (b: bool)
    requires
        pos <= s@.len(),
    ensures
        b == at_index_word(s@, pos as int),
{
    is_keyword(s, pos, "UNIQUE") || is_keyword(s, pos, "KEY") || is_keyword(s, pos, "INDEX")
}

/// Position after an optional `COLUMN` at `pos`, white space before it
/// included. Where the word does not stand there, nothing is consumed.
pub open spec fn skip_column_word(s: Seq<char>, pos: int) -> int {
    if sees_keyword(s, pos, "COLUMN"@) {
        after_word(s, pos)
    } else {
        pos
    }
}

/// One change at `pos`: `ADD` with an index or, after an optional
/// `COLUMN`, a column definition; `MODIFY` with a column definition;
/// `DROP COLUMN` with a name; `DROP INDEX` or `DROP KEY` with a name.
#[verifier::opaque]
pub open spec fn spec_parse_alter_spec(s: Seq<char>, pos: int) -> Result<
    (AlterSpecView, int),
    ParseError,
> {
    let p: int = skip_ws(s, pos);
    let after: int = run_end(s, p, CharClass::Word);
    let q: int = skip_ws(s, after);
    if at_keyword(s, p, "ADD"@) {
        if at_index_word(s, q) {
            match spec_parse_index(s, after) {
                Err(e) => Err(e),
                Ok((i, end)) => Ok((AlterSpecView::AddIndex(i), end)),
            }
        } else {
            match spec_parse_column(s, skip_column_word(s, after)) {
                Err(e) => Err(e),
                Ok((c, end)) => Ok((AlterSpecView::AddColumn(c), end)),
            }
        }
    } else if at_keyword(s, p, "MODIFY"@) {
        match spec_parse_column(s, skip_column_word(s, after)) {
            Err(e) => Err(e),
            Ok((c, end)) => Ok((AlterSpecView::ModifyColumn(c), end)),
        }
    } else if at_keyword(s, p, "DROP"@) {
        let name_at: int = skip_ws(s, run_end(s, q, CharClass::Word));
        if at_keyword(s, q, "COLUMN"@) {
            match spec_parse_name(s, name_at) {
                Err(e) => Err(e),
                Ok((n, end)) => Ok((AlterSpecView::DropColumn(n), end)),
            }
        } else if at_keyword(s, q, "INDEX"@) || at_keyword(s, q, "KEY"@) {
            match spec_parse_name(s, name_at) {
                Err(e) => Err(e),
                Ok((n, end)) => Ok((AlterSpecView::DropIndex(n), end)),
            }
        } else {
            Err(ParseError::Grammar { position: q as usize })
        }
    } else {
        Err(ParseError::Grammar { position: p as usize })
    }
}

/// Reads at `pos` what `spec_parse_alter_spec` describes.
pub fn parse_alter_spec(s: &Vec<char>, pos: usize) -> (r: Result<(AlterSpec, usize), ParseError>)
    requires
        pos <= s@.len(),
    ensures
        agrees(r, spec_parse_alter_spec(s@, pos as int), pos, s@.len()),
{
    reveal(spec_parse_alter_spec);
    let p: usize = scan_run(s, pos, CharClass::Space);
    let after: usize = scan_run(s, p, CharClass::Word);
    let q: usize = scan_run(s, after, CharClass::Space);
    if is_keyword(s, p, "ADD") {
        if is_index_word(s, q) {
            match parse_index(s, after) {
                Err(e) => Err(e),
                Ok((i, end)) => Ok((AlterSpec::AddIndex(i), end)),
            }
        } else {
            let start: usize = match accept_keyword(s, after, "COLUMN") {
                Some(c) => c,
                None => after,
            };
            match parse_column(s, start) {
                Err(e) => Err(e),
                Ok((c, end)) => Ok((AlterSpec::AddColumn(c), end)),
            }
        }
    } else if is_keyword(s, p, "MODIFY") {
        let start: usize = match accept_keyword(s, after, "COLUMN") {
            Some(c) => c,
            None => after,
        };
        match parse_column(s, start) {
            Err(e) => Err(e),
            Ok((c, end)) => Ok((AlterSpec::ModifyColumn(c), end)),
        }
    } else if is_keyword(s, p, "DROP") {
        let word_end: usize = scan_run(s, q, CharClass::Word);
        let name_at: usize = scan_run(s, word_end, CharClass::Space);
        if is_keyword(s, q, "COLUMN") {
            match parse_name(s, name_at) {
                Err(e) => Err(e),
                Ok((n, end)) => Ok((AlterSpec::DropColumn(n), end)),
            }
        } else if is_keyword(s, q, "INDEX") || is_keyword(s, q, "KEY") {
            match parse_name(s, name_at) {
                Err(e) => Err(e),
                Ok((n, end)) => Ok((AlterSpec::DropIndex(n), end)),
            }
        } else {
            Err(ParseError::Grammar { position: q })
        }
    } else {
        Err(ParseError::Grammar { position: p })
    }
}

/// Changes separated by commas, the first of them at `pos`, added to `acc`
/// in their order.
pub open spec fn spec_parse_alter_specs_from(
    s: Seq<char>,
    pos: int,
    acc: Seq<AlterSpecView>,
) -> Result<(Seq<AlterSpecView>, int), ParseError>
    decreases s.len() - pos,
{
    match spec_parse_alter_spec(s, pos) {
        Err(e) => Err(e),
        Ok((v, p)) => {
            let q: int = skip_ws(s, p);
            if at_char(s, q, ',') && q >= pos {
                spec_parse_alter_specs_from(s, q + 1, acc.push(v))
            } else {
                Ok((acc.push(v), p))
            }
        },
    }
}

/// An `ALTER TABLE` statement at `pos`: `ALTER TABLE`, a table name, and
/// one or more changes separated by commas.
pub open spec fn spec_parse_alter_table(s: Seq<char>, pos: int) -> Result<
    (AlterTableView, int),
    ParseError,
> {
    match spec_expect_keyword(s, pos, "ALTER"@) {
        Err(e) => Err(e),
        Ok(a) => match spec_expect_keyword(s, a, "TABLE"@) {
            Err(e) => Err(e),
            Ok(t) => match spec_parse_name(s, skip_ws(s, t)) {
                Err(e) => Err(e),
                Ok((table_name, n)) => match spec_parse_alter_specs_from(s, n, Seq::empty()) {
                    Err(e) => Err(e),
                    Ok((specs, end)) => Ok((AlterTableView { table_name, specs }, end)),
                },
            },
        },
    }
}

fn parse_alter_specs(s: &Vec<char>, pos: usize) -> (r: Result<(Vec<AlterSpec>, usize), ParseError>)
    requires
        pos <= s@.len(),
    ensures
        agrees(r, spec_parse_alter_specs_from(s@, pos as int, Seq::empty()), pos, s@.len()),
{
    let mut acc: Vec<AlterSpec> = Vec::new();
    let mut cur: usize = pos;
    assert(acc.deep_view() =~= Seq::<AlterSpecView>::empty());
    loop
        invariant
            pos <= cur <= s@.len(),
            spec_parse_alter_specs_from(s@, cur as int, acc.deep_view())
                == spec_parse_alter_specs_from(s@, pos as int, Seq::empty()),
        decreases s@.len() - cur,
    {
        match parse_alter_spec(s, cur) {
            Err(e) => {
                return Err(e);
            },
            Ok((v, p)) => {
                proof {
                    lemma_push_view::<AlterSpec>(acc@, acc@.push(v), v);
                }
                acc.push(v);
                let q: usize = scan_run(s, p, CharClass::Space);
                if is_char(s, q, ',') {
                    cur = q + 1;
                } else {
                    return Ok((acc, p));
                }
            },
        }
    }
}

/// Reads at `pos` what `spec_parse_alter_table` describes.
pub fn parse_alter_table(s: &Vec<char>, pos: usize) -> (r: Result<(AlterTable, usize), ParseError>)
    requires
        pos <= s@.len(),
    ensures
        agrees(r, spec_parse_alter_table(s@, pos as int), pos, s@.len()),
{
    let a: usize = match expect_keyword(s, pos, "ALTER") {
        Err(e) => { return Err(e); },
        Ok(found) => found,
    };
    let t: usize = match expect_keyword(s, a, "TABLE") {
        Err(e) => { return Err(e); },
        Ok(found) => found,
    };
    let start: usize = scan_run(s, t, CharClass::Space);
    let (table_name, n) = match parse_name(s, start) {
        Err(e) => { return Err(e); },
        Ok(found) => found,
    };
    match parse_alter_specs(s, n) {
        Err(e) => Err(e),
        Ok((specs, end)) => Ok((AlterTable { table_name, specs }, end)),
    }
}

/// The table after one change. An added column or index goes to the end of
/// its list; a modified column takes the place of the first column of its
/// name, and changes nothing where there is none; a dropped name removes
/// every column, or index, that bears it.
pub open spec fn alter_one(t: TableView, a: AlterSpecView) -> TableView {
    match a {
        AlterSpecView::AddColumn(c) => TableView { columns: t.columns.push(c), ..t },
        AlterSpecView::AddIndex(i) => TableView { indexes: t.indexes.push(i), ..t },
        AlterSpecView::ModifyColumn(c) => if columns_position(t.columns, c.name, 0)
            < t.columns.len() {
            TableView {
                columns: t.columns.update(columns_position(t.columns, c.name, 0), c),
                ..t
            }
        } else {
            t
        },
        AlterSpecView::DropColumn(n) => TableView { columns: columns_without(t.columns, n), ..t },
        AlterSpecView::DropIndex(n) => TableView { indexes: indexes_without(t.indexes, n), ..t },
    }
}

/// The table after the changes, made in their order.
pub open spec fn alter_all(t: TableView, specs: Seq<AlterSpecView>) -> TableView
    decreases specs.len(),
{
    if specs.len() == 0 {
        t
    } else {
        alter_all(alter_one(t, specs[0]), specs.drop_first())
    }
}

/// The SQL text of one change.
pub open spec fn render_alter_spec(v: AlterSpecView) -> Seq<char> {
    match v {
        AlterSpecView::AddColumn(c) => "ADD COLUMN "@ + render_column(c),
        AlterSpecView::AddIndex(i) => "ADD "@ + render_index(i, ", "@),
        AlterSpecView::ModifyColumn(c) => "MODIFY COLUMN "@ + render_column(c),
        AlterSpecView::DropColumn(n) => "DROP COLUMN "@ + quoted(n, '`'),
        AlterSpecView::DropIndex(n) => "DROP INDEX "@ + quoted(n, '`'),
    }
}

/// The text of each change.
pub open spec fn alter_spec_texts(specs: Seq<AlterSpecView>) -> Seq<Seq<char>> {
    Seq::new(specs.len(), |i: int| render_alter_spec(specs[i]))
}

/// The SQL text of an `ALTER TABLE` statement, without a closing
/// semicolon: the changes in their order, separated by a comma and a
/// blank.
pub open spec fn render_alter_table(v: AlterTableView) -> Seq<char> {
    "ALTER TABLE "@ + quoted(v.table_name, '`') + " "@ + join(alter_spec_texts(v.specs), ", "@)
}

impl AlterSpec {
    /// The SQL text of this change.
    pub fn to_string(&self) -> (r: String)
        ensures
            r@ == render_alter_spec(self.deep_view()),
    {
        let mut out = String::new();
        match self {
            AlterSpec::AddColumn(c) => {
                out.append("ADD COLUMN ");
                c.write(&mut out);
            },
            AlterSpec::AddIndex(i) => {
                out.append("ADD ");
                i.write(&mut out, ", ");
            },
            AlterSpec::ModifyColumn(c) => {
                out.append("MODIFY COLUMN ");
                c.write(&mut out);
            },
            AlterSpec::DropColumn(n) => {
                out.append("DROP COLUMN ");
                push_quoted(&mut out, n, '`');
            },
            AlterSpec::DropIndex(n) => {
                out.append("DROP INDEX ");
                push_quoted(&mut out, n, '`');
            },
        }
        assert(out@ =~= render_alter_spec(self.deep_view()));
        out
    }
}

fn texts_of_alter_specs(specs: &Vec<AlterSpec>) -> (t: Vec<String>)
    ensures
        t.deep_view() == alter_spec_texts(specs.deep_view()),
{
    let ghost views = specs.deep_view();
    let ghost all = alter_spec_texts(views);
    let n: usize = specs.len();
    let mut t: Vec<String> = Vec::new();
    let mut i: usize = 0;
    assert(t.deep_view() =~= all.take(0));
    while i < n
        invariant
            i <= n,
            n == specs@.len(),
            views == specs.deep_view(),
            all == alter_spec_texts(views),
            t.deep_view() == all.take(i as int),
        decreases n - i,
    {
        let text = specs[i].to_string();
        proof {
            lemma_push_view::<String>(t@, t@.push(text), text);
            assert(views[i as int] == specs@[i as int].deep_view());
            assert(all.take(i as int).push(text@) =~= all.take(i + 1));
        }
        t.push(text);
        i += 1;
    }
    assert(all.take(n as int) =~= all);
    t
}

impl AlterTable {
    /// The `ALTER TABLE` statement that `input` starts with.
    pub fn parse(input: &str) -> (r: Result<AlterTable, ParseError>)
        ensures
            parsed(r, spec_parse_alter_table(input@, 0)),
    {
        let s = chars_of(input);
        finish(parse_alter_table(&s, 0))
    }

    /// Appends the SQL text of this statement.
    pub fn write(&self, out: &mut String)
        ensures
            final(out)@ == old(out)@ + render_alter_table(self.deep_view()),
    {
        let t = texts_of_alter_specs(&self.specs);
        out.append("ALTER TABLE ");
        push_quoted(out, &self.table_name, '`');
        out.append(" ");
        push_join(out, &t, ", ");
        assert(out@ =~= old(out)@ + render_alter_table(self.deep_view()));
    }

    /// The SQL text of this statement, without a closing semicolon.
    pub fn to_string(&self) -> (r: String)
        ensures
            r@ == render_alter_table(self.deep_view()),
    {
        let mut out = String::new();
        self.write(&mut out);
        assert(out@ =~= render_alter_table(self.deep_view()));
        out
    }

    /// The SQL text of this statement, closed by a semicolon.
    pub fn as_sql(&self) -> (r: String)
        ensures
            r@ == render_alter_table(self.deep_view()) + ";"@,
    {
        let mut out = String::new();
        self.write(&mut out);
        out.append(";");
        assert(out@ =~= render_alter_table(self.deep_view()) + ";"@);
        out
    }
}

impl Table {
    /// Makes one change to this table.
    pub fn alter(&mut self, spec: AlterSpec)
        ensures
            final(self).deep_view() == alter_one(old(self).deep_view(), spec.deep_view()),
    {
        match spec {
            AlterSpec::AddColumn(c) => {
                proof {
                    lemma_push_view::<Column>(self.columns@, self.columns@.push(c), c);
                }
                self.columns.push(c);
            },
            AlterSpec::AddIndex(i) => {
                proof {
                    lemma_push_view::<Index>(self.indexes@, self.indexes@.push(i), i);
                }
                self.indexes.push(i);
            },
            AlterSpec::ModifyColumn(c) => {
                match find_columns(&self.columns, &c.name) {
                    Some(i) => {
                        proof {
                            lemma_update_view::<Column>(self.columns@, i as int, c);
                            assert(self.columns@.remove(i as int).insert(i as int, c)
                                =~= self.columns@.update(i as int, c));
                        }
                        let _ = self.columns.remove(i);
                        self.columns.insert(i, c);
                    },
                    None => {},
                }
            },
            AlterSpec::DropColumn(n) => {
                remove_columns(&mut self.columns, &n);
            },
            AlterSpec::DropIndex(n) => {
                remove_indexes(&mut self.indexes, &n);
            },
        }
    }

    /// Makes the changes to this table, in their order.
    pub fn alter_all(&mut self, specs: Vec<AlterSpec>)
        ensures
            final(self).deep_view() == alter_all(old(self).deep_view(), specs.deep_view()),
    {
        let mut rest = specs;
        while rest.len() > 0
            invariant
                alter_all(self.deep_view(), rest.deep_view()) == alter_all(
                    old(self).deep_view(),
                    specs.deep_view(),
                ),
            decreases rest@.len(),
        {
            proof {
                lemma_remove_view::<AlterSpec>(rest@, 0);
                assert(rest.deep_view().remove(0) =~= rest.deep_view().drop_first());
                assert(rest.deep_view()[0] == rest@[0].deep_view());
            }
            let first = rest.remove(0);
            self.alter(first);
        }
        assert(rest.deep_view().len() == 0);
    }
}

} // verus!
