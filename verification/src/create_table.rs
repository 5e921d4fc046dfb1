use vstd::prelude::*;
use vstd::string::*;
use crate::column::{Column, ColumnView, parse_column, render_column, spec_parse_column};
use crate::data_type::{render_flag, write_flag};
use crate::drop_table::{parse_if_not_exists, spec_parse_if_not_exists};
use crate::error::ParseError;
use crate::foreign_key::{
    ForeignKey,
    ForeignKeyView,
    parse_foreign_key,
    render_foreign_key,
    spec_parse_foreign_key,
};
use crate::index::{Index, IndexView, parse_index, render_index, spec_parse_index};
use crate::lex::{
    CharClass,
    accept_keyword,
    agrees,
    at_char,
    at_keyword,
    expect_char,
    expect_keyword,
    finish,
    is_char,
    is_keyword,
    lemma_push_view,
    parse_name,
    parsed,
    scan_run,
    sees_keyword,
    skip_ws,
    spec_expect_char,
    spec_expect_keyword,
    spec_parse_name,
};
use crate::primary_key::{
    PrimaryKey,
    PrimaryKeyView,
    parse_constraint_name,
    parse_primary_key,
    render_primary_key,
    spec_parse_constraint_name,
    spec_parse_primary_key,
};
use crate::table_option::{
    TableOption,
    TableOptionView,
    parse_table_options,
    render_table_options,
    spec_parse_table_options,
    write_table_options,
};
use crate::text::{
    chars_of,
    join,
    join_after,
    lemma_append,
    lemma_join_concat,
    push_join,
    push_quoted,
    quoted,
};

verus! {

/// A `CREATE TABLE` statement: columns, keys and indexes in their source
/// order within each kind, and the table options.
#[derive(Debug, Clone, PartialEq, Eq)]
pub struct CreateTable {
    pub name: String,
    pub if_not_exists: bool,
    pub columns: Vec<Column>,
    pub primary_key: Option<PrimaryKey>,
    pub foreign_keys: Vec<ForeignKey>,
    pub indexes: Vec<Index>,
    pub options: Vec<TableOption>,
}

/// What a `CreateTable` holds, with each text as a sequence of characters.
pub struct CreateTableView {
    pub name: Seq<char>,
    pub if_not_exists: bool,
    pub columns: Seq<ColumnView>,
    pub primary_key: Option<PrimaryKeyView>,
    pub foreign_keys: Seq<ForeignKeyView>,
    pub indexes: Seq<IndexView>,
    pub options: Seq<TableOptionView>,
}

impl DeepView for CreateTable {
    type V = CreateTableView;

    open spec fn deep_view(&self) -> CreateTableView {
        CreateTableView {
            name: self.name@,
            if_not_exists: self.if_not_exists,
            columns: self.columns.deep_view(),
            primary_key: self.primary_key.deep_view(),
            foreign_keys: self.foreign_keys.deep_view(),
            indexes: self.indexes.deep_view(),
            options: self.options.deep_view(),
        }
    }
}

/// A table with a name and nothing else.
pub open spec fn empty_table(name: Seq<char>, if_not_exists: bool) -> CreateTableView {
    CreateTableView {
        name,
        if_not_exists,
        columns: Seq::empty(),
        primary_key: None,
        foreign_keys: Seq::empty(),
        indexes: Seq::empty(),
        options: Seq::empty(),
    }
}

/// The text of each column.
pub open spec fn column_texts(columns: Seq<ColumnView>) -> Seq<Seq<char>> {
    Seq::new(columns.len(), |i: int| render_column(columns[i]))
}

/// The text of the primary key, if there is one.
pub open spec fn primary_key_texts(key: Option<PrimaryKeyView>, sep: Seq<char>) -> Seq<Seq<char>> {
    match key {
        Some(k) => seq![render_primary_key(k, sep)],
        None => Seq::empty(),
    }
}

/// The text of each foreign key.
pub open spec fn foreign_key_texts(keys: Seq<ForeignKeyView>, sep: Seq<char>) -> Seq<Seq<char>> {
    Seq::new(keys.len(), |i: int| render_foreign_key(keys[i], sep))
}

/// The text of each index.
pub open spec fn index_texts(indexes: Seq<IndexView>, sep: Seq<char>) -> Seq<Seq<char>> {
    Seq::new(indexes.len(), |i: int| render_index(indexes[i], sep))
}

/// The texts of what stands after the columns between the parentheses of
/// the statement: the primary key, the foreign keys, the indexes.
pub open spec fn key_texts(v: CreateTableView, sep: Seq<char>) -> Seq<Seq<char>> {
    primary_key_texts(v.primary_key, sep) + foreign_key_texts(v.foreign_keys, sep) + index_texts(
        v.indexes,
        sep,
    )
}

/// The texts of all that stands between the parentheses of the statement:
/// the columns first, then the keys.
pub open spec fn table_spec_texts(v: CreateTableView, sep: Seq<char>) -> Seq<Seq<char>> {
    column_texts(v.columns) + key_texts(v, sep)
}

/// What stands before the first definition: the keywords, the name, and
/// the opening parenthesis.
pub open spec fn render_table_head(v: CreateTableView) -> Seq<char> {
    "CREATE TABLE"@ + render_flag(v.if_not_exists, " IF NOT EXISTS"@) + " "@ + quoted(v.name, '`')
        + " (\n  "@
}

/// The SQL text of a `CREATE TABLE` statement, without a closing
/// semicolon. Each definition stands on a line of its own; `sep` separates
/// the column names inside a key or an index.
pub open spec fn render_create_table(v: CreateTableView, sep: Seq<char>) -> Seq<char> {
    render_table_head(v) + join(table_spec_texts(v, sep), ",\n  "@) + "\n)"@
        + render_table_options(v.options)
}

/// In the text of a `CREATE TABLE` statement with at least one column, the
/// texts of the columns stand first between the parentheses, each once and
/// in the stored order, separated by a comma and a line break; the texts
/// of the primary key, the foreign keys and the indexes all stand after
/// the last column.
pub proof fn lemma_columns_come_first(v: CreateTableView, sep: Seq<char>)
    requires
        v.columns.len() > 0,
    ensures
        render_create_table(v, sep) == render_table_head(v) + join(
            column_texts(v.columns),
            ",\n  "@,
        ) + join_after(key_texts(v, sep), ",\n  "@) + "\n)"@ + render_table_options(v.options),
        column_texts(v.columns).len() == v.columns.len(),
        forall|i: int|
            0 <= i < v.columns.len() ==> #[trigger] column_texts(v.columns)[i] == render_column(
                v.columns[i],
            ),
{
    lemma_join_concat(column_texts(v.columns), key_texts(v, sep), ",\n  "@);
    let cols = join(column_texts(v.columns), ",\n  "@);
    let keys = join_after(key_texts(v, sep), ",\n  "@);
    assert(render_table_head(v) + (cols + keys) =~= render_table_head(v) + cols + keys);
}

/// One definition at `pos`, added to `t`: a primary key, a foreign key, an
/// index or a column, told apart by the first word. After `CONSTRAINT` and
/// a name, `PRIMARY` opens a primary key and anything else is read as a
/// foreign key.
#[verifier::opaque]
pub open spec fn spec_parse_table_spec(s: Seq<char>, pos: int, t: CreateTableView) -> Result<
    (CreateTableView, int),
    ParseError,
> {
    let p: int = skip_ws(s, pos);
    let primary: bool = at_keyword(s, p, "PRIMARY"@) || (at_keyword(s, p, "CONSTRAINT"@) && (
    match spec_parse_constraint_name(s, pos) {
        Ok((_, q)) => sees_keyword(s, q, "PRIMARY"@),
        Err(_) => false,
    }));
    if primary {
        match spec_parse_primary_key(s, pos) {
            Err(e) => Err(e),
            Ok((k, end)) => Ok((CreateTableView { primary_key: Some(k), ..t }, end)),
        }
    } else if at_keyword(s, p, "FOREIGN"@) || at_keyword(s, p, "CONSTRAINT"@) {
        match spec_parse_foreign_key(s, pos) {
            Err(e) => Err(e),
            Ok((k, end)) => Ok(
                (CreateTableView { foreign_keys: t.foreign_keys.push(k), ..t }, end),
            ),
        }
    } else if at_keyword(s, p, "UNIQUE"@) || at_keyword(s, p, "KEY"@) || at_keyword(
        s,
        p,
        "INDEX"@,
    ) {
        match spec_parse_index(s, pos) {
            Err(e) => Err(e),
            Ok((i, end)) => Ok((CreateTableView { indexes: t.indexes.push(i), ..t }, end)),
        }
    } else {
        match spec_parse_column(s, pos) {
            Err(e) => Err(e),
            Ok((c, end)) => Ok((CreateTableView { columns: t.columns.push(c), ..t }, end)),
        }
    }
}

/// How the outcome of one executable definition step stands to the
/// grammar's.
pub open spec fn table_spec_agrees(
    r: Result<usize, ParseError>,
    after: CreateTableView,
    e: Result<(CreateTableView, int), ParseError>,
    from: usize,
    len: nat,
) -> bool {
    match (r, e) {
        (Ok(n), Ok((v, q))) => n as int == q && after == v && from <= n <= len,
        (Err(a), Err(b)) => a == b,
        _ => false,
    }
}

/// Reads one definition at `pos` and adds it to `t`.
pub fn parse_table_spec(s: &Vec<char>, pos: usize, t: &mut CreateTable) -> (r: Result<
    usize,
    ParseError,
>)
    requires
        pos <= s@.len(),
    ensures
        table_spec_agrees(
            r,
            final(t).deep_view(),
            spec_parse_table_spec(s@, pos as int, old(t).deep_view()),
            pos,
            s@.len(),
        ),
{
    reveal(spec_parse_table_spec);
    let p: usize = scan_run(s, pos, CharClass::Space);
    let named: bool = is_keyword(s, p, "CONSTRAINT");
    let mut primary: bool = is_keyword(s, p, "PRIMARY");
    if !primary && named {
        match parse_constraint_name(s, pos) {
            Ok((_, q)) => {
                primary = accept_keyword(s, q, "PRIMARY").is_some();
            },
            Err(_) => {},
        }
    }
    if primary {
        match parse_primary_key(s, pos) {
            Err(e) => Err(e),
            Ok((k, end)) => {
                t.primary_key = Some(k);
                Ok(end)
            },
        }
    } else if named || is_keyword(s, p, "FOREIGN") {
        match parse_foreign_key(s, pos) {
            Err(e) => Err(e),
            Ok((k, end)) => {
                proof {
                    lemma_push_view::<ForeignKey>(t.foreign_keys@, t.foreign_keys@.push(k), k);
                }
                t.foreign_keys.push(k);
                Ok(end)
            },
        }
    } else if is_keyword(s, p, "UNIQUE") || is_keyword(s, p, "KEY") || is_keyword(s, p, "INDEX") {
        match parse_index(s, pos) {
            Err(e) => Err(e),
            Ok((i, end)) => {
                proof {
                    lemma_push_view::<Index>(t.indexes@, t.indexes@.push(i), i);
                }
                t.indexes.push(i);
                Ok(end)
            },
        }
    } else {
        match parse_column(s, pos) {
            Err(e) => Err(e),
            Ok((c, end)) => {
                proof {
                    lemma_push_view::<Column>(t.columns@, t.columns@.push(c), c);
                }
                t.columns.push(c);
                Ok(end)
            },
        }
    }
}

/// Definitions separated by commas, the first of them at `pos`, added to
/// `t` in their order.
pub open spec fn spec_parse_table_specs_from(s: Seq<char>, pos: int, t: CreateTableView) -> Result<
    (CreateTableView, int),
    ParseError,
>
    decreases s.len() - pos,
{
    match spec_parse_table_spec(s, pos, t) {
        Err(e) => Err(e),
        Ok((next, p)) => {
            let q: int = skip_ws(s, p);
            if at_char(s, q, ',') && q >= pos {
                spec_parse_table_specs_from(s, q + 1, next)
            } else {
                Ok((next, p))
            }
        },
    }
}

/// What follows the table's name: the definitions between parentheses, and
/// the table options.
pub open spec fn spec_parse_table_body(s: Seq<char>, pos: int, t: CreateTableView) -> Result<
    (CreateTableView, int),
    ParseError,
> {
    match spec_expect_char(s, pos, '(') {
        Err(e) => Err(e),
        Ok(open) => match spec_parse_table_specs_from(s, open, t) {
            Err(e) => Err(e),
            Ok((filled, p)) => match spec_expect_char(s, p, ')') {
                Err(e) => Err(e),
                Ok(close) => match spec_parse_table_options(s, close) {
                    Err(e) => Err(e),
                    Ok((options, end)) => Ok((CreateTableView { options, ..filled }, end)),
                },
            },
        },
    }
}

/// A `CREATE TABLE` statement at `pos`: `CREATE TABLE`, an optional
/// `IF NOT EXISTS`, a name, and the body.
pub open spec fn spec_parse_create_table(s: Seq<char>, pos: int) -> Result<
    (CreateTableView, int),
    ParseError,
> {
    match spec_expect_keyword(s, pos, "CREATE"@) {
        Err(e) => Err(e),
        Ok(c) => match spec_expect_keyword(s, c, "TABLE"@) {
            Err(e) => Err(e),
            Ok(t) => match spec_parse_if_not_exists(s, t) {
                Err(e) => Err(e),
                Ok((if_not_exists, p)) => match spec_parse_name(s, skip_ws(s, p)) {
                    Err(e) => Err(e),
                    Ok((name, n)) => spec_parse_table_body(s, n, empty_table(name, if_not_exists)),
                },
            },
        },
    }
}

fn parse_table_body(s: &Vec<char>, pos: usize, t: CreateTable) -> (r: Result<
    (CreateTable, usize),
    ParseError,
>)
    requires
        pos <= s@.len(),
    ensures
        agrees(r, spec_parse_table_body(s@, pos as int, t.deep_view()), pos, s@.len()),
{
    let ghost first = t.deep_view();
    let mut table = t;
    let open: usize = match expect_char(s, pos, '(') {
        Err(e) => { return Err(e); },
        Ok(found) => found,
    };
    let mut cur: usize = open;
    loop
        invariant
            pos <= open <= cur <= s@.len(),
            first == t.deep_view(),
            spec_expect_char(s@, pos as int, '(') == Ok::<int, ParseError>(open as int),
            spec_parse_table_specs_from(s@, cur as int, table.deep_view())
                == spec_parse_table_specs_from(s@, open as int, first),
        decreases s@.len() - cur,
    {
        match parse_table_spec(s, cur, &mut table) {
            Err(e) => {
                return Err(e);
            },
            Ok(p) => {
                let q: usize = scan_run(s, p, CharClass::Space);
                if is_char(s, q, ',') {
                    cur = q + 1;
                } else {
                    let close: usize = match expect_char(s, p, ')') {
                        Err(e) => { return Err(e); },
                        Ok(found) => found,
                    };
                    return match parse_table_options(s, close) {
                        Err(e) => Err(e),
                        Ok((options, end)) => {
                            table.options = options;
                            Ok((table, end))
                        },
                    };
                }
            },
        }
    }
}

/// Reads at `pos` what `spec_parse_create_table` describes.
pub fn parse_create_table(s: &Vec<char>, pos: usize) -> (r: Result<
    (CreateTable, usize),
    ParseError,
>)
    requires
        pos <= s@.len(),
    ensures
        agrees(r, spec_parse_create_table(s@, pos as int), pos, s@.len()),
{
    let c: usize = match expect_keyword(s, pos, "CREATE") {
        Err(e) => { return Err(e); },
        Ok(found) => found,
    };
    let t: usize = match expect_keyword(s, c, "TABLE") {
        Err(e) => { return Err(e); },
        Ok(found) => found,
    };
    let (if_not_exists, p) = match parse_if_not_exists(s, t) {
        Err(e) => { return Err(e); },
        Ok(found) => found,
    };
    let start: usize = scan_run(s, p, CharClass::Space);
    let (name, n) = match parse_name(s, start) {
        Err(e) => { return Err(e); },
        Ok(found) => found,
    };
    parse_table_body(s, n, CreateTable::new(name, if_not_exists))
}

/// The text of each column.
pub fn texts_of_columns(columns: &Vec<Column>) -> (t: Vec<String>)
    ensures
        t.deep_view() == column_texts(columns.deep_view()),
{
    let ghost views = columns.deep_view();
    let n: usize = columns.len();
    let mut t: Vec<String> = Vec::new();
    let mut i: usize = 0;
    assert(t.deep_view() =~= column_texts(views).take(0));
    while i < n
        invariant
            i <= n,
            n == columns@.len(),
            views == columns.deep_view(),
            t.deep_view() == column_texts(views).take(i as int),
        decreases n - i,
    {
        let text = columns[i].to_string();
        proof {
            lemma_push_view::<String>(t@, t@.push(text), text);
            assert(views[i as int] == columns@[i as int].deep_view());
            assert(column_texts(views).take(i as int).push(text@) =~= column_texts(views).take(
                i + 1,
            ));
        }
        t.push(text);
        i += 1;
    }
    assert(column_texts(views).take(n as int) =~= column_texts(views));
    t
}

/// Adds the text of each foreign key to `t`.
pub fn add_foreign_key_texts(t: &mut Vec<String>, keys: &Vec<ForeignKey>, sep: &str)
    ensures
        final(t).deep_view() == old(t).deep_view() + foreign_key_texts(keys.deep_view(), sep@),
{
    let ghost views = keys.deep_view();
    let ghost all = foreign_key_texts(views, sep@);
    let n: usize = keys.len();
    let mut i: usize = 0;
    assert(t.deep_view() =~= old(t).deep_view() + all.take(0));
    while i < n
        invariant
            i <= n,
            n == keys@.len(),
            views == keys.deep_view(),
            all == foreign_key_texts(views, sep@),
            t.deep_view() == old(t).deep_view() + all.take(i as int),
        decreases n - i,
    {
        let mut text = String::new();
        keys[i].write(&mut text, sep);
        proof {
            lemma_push_view::<String>(t@, t@.push(text), text);
            assert(views[i as int] == keys@[i as int].deep_view());
            assert(text@ =~= all[i as int]);
            assert((old(t).deep_view() + all.take(i as int)).push(text@) =~= old(t).deep_view()
                + all.take(i + 1));
        }
        t.push(text);
        i += 1;
    }
    assert(all.take(n as int) =~= all);
}

/// Adds the text of each index to `t`.
pub fn add_index_texts(t: &mut Vec<String>, indexes: &Vec<Index>, sep: &str)
    ensures
        final(t).deep_view() == old(t).deep_view() + index_texts(indexes.deep_view(), sep@),
{
    let ghost views = indexes.deep_view();
    let ghost all = index_texts(views, sep@);
    let n: usize = indexes.len();
    let mut i: usize = 0;
    assert(t.deep_view() =~= old(t).deep_view() + all.take(0));
    while i < n
        invariant
            i <= n,
            n == indexes@.len(),
            views == indexes.deep_view(),
            all == index_texts(views, sep@),
            t.deep_view() == old(t).deep_view() + all.take(i as int),
        decreases n - i,
    {
        let mut text = String::new();
        indexes[i].write(&mut text, sep);
        proof {
            lemma_push_view::<String>(t@, t@.push(text), text);
            assert(views[i as int] == indexes@[i as int].deep_view());
            assert(text@ =~= all[i as int]);
            assert((old(t).deep_view() + all.take(i as int)).push(text@) =~= old(t).deep_view()
                + all.take(i + 1));
        }
        t.push(text);
        i += 1;
    }
    assert(all.take(n as int) =~= all);
}

/// Adds the text of the primary key, if there is one, to `t`.
pub fn add_primary_key_text(t: &mut Vec<String>, key: &Option<PrimaryKey>, sep: &str)
    ensures
        final(t).deep_view() == old(t).deep_view() + primary_key_texts(key.deep_view(), sep@),
{
    match key {
        Some(k) => {
            let mut text = String::new();
            k.write(&mut text, sep);
            proof {
                lemma_push_view::<String>(t@, t@.push(text), text);
                assert(text@ =~= render_primary_key(k.deep_view(), sep@));
                assert(old(t).deep_view().push(text@) =~= old(t).deep_view() + primary_key_texts(
                    key.deep_view(),
                    sep@,
                ));
            }
            t.push(text);
        },
        None => {
            assert(t.deep_view() =~= old(t).deep_view() + primary_key_texts(
                key.deep_view(),
                sep@,
            ));
        },
    }
}

/// The texts of the definitions of a table: columns, primary key, foreign
/// keys, indexes.
pub fn definition_texts(
    columns: &Vec<Column>,
    primary_key: &Option<PrimaryKey>,
    foreign_keys: &Vec<ForeignKey>,
    indexes: &Vec<Index>,
    sep: &str,
) -> (t: Vec<String>)
    ensures
        t.deep_view() == column_texts(columns.deep_view()) + (primary_key_texts(
            primary_key.deep_view(),
            sep@,
        ) + foreign_key_texts(foreign_keys.deep_view(), sep@) + index_texts(
            indexes.deep_view(),
            sep@,
        )),
{
    let mut t = texts_of_columns(columns);
    add_primary_key_text(&mut t, primary_key, sep);
    add_foreign_key_texts(&mut t, foreign_keys, sep);
    add_index_texts(&mut t, indexes, sep);
    assert(t.deep_view() =~= column_texts(columns.deep_view()) + (primary_key_texts(
        primary_key.deep_view(),
        sep@,
    ) + foreign_key_texts(foreign_keys.deep_view(), sep@) + index_texts(
        indexes.deep_view(),
        sep@,
    )));
    t
}

/// Appends the text of a `CREATE TABLE` statement with the given parts;
/// `sep` separates the column names inside a key or an index.
pub fn write_definition(
    out: &mut String,
    name: &String,
    if_not_exists: bool,
    columns: &Vec<Column>,
    primary_key: &Option<PrimaryKey>,
    foreign_keys: &Vec<ForeignKey>,
    indexes: &Vec<Index>,
    options: &Vec<TableOption>,
    sep: &str,
)
    ensures
        final(out)@ == old(out)@ + render_create_table(
            CreateTableView {
                name: name@,
                if_not_exists,
                columns: columns.deep_view(),
                primary_key: primary_key.deep_view(),
                foreign_keys: foreign_keys.deep_view(),
                indexes: indexes.deep_view(),
                options: options.deep_view(),
            },
            sep@,
        ),
{
    let ghost base = old(out)@;
    let ghost v = CreateTableView {
        name: name@,
        if_not_exists,
        columns: columns.deep_view(),
        primary_key: primary_key.deep_view(),
        foreign_keys: foreign_keys.deep_view(),
        indexes: indexes.deep_view(),
        options: options.deep_view(),
    };
    let texts = definition_texts(columns, primary_key, foreign_keys, indexes, sep);
    assert(texts.deep_view() == table_spec_texts(v, sep@));
    out.append("CREATE TABLE");
    write_flag(out, if_not_exists, " IF NOT EXISTS");
    out.append(" ");
    let ghost r1 = "CREATE TABLE"@ + render_flag(v.if_not_exists, " IF NOT EXISTS"@) + " "@;
    assert(out@ =~= base + r1);
    push_quoted(out, name, '`');
    out.append(" (\n  ");
    let ghost r2 = r1 + quoted(v.name, '`') + " (\n  "@;
    assert(out@ =~= base + r2);
    assert(r2 == render_table_head(v));
    push_join(out, &texts, ",\n  ");
    out.append("\n)");
    let ghost r3 = r2 + join(table_spec_texts(v, sep@), ",\n  "@) + "\n)"@;
    assert(out@ =~= base + r3);
    write_table_options(out, options);
    proof {
        lemma_append(base, r3, render_table_options(v.options));
    }
}

impl CreateTable {
    /// A table with a name and nothing else.
    pub fn new(name: String, if_not_exists: bool) -> (t: CreateTable)
        ensures
            t.deep_view() == empty_table(name@, if_not_exists),
    {
        let t = CreateTable {
            name,
            if_not_exists,
            columns: Vec::new(),
            primary_key: None,
            foreign_keys: Vec::new(),
            indexes: Vec::new(),
            options: Vec::new(),
        };
        assert(t.columns.deep_view() =~= Seq::<ColumnView>::empty());
        assert(t.foreign_keys.deep_view() =~= Seq::<ForeignKeyView>::empty());
        assert(t.indexes.deep_view() =~= Seq::<IndexView>::empty());
        assert(t.options.deep_view() =~= Seq::<TableOptionView>::empty());
        t
    }

    /// The `CREATE TABLE` statement that `input` starts with.
    pub fn parse(input: &str) -> (r: Result<CreateTable, ParseError>)
        ensures
            parsed(r, spec_parse_create_table(input@, 0)),
    {
        let s = chars_of(input);
        finish(parse_create_table(&s, 0))
    }

    /// The texts of the definitions: columns, primary key, foreign keys,
    /// indexes.
    pub fn spec_texts(&self, sep: &str) -> (t: Vec<String>)
        ensures
            t.deep_view() == table_spec_texts(self.deep_view(), sep@),
    {
        let t = definition_texts(
            &self.columns,
            &self.primary_key,
            &self.foreign_keys,
            &self.indexes,
            sep,
        );
        assert(t.deep_view() =~= table_spec_texts(self.deep_view(), sep@));
        t
    }

    /// Appends the SQL text of this statement; `sep` separates the column
    /// names inside a key or an index.
    pub fn write(&self, out: &mut String, sep: &str)
        ensures
            final(out)@ == old(out)@ + render_create_table(self.deep_view(), sep@),
    {
        write_definition(
            out,
            &self.name,
            self.if_not_exists,
            &self.columns,
            &self.primary_key,
            &self.foreign_keys,
            &self.indexes,
            &self.options,
            sep,
        );
    }

    /// The SQL text of this statement, without a closing semicolon.
    pub fn to_string(&self) -> (r: String)
        ensures
            r@ == render_create_table(self.deep_view(), ", "@),
    {
        let mut out = String::new();
        self.write(&mut out, ", ");
        assert(out@ =~= render_create_table(self.deep_view(), ", "@));
        out
    }

    /// The SQL text of this statement in its compact form, closed by a
    /// semicolon.
    pub fn as_sql(&self) -> (r: String)
        ensures
            r@ == render_create_table(self.deep_view(), ","@) + ";"@,
    {
        let mut out = String::new();
        self.write(&mut out, ",");
        out.append(";");
        assert(out@ =~= render_create_table(self.deep_view(), ","@) + ";"@);
        out
    }
}

} // verus!
