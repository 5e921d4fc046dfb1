use vstd::prelude::*;
use vstd::string::*;
use crate::data_type::{render_flag, write_flag};
use crate::error::ParseError;
use crate::insert_priority::{InsertPriority, parse_priority, render_priority, spec_parse_priority};
use crate::insert_value::InsertValueView;
use crate::insert_values::{
    InsertValues,
    parse_insert_values,
    render_insert_values,
    spec_parse_insert_values,
};
use crate::lex::{
    CharClass,
    ItemKind,
    accept_keyword,
    after_word,
    agrees,
    at_char,
    expect_keyword,
    finish,
    is_char,
    lemma_push_view,
    parse_item_list,
    parse_name,
    parsed,
    scan_run,
    sees_keyword,
    skip_ws,
    spec_expect_keyword,
    spec_parse_item_list,
    spec_parse_name,
};
use crate::primary_key::{render_name_list, write_name_list};
use crate::text::{chars_of, join, push_join, push_quoted, quoted};

verus! {

/// An `INSERT` statement: the addressed table, the columns named, and the
/// rows of values.
#[derive(Debug, Clone, PartialEq, Eq)]
pub struct Insert {
    pub priority: Option<InsertPriority>,
    pub ignore: bool,
    pub table_name: String,
    pub column_names: Vec<String>,
    pub values: Vec<InsertValues>,
}

/// What a `Insert` holds, with each text as a sequence of characters.
pub struct InsertView {
    pub priority: Option<InsertPriority>,
    pub ignore: bool,
    pub table_name: Seq<char>,
    pub column_names: Seq<Seq<char>>,
    pub values: Seq<Seq<InsertValueView>>,
}

impl DeepView for Insert {
    type V = InsertView;

    open spec fn deep_view(&self) -> InsertView {
        InsertView {
            priority: self.priority,
            ignore: self.ignore,
            table_name: self.table_name@,
            column_names: self.column_names.deep_view(),
            values: self.values.deep_view(),
        }
    }
}

/// A blank and the priority keyword, or nothing.
pub open spec fn render_priority_clause(v: Option<InsertPriority>) -> Seq<char> {
    match v {
        Some(p) => " "@ + render_priority(p),
        None => Seq::empty(),
    }
}

/// The column list between parentheses with a blank after it, or nothing
/// where no column is named.
pub open spec fn render_insert_columns(names: Seq<Seq<char>>) -> Seq<char> {
    if names.len() == 0 {
        Seq::empty()
    } else {
        render_name_list(names, ", "@) + " "@
    }
}

/// The text of each row.
pub open spec fn insert_row_texts(rows: Seq<Seq<InsertValueView>>) -> Seq<Seq<char>> {
    Seq::new(rows.len(), |i: int| render_insert_values(rows[i]))
}

/// The SQL text of an `INSERT` statement, without a closing semicolon.
pub open spec fn render_insert(v: InsertView) -> Seq<char> {
    "INSERT"@ + render_priority_clause(v.priority) + render_flag(v.ignore, " IGNORE"@) + " INTO "@
        + quoted(v.table_name, '`') + " "@ + render_insert_columns(v.column_names) + "VALUES "@
        + join(insert_row_texts(v.values), ", "@)
}

/// Rows separated by commas, the first of them at `pos`, added to `acc` in
/// their order.
pub open spec fn spec_parse_rows_from(
    s: Seq<char>,
    pos: int,
    acc: Seq<Seq<InsertValueView>>,
) -> Result<(Seq<Seq<InsertValueView>>, int), ParseError>
    decreases s.len() - pos,
{
    match spec_parse_insert_values(s, pos) {
        Err(e) => Err(e),
        Ok((row, p)) => {
            let q: int = skip_ws(s, p);
            if at_char(s, q, ',') && q >= pos {
                spec_parse_rows_from(s, q + 1, acc.push(row))
            } else {
                Ok((acc.push(row), p))
            }
        },
    }
}

/// One or more rows separated by commas.
pub open spec fn spec_parse_rows(s: Seq<char>, pos: int) -> Result<
    (Seq<Seq<InsertValueView>>, int),
    ParseError,
> {
    spec_parse_rows_from(s, pos, Seq::empty())
}

/// Reads at `pos` what `spec_parse_rows` describes.
pub fn parse_rows(s: &Vec<char>, pos: usize) -> (r: Result<(Vec<InsertValues>, usize), ParseError>)
    requires
        pos <= s@.len(),
    ensures
        agrees(r, spec_parse_rows(s@, pos as int), pos, s@.len()),
{
    let mut acc: Vec<InsertValues> = Vec::new();
    let mut cur: usize = pos;
    assert(acc.deep_view() =~= Seq::<Seq<InsertValueView>>::empty());
    loop
        invariant
            pos <= cur <= s@.len(),
            spec_parse_rows_from(s@, cur as int, acc.deep_view()) == spec_parse_rows(
                s@,
                pos as int,
            ),
        decreases s@.len() - cur,
    {
        match parse_insert_values(s, cur) {
            Err(e) => {
                return Err(e);
            },
            Ok((row, p)) => {
                proof {
                    lemma_push_view::<InsertValues>(acc@, acc@.push(row), row);
                }
                acc.push(row);
                let q: usize = scan_run(s, p, CharClass::Space);
                if is_char(s, q, ',') {
                    cur = q + 1;
                } else {
                    return Ok((acc, p));
                }
            },
        }
    }
}

/// The column list of an `INSERT` statement: a list of names between
/// parentheses where an opening parenthesis follows, else no name.
pub open spec fn spec_parse_insert_columns(s: Seq<char>, pos: int) -> Result<
    (Seq<Seq<char>>, int),
    ParseError,
> {
    if at_char(s, skip_ws(s, pos), '(') {
        spec_parse_item_list(s, pos, ItemKind::Name)
    } else {
        Ok((Seq::empty(), pos))
    }
}

/// Reads at `pos` what `spec_parse_insert_columns` describes.
pub fn parse_insert_columns(s: &Vec<char>, pos: usize) -> (r: Result<
    (Vec<String>, usize),
    ParseError,
>)
    requires
        pos <= s@.len(),
    ensures
        agrees(r, spec_parse_insert_columns(s@, pos as int), pos, s@.len()),
{
    let p: usize = scan_run(s, pos, CharClass::Space);
    if is_char(s, p, '(') {
        parse_item_list(s, pos, ItemKind::Name)
    } else {
        let none: Vec<String> = Vec::new();
        assert(none.deep_view() =~= Seq::<Seq<char>>::empty());
        Ok((none, pos))
    }
}

/// What follows `INTO`: the table, the optional column list, `VALUES`, and
/// the rows.
pub open spec fn spec_parse_insert_body(
    s: Seq<char>,
    pos: int,
    priority: Option<InsertPriority>,
    ignore: bool,
) -> Result<(InsertView, int), ParseError> {
    match spec_parse_name(s, skip_ws(s, pos)) {
        Err(e) => Err(e),
        Ok((table_name, p)) => match spec_parse_insert_columns(s, p) {
            Err(e) => Err(e),
            Ok((column_names, c)) => match spec_expect_keyword(s, c, "VALUES"@) {
                Err(e) => Err(e),
                Ok(v) => match spec_parse_rows(s, v) {
                    Err(e) => Err(e),
                    Ok((values, end)) => Ok(
                        (InsertView { priority, ignore, table_name, column_names, values }, end),
                    ),
                },
            },
        },
    }
}

/// An `INSERT` statement at `pos`: `INSERT`, an optional priority, an
/// optional `IGNORE`, `INTO`, and the body.
pub open spec fn spec_parse_insert(s: Seq<char>, pos: int) -> Result<(InsertView, int), ParseError> {
    match spec_expect_keyword(s, pos, "INSERT"@) {
        Err(e) => Err(e),
        Ok(a) => {
            let priority: Option<InsertPriority> = match spec_parse_priority(s, a) {
                Some((v, _)) => Some(v),
                None => None,
            };
            let pos1: int = match spec_parse_priority(s, a) {
                Some((_, p)) => p,
                None => a,
            };
            let ignore: bool = sees_keyword(s, pos1, "IGNORE"@);
            let pos2: int = if ignore {
                after_word(s, pos1)
            } else {
                pos1
            };
            match spec_expect_keyword(s, pos2, "INTO"@) {
                Err(e) => Err(e),
                Ok(pos3) => spec_parse_insert_body(s, pos3, priority, ignore),
            }
        },
    }
}

fn parse_insert_body(s: &Vec<char>, pos: usize, priority: Option<InsertPriority>, ignore: bool) -> (r:
    Result<(Insert, usize), ParseError>)
    requires
        pos <= s@.len(),
    ensures
        agrees(r, spec_parse_insert_body(s@, pos as int, priority, ignore), pos, s@.len()),
{
    let start: usize = scan_run(s, pos, CharClass::Space);
    let (table_name, p) = match parse_name(s, start) {
        Err(e) => { return Err(e); },
        Ok(found) => found,
    };
    let (column_names, c) = match parse_insert_columns(s, p) {
        Err(e) => { return Err(e); },
        Ok(found) => found,
    };
    let v: usize = match expect_keyword(s, c, "VALUES") {
        Err(e) => { return Err(e); },
        Ok(found) => found,
    };
    match parse_rows(s, v) {
        Err(e) => Err(e),
        Ok((values, end)) => Ok((Insert { priority, ignore, table_name, column_names, values }, end)),
    }
}

/// Reads at `pos` what `spec_parse_insert` describes.
pub fn parse_insert(s: &Vec<char>, pos: usize) -> (r: Result<(Insert, usize), ParseError>)
    requires
        pos <= s@.len(),
    ensures
        agrees(r, spec_parse_insert(s@, pos as int), pos, s@.len()),
{
    let a: usize = match expect_keyword(s, pos, "INSERT") {
        Err(e) => { return Err(e); },
        Ok(found) => found,
    };
    let (priority, pos1) = match parse_priority(s, a) {
        Some((v, p)) => (Some(v), p),
        None => (None, a),
    };
    let (ignore, pos2) = match accept_keyword(s, pos1, "IGNORE") {
        Some(p) => (true, p),
        None => (false, pos1),
    };
    match expect_keyword(s, pos2, "INTO") {
        Err(e) => Err(e),
        Ok(pos3) => parse_insert_body(s, pos3, priority, ignore),
    }
}

fn write_priority_clause(out: &mut String, v: &Option<InsertPriority>)
    ensures
        final(out)@ == old(out)@ + render_priority_clause(*v),
{
    match v {
        Some(p) => {
            out.append(" ");
            p.write(out);
            assert(out@ =~= old(out)@ + render_priority_clause(*v));
        },
        None => {
            assert(out@ =~= old(out)@ + render_priority_clause(*v));
        },
    }
}

fn write_insert_columns(out: &mut String, names: &Vec<String>)
    ensures
        final(out)@ == old(out)@ + render_insert_columns(names.deep_view()),
{
    if names.len() == 0 {
        assert(names.deep_view().len() == 0);
        assert(out@ =~= old(out)@ + render_insert_columns(names.deep_view()));
    } else {
        assert(names.deep_view().len() != 0);
        write_name_list(out, names, ", ");
        out.append(" ");
        assert(out@ =~= old(out)@ + render_insert_columns(names.deep_view()));
    }
}

impl Insert {
    /// An `INSERT` statement without priority and without `IGNORE`.
    pub fn new(table_name: String, column_names: Vec<String>, values: Vec<InsertValues>) -> (i:
        Insert)
        ensures
            i.priority is None,
            !i.ignore,
            i.table_name == table_name,
            i.column_names == column_names,
            i.values == values,
    {
        Insert { priority: None, ignore: false, table_name, column_names, values }
    }

    /// The `INSERT` statement that `input` starts with.
    pub fn parse(input: &str) -> (r: Result<Insert, ParseError>)
        ensures
            parsed(r, spec_parse_insert(input@, 0)),
    {
        let s = chars_of(input);
        finish(parse_insert(&s, 0))
    }

    /// The text of each row.
    pub fn row_texts(&self) -> (t: Vec<String>)
        ensures
            t.deep_view() == insert_row_texts(self.deep_view().values),
    {
        let ghost views = self.values.deep_view();
        let n: usize = self.values.len();
        let mut t: Vec<String> = Vec::new();
        let mut i: usize = 0;
        assert(t.deep_view() =~= insert_row_texts(views).take(0));
        while i < n
            invariant
                i <= n,
                n == self.values@.len(),
                views == self.values.deep_view(),
                t.deep_view() == insert_row_texts(views).take(i as int),
            decreases n - i,
        {
            let text = self.values[i].to_string();
            proof {
                lemma_push_view::<String>(t@, t@.push(text), text);
                assert(views[i as int] == self.values@[i as int].deep_view());
                assert(insert_row_texts(views).take(i as int).push(text@) =~= insert_row_texts(
                    views,
                ).take(i + 1));
            }
            t.push(text);
            i += 1;
        }
        assert(insert_row_texts(views).take(n as int) =~= insert_row_texts(views));
        t
    }

    /// Appends the SQL text of this statement.
    pub fn write(&self, out: &mut String)
        ensures
            final(out)@ == old(out)@ + render_insert(self.deep_view()),
    {
        let ghost base = old(out)@;
        let ghost v = self.deep_view();
        let rows = self.row_texts();
        out.append("INSERT");
        write_priority_clause(out, &self.priority);
        let ghost r1 = "INSERT"@ + render_priority_clause(v.priority);
        assert(out@ =~= base + r1);
        write_flag(out, self.ignore, " IGNORE");
        out.append(" INTO ");
        let ghost r2 = r1 + render_flag(v.ignore, " IGNORE"@) + " INTO "@;
        assert(out@ =~= base + r2);
        push_quoted(out, &self.table_name, '`');
        out.append(" ");
        let ghost r3 = r2 + quoted(v.table_name, '`') + " "@;
        assert(out@ =~= base + r3);
        write_insert_columns(out, &self.column_names);
        out.append("VALUES ");
        let ghost r4 = r3 + render_insert_columns(v.column_names) + "VALUES "@;
        assert(out@ =~= base + r4);
        push_join(out, &rows, ", ");
        assert(out@ =~= base + (r4 + join(insert_row_texts(v.values), ", "@)));
        assert(r4 + join(insert_row_texts(v.values), ", "@) == render_insert(v));
    }

    /// The SQL text of this statement, without a closing semicolon.
    pub fn to_string(&self) -> (r: String)
        ensures
            r@ == render_insert(self.deep_view()),
    {
        let mut out = String::new();
        self.write(&mut out);
        assert(out@ =~= render_insert(self.deep_view()));
        out
    }

    /// The SQL text of this statement, closed by a semicolon.
    pub fn as_sql(&self) -> (r: String)
        ensures
            r@ == render_insert(self.deep_view()) + ";"@,
    {
        let mut out = String::new();
        self.write(&mut out);
        out.append(";");
        assert(out@ =~= render_insert(self.deep_view()) + ";"@);
        out
    }
}

} // verus!
