use vstd::prelude::*;
use vstd::string::*;
use crate::data_type::{
    DataType,
    DataTypeView,
    parse_data_type,
    render_data_type,
    render_flag,
    spec_parse_data_type,
    write_flag,
};
use crate::default_value::{
    DefaultValue,
    DefaultValueView,
    parse_default_value,
    render_default_value,
    spec_parse_default_value,
};
use crate::error::ParseError;
use crate::lex::{
    CharClass,
    agrees,
    at_keyword,
    expect_keyword,
    finish,
    is_keyword,
    parse_name,
    parse_string,
    parsed,
    run_end,
    scan_run,
    skip_ws,
    spec_expect_keyword,
    spec_parse_name,
    spec_parse_string,
};
use crate::on_update_value::{
    OnUpdateValue,
    parse_on_update_value,
    render_on_update_value,
    spec_parse_on_update_value,
};
use crate::text::{chars_of, lemma_append, push_quoted, quoted};

verus! {

/// One column of a table: its name, its type, and the constraints that
/// follow the type.
#[derive(Debug, Clone, PartialEq, Eq)]
pub struct Column {
    pub name: String,
    pub data_type: DataType,
    pub nullable: bool,
    pub default: Option<DefaultValue>,
    pub on_update: Option<OnUpdateValue>,
    pub auto_increment: bool,
    pub comment: Option<String>,
}

/// What a `Column` holds, with each text as a sequence of characters.
pub struct ColumnView {
    pub name: Seq<char>,
    pub data_type: DataTypeView,
    pub nullable: bool,
    pub default: Option<DefaultValueView>,
    pub on_update: Option<OnUpdateValue>,
    pub auto_increment: bool,
    pub comment: Option<Seq<char>>,
}

impl DeepView for Column {
    type V = ColumnView;

    open spec fn deep_view(&self) -> ColumnView {
        ColumnView {
            name: self.name@,
            data_type: self.data_type.deep_view(),
            nullable: self.nullable,
            default: self.default.deep_view(),
            on_update: self.on_update,
            auto_increment: self.auto_increment,
            comment: self.comment.deep_view(),
        }
    }
}

/// A column with a name and a type and no constraint: it may be null.
pub open spec fn plain_column(name: Seq<char>, data_type: DataTypeView) -> ColumnView {
    ColumnView {
        name,
        data_type,
        nullable: true,
        default: None,
        on_update: None,
        auto_increment: false,
        comment: None,
    }
}

/// ` DEFAULT value`, or nothing.
pub open spec fn render_default_clause(v: Option<DefaultValueView>) -> Seq<char> {
    match v {
        Some(d) => " DEFAULT "@ + render_default_value(d),
        None => Seq::empty(),
    }
}

/// ` ON UPDATE value`, or nothing.
pub open spec fn render_on_update_clause(v: Option<OnUpdateValue>) -> Seq<char> {
    match v {
        Some(u) => " ON UPDATE "@ + render_on_update_value(u),
        None => Seq::empty(),
    }
}

/// ` COMMENT 'text'`, or nothing.
pub open spec fn render_comment_clause(v: Option<Seq<char>>) -> Seq<char> {
    match v {
        Some(c) => " COMMENT "@ + quoted(c, '\''),
        None => Seq::empty(),
    }
}

/// The SQL text of a column: the name between backticks, the type, then
/// `NOT NULL` where the column is not nullable, the default, the `ON UPDATE`
/// value, `AUTO_INCREMENT` and the comment, each only where it is present.
pub open spec fn render_column(c: ColumnView) -> Seq<char> {
    quoted(c.name, '`') + " "@ + render_data_type(c.data_type) + render_flag(
        !c.nullable,
        " NOT NULL"@,
    ) + render_default_clause(c.default) + render_on_update_clause(c.on_update) + render_flag(
        c.auto_increment,
        " AUTO_INCREMENT"@,
    ) + render_comment_clause(c.comment)
}

/// One constraint at `pos`, applied to `col`: `NOT NULL`, `NULL`,
/// `DEFAULT value`, `ON UPDATE value`, `AUTO_INCREMENT` or `COMMENT 'text'`.
/// `None` where the word at `pos` opens none of them. `PRIMARY KEY` on a
/// column is refused as unsupported.
pub open spec fn spec_parse_constraint(s: Seq<char>, pos: int, col: ColumnView) -> Result<
    Option<(ColumnView, int)>,
    ParseError,
> {
    let p: int = skip_ws(s, pos);
    let after: int = run_end(s, p, CharClass::Word);
    if at_keyword(s, p, "NOT"@) {
        match spec_expect_keyword(s, after, "NULL"@) {
            Err(e) => Err(e),
            Ok(q) => Ok(Some((ColumnView { nullable: false, ..col }, q))),
        }
    } else if at_keyword(s, p, "NULL"@) {
        Ok(Some((ColumnView { nullable: true, ..col }, after)))
    } else if at_keyword(s, p, "DEFAULT"@) {
        match spec_parse_default_value(s, after) {
            Err(e) => Err(e),
            Ok((v, q)) => Ok(Some((ColumnView { default: Some(v), ..col }, q))),
        }
    } else if at_keyword(s, p, "ON"@) {
        match spec_expect_keyword(s, after, "UPDATE"@) {
            Err(e) => Err(e),
            Ok(u) => match spec_parse_on_update_value(s, u) {
                Err(e) => Err(e),
                Ok((v, q)) => Ok(Some((ColumnView { on_update: Some(v), ..col }, q))),
            },
        }
    } else if at_keyword(s, p, "AUTO_INCREMENT"@) {
        Ok(Some((ColumnView { auto_increment: true, ..col }, after)))
    } else if at_keyword(s, p, "COMMENT"@) {
        match spec_parse_string(s, skip_ws(s, after)) {
            Err(e) => Err(e),
            Ok((v, q)) => Ok(Some((ColumnView { comment: Some(v), ..col }, q))),
        }
    } else if at_keyword(s, p, "PRIMARY"@) {
        Err(ParseError::Unsupported { position: p as usize })
    } else {
        Ok(None)
    }
}

/// How the outcome of one executable constraint step stands to the
/// grammar's.
pub open spec fn constraint_agrees(
    r: Result<Option<usize>, ParseError>,
    after: ColumnView,
    e: Result<Option<(ColumnView, int)>, ParseError>,
    before: ColumnView,
    from: usize,
    len: nat,
) -> bool {
    match e {
        Err(x) => r == Err::<Option<usize>, ParseError>(x),
        Ok(None) => r == Ok::<Option<usize>, ParseError>(None) && after == before,
        Ok(Some((c, q))) => match r {
            Ok(Some(n)) => n as int == q && after == c && from < n <= len,
            _ => false,
        },
    }
}

/// Reads one constraint at `pos` and applies it to `col`; `None` where no
/// constraint starts there.
pub fn parse_constraint(s: &Vec<char>, pos: usize, col: &mut Column) -> (r: Result<
    Option<usize>,
    ParseError,
>)
    requires
        pos <= s@.len(),
    ensures
        constraint_agrees(
            r,
            final(col).deep_view(),
            spec_parse_constraint(s@, pos as int, old(col).deep_view()),
            old(col).deep_view(),
            pos,
            s@.len(),
        ),
{
    let p: usize = scan_run(s, pos, CharClass::Space);
    let after: usize = scan_run(s, p, CharClass::Word);
    if is_keyword(s, p, "NOT") {
        match expect_keyword(s, after, "NULL") {
            Err(e) => Err(e),
            Ok(q) => {
                col.nullable = false;
                Ok(Some(q))
            },
        }
    } else if is_keyword(s, p, "NULL") {
        col.nullable = true;
        Ok(Some(after))
    } else if is_keyword(s, p, "DEFAULT") {
        match parse_default_value(s, after) {
            Err(e) => Err(e),
            Ok((v, q)) => {
                col.default = Some(v);
                Ok(Some(q))
            },
        }
    } else if is_keyword(s, p, "ON") {
        match expect_keyword(s, after, "UPDATE") {
            Err(e) => Err(e),
            Ok(u) => match parse_on_update_value(s, u) {
                Err(e) => Err(e),
                Ok((v, q)) => {
                    col.on_update = Some(v);
                    Ok(Some(q))
                },
            },
        }
    } else if is_keyword(s, p, "AUTO_INCREMENT") {
        col.auto_increment = true;
        Ok(Some(after))
    } else if is_keyword(s, p, "COMMENT") {
        let q: usize = scan_run(s, after, CharClass::Space);
        match parse_string(s, q) {
            Err(e) => Err(e),
            Ok((v, end)) => {
                col.comment = Some(v);
                Ok(Some(end))
            },
        }
    } else if is_keyword(s, p, "PRIMARY") {
        Err(ParseError::Unsupported { position: p })
    } else {
        Ok(None)
    }
}

/// The constraints from `pos` on, applied to `col` in their order, up to
/// the first word that opens none.
pub open spec fn spec_parse_constraints(s: Seq<char>, pos: int, col: ColumnView) -> Result<
    (ColumnView, int),
    ParseError,
>
    decreases s.len() - pos,
{
    match spec_parse_constraint(s, pos, col) {
        Err(e) => Err(e),
        Ok(None) => Ok((col, pos)),
        Ok(Some((c, q))) => if pos < q <= s.len() {
            spec_parse_constraints(s, q, c)
        } else {
            Ok((c, q))
        },
    }
}

/// A column definition at `pos`: a name, a data type, and constraints.
pub open spec fn spec_parse_column(s: Seq<char>, pos: int) -> Result<(ColumnView, int), ParseError> {
    match spec_parse_name(s, skip_ws(s, pos)) {
        Err(e) => Err(e),
        Ok((name, p)) => match spec_parse_data_type(s, p) {
            Err(e) => Err(e),
            Ok((data_type, q)) => spec_parse_constraints(s, q, plain_column(name, data_type)),
        },
    }
}

/// Reads at `pos` what `spec_parse_column` describes.
pub fn parse_column(s: &Vec<char>, pos: usize) -> (r: Result<(Column, usize), ParseError>)
    requires
        pos <= s@.len(),
    ensures
        agrees(r, spec_parse_column(s@, pos as int), pos, s@.len()),
{
    let start: usize = scan_run(s, pos, CharClass::Space);
    let (name, p) = match parse_name(s, start) {
        Err(e) => { return Err(e); },
        Ok(found) => found,
    };
    let (data_type, q) = match parse_data_type(s, p) {
        Err(e) => { return Err(e); },
        Ok(found) => found,
    };
    let mut col = Column::new(name, data_type);
    let ghost first = col.deep_view();
    let mut cur: usize = q;
    loop
        invariant
            pos <= q <= cur <= s@.len(),
            spec_parse_column(s@, pos as int) == spec_parse_constraints(s@, q as int, first),
            spec_parse_constraints(s@, cur as int, col.deep_view()) == spec_parse_constraints(
                s@,
                q as int,
                first,
            ),
        decreases s@.len() - cur,
    {
        match parse_constraint(s, cur, &mut col) {
            Err(e) => {
                return Err(e);
            },
            Ok(None) => {
                return Ok((col, cur));
            },
            Ok(Some(next)) => {
                cur = next;
            },
        }
    }
}

fn write_default_clause(out: &mut String, v: &Option<DefaultValue>)
    ensures
        final(out)@ == old(out)@ + render_default_clause(v.deep_view()),
{
    match v {
        Some(d) => {
            out.append(" DEFAULT ");
            d.write(out);
            assert(out@ =~= old(out)@ + render_default_clause(v.deep_view()));
        },
        None => {
            assert(out@ =~= old(out)@ + render_default_clause(v.deep_view()));
        },
    }
}

fn write_on_update_clause(out: &mut String, v: &Option<OnUpdateValue>)
    ensures
        final(out)@ == old(out)@ + render_on_update_clause(*v),
{
    match v {
        Some(u) => {
            out.append(" ON UPDATE ");
            u.write(out);
            assert(out@ =~= old(out)@ + render_on_update_clause(*v));
        },
        None => {
            assert(out@ =~= old(out)@ + render_on_update_clause(*v));
        },
    }
}

fn write_comment_clause(out: &mut String, v: &Option<String>)
    ensures
        final(out)@ == old(out)@ + render_comment_clause(v.deep_view()),
{
    match v {
        Some(text) => {
            out.append(" COMMENT ");
            push_quoted(out, text, '\'');
            assert(out@ =~= old(out)@ + render_comment_clause(v.deep_view()));
        },
        None => {
            assert(out@ =~= old(out)@ + render_comment_clause(v.deep_view()));
        },
    }
}

impl Column {
    /// A column with a name and a type and no constraint: it may be null.
    pub fn new(name: String, data_type: DataType) -> (c: Column)
        ensures
            c.deep_view() == plain_column(name@, data_type.deep_view()),
    {
        Column {
            name,
            data_type,
            nullable: true,
            default: None,
            on_update: None,
            auto_increment: false,
            comment: None,
        }
    }

    /// The column definition that `input` starts with.
    pub fn parse(input: &str) -> (r: Result<Column, ParseError>)
        ensures
            parsed(r, spec_parse_column(input@, 0)),
    {
        let s = chars_of(input);
        finish(parse_column(&s, 0))
    }

    /// Appends the SQL text of this column.
    pub fn write(&self, out: &mut String)
        ensures
            final(out)@ == old(out)@ + render_column(self.deep_view()),
    {
        let ghost base = old(out)@;
        let ghost c = self.deep_view();
        push_quoted(out, &self.name, '`');
        out.append(" ");
        let ghost r1 = quoted(c.name, '`') + " "@;
        proof {
            lemma_append(base, quoted(c.name, '`'), " "@);
        }
        self.data_type.write(out);
        let ghost r2 = r1 + render_data_type(c.data_type);
        proof {
            lemma_append(base, r1, render_data_type(c.data_type));
        }
        write_flag(out, !self.nullable, " NOT NULL");
        let ghost r3 = r2 + render_flag(!c.nullable, " NOT NULL"@);
        proof {
            lemma_append(base, r2, render_flag(!c.nullable, " NOT NULL"@));
        }
        write_default_clause(out, &self.default);
        let ghost r4 = r3 + render_default_clause(c.default);
        proof {
            lemma_append(base, r3, render_default_clause(c.default));
        }
        write_on_update_clause(out, &self.on_update);
        let ghost r5 = r4 + render_on_update_clause(c.on_update);
        proof {
            lemma_append(base, r4, render_on_update_clause(c.on_update));
        }
        write_flag(out, self.auto_increment, " AUTO_INCREMENT");
        let ghost r6 = r5 + render_flag(c.auto_increment, " AUTO_INCREMENT"@);
        proof {
            lemma_append(base, r5, render_flag(c.auto_increment, " AUTO_INCREMENT"@));
        }
        write_comment_clause(out, &self.comment);
        proof {
            lemma_append(base, r6, render_comment_clause(c.comment));
        }
    }

    /// The SQL text of this column.
    pub fn to_string(&self) -> (r: String)
        ensures
            r@ == render_column(self.deep_view()),
    {
        let mut out = String::new();
        self.write(&mut out);
        assert(out@ =~= render_column(self.deep_view()));
        out
    }

    /// The SQL text of this column.
    pub fn as_sql(&self) -> (r: String)
        ensures
            r@ == render_column(self.deep_view()),
    {
        self.to_string()
    }
}

} // verus!
