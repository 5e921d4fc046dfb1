use vstd::prelude::*;
use vstd::string::*;
use crate::error::ParseError;
use crate::lex::{
    CharClass,
    ItemKind,
    accept_keyword,
    after_word,
    agrees,
    expect_keyword,
    finish,
    parse_item_list,
    parse_name,
    parsed,
    scan_run,
    sees_keyword,
    skip_ws,
    spec_expect_keyword,
    spec_parse_item_list,
    spec_parse_name,
};
use crate::text::{chars_of, join_quoted, push_join_quoted, push_quoted, quoted};

verus! {

/// A table's primary key: an optional constraint name and the key columns
/// in their order.
#[derive(Debug, Clone, PartialEq, Eq)]
pub struct PrimaryKey {
    pub name: Option<String>,
    pub column_names: Vec<String>,
}

/// What a `PrimaryKey` holds, with each text as a sequence of characters.
pub struct PrimaryKeyView {
    pub name: Option<Seq<char>>,
    pub column_names: Seq<Seq<char>>,
}

impl DeepView for PrimaryKey {
    type V = PrimaryKeyView;

    open spec fn deep_view(&self) -> PrimaryKeyView {
        PrimaryKeyView {
            name: self.name.deep_view(),
            column_names: self.column_names.deep_view(),
        }
    }
}

/// `CONSTRAINT` and the name between backticks, with a blank after it, or
/// nothing where the constraint has no name.
pub open spec fn render_constraint_name(name: Option<Seq<char>>) -> Seq<char> {
    match name {
        Some(n) => "CONSTRAINT "@ + quoted(n, '`') + " "@,
        None => Seq::empty(),
    }
}

/// Appends `CONSTRAINT` and the name, if there is one.
pub fn write_constraint_name(out: &mut String, name: &Option<String>)
    ensures
        final(out)@ == old(out)@ + render_constraint_name(name.deep_view()),
{
    match name {
        Some(n) => {
            out.append("CONSTRAINT ");
            push_quoted(out, n, '`');
            out.append(" ");
            assert(out@ =~= old(out)@ + render_constraint_name(name.deep_view()));
        },
        None => {
            assert(out@ =~= old(out)@ + render_constraint_name(name.deep_view()));
        },
    }
}

/// The names between backticks, `sep` between neighbours, all between
/// parentheses.
pub open spec fn render_name_list(names: Seq<Seq<char>>, sep: Seq<char>) -> Seq<char> {
    "("@ + join_quoted(names, '`', sep) + ")"@
}

/// Appends the names as a list between parentheses.
pub fn write_name_list(out: &mut String, names: &Vec<String>, sep: &str)
    ensures
        final(out)@ == old(out)@ + render_name_list(names.deep_view(), sep@),
{
    out.append("(");
    push_join_quoted(out, names, '`', sep);
    out.append(")");
    assert(out@ =~= old(out)@ + render_name_list(names.deep_view(), sep@));
}

/// The SQL text of a primary key, with `sep` between the column names.
pub open spec fn render_primary_key(v: PrimaryKeyView, sep: Seq<char>) -> Seq<char> {
    render_constraint_name(v.name) + "PRIMARY KEY "@ + render_name_list(v.column_names, sep)
}

/// An optional `CONSTRAINT name` at `pos`.
pub open spec fn spec_parse_constraint_name(s: Seq<char>, pos: int) -> Result<
    (Option<Seq<char>>, int),
    ParseError,
> {
    if !sees_keyword(s, pos, "CONSTRAINT"@) {
        Ok((None, pos))
    } else {
        match spec_parse_name(s, skip_ws(s, after_word(s, pos))) {
            Err(e) => Err(e),
            Ok((n, end)) => Ok((Some(n), end)),
        }
    }
}

/// Reads at `pos` what `spec_parse_constraint_name` describes.
pub fn parse_constraint_name(s: &Vec<char>, pos: usize) -> (r: Result<
    (Option<String>, usize),
    ParseError,
>)
    requires
        pos <= s@.len(),
    ensures
        agrees(r, spec_parse_constraint_name(s@, pos as int), pos, s@.len()),
{
    match accept_keyword(s, pos, "CONSTRAINT") {
        None => Ok((None, pos)),
        Some(after) => {
            let q: usize = scan_run(s, after, CharClass::Space);
            match parse_name(s, q) {
                Err(e) => Err(e),
                Ok((n, end)) => Ok((Some(n), end)),
            }
        },
    }
}

/// A primary key at `pos`: an optional constraint name, `PRIMARY KEY`, and
/// a list of column names between parentheses.
pub open spec fn spec_parse_primary_key(s: Seq<char>, pos: int) -> Result<
    (PrimaryKeyView, int),
    ParseError,
> {
    match spec_parse_constraint_name(s, pos) {
        Err(e) => Err(e),
        Ok((name, p)) => match spec_expect_keyword(s, p, "PRIMARY"@) {
            Err(e) => Err(e),
            Ok(q) => match spec_expect_keyword(s, q, "KEY"@) {
                Err(e) => Err(e),
                Ok(k) => match spec_parse_item_list(s, k, ItemKind::Name) {
                    Err(e) => Err(e),
                    Ok((column_names, end)) => Ok((PrimaryKeyView { name, column_names }, end)),
                },
            },
        },
    }
}

/// Reads at `pos` what `spec_parse_primary_key` describes.
pub fn parse_primary_key(s: &Vec<char>, pos: usize) -> (r: Result<(PrimaryKey, usize), ParseError>)
    requires
        pos <= s@.len(),
    ensures
        agrees(r, spec_parse_primary_key(s@, pos as int), pos, s@.len()),
{
    match parse_constraint_name(s, pos) {
        Err(e) => Err(e),
        Ok((name, p)) => match expect_keyword(s, p, "PRIMARY") {
            Err(e) => Err(e),
            Ok(q) => match expect_keyword(s, q, "KEY") {
                Err(e) => Err(e),
                Ok(k) => match parse_item_list(s, k, ItemKind::Name) {
                    Err(e) => Err(e),
                    Ok((column_names, end)) => Ok((PrimaryKey { name, column_names }, end)),
                },
            },
        },
    }
}

impl PrimaryKey {
    /// A primary key on the given columns.
    pub fn new(name: Option<String>, column_names: Vec<String>) -> (k: PrimaryKey)
        ensures
            k.name == name,
            k.column_names == column_names,
    {
        PrimaryKey { name, column_names }
    }

    /// The primary key that `input` starts with.
    pub fn parse(input: &str) -> (r: Result<PrimaryKey, ParseError>)
        ensures
            parsed(r, spec_parse_primary_key(input@, 0)),
    {
        let s = chars_of(input);
        finish(parse_primary_key(&s, 0))
    }

    /// Appends the SQL text of this key, with `sep` between the column
    /// names.
    pub fn write(&self, out: &mut String, sep: &str)
        ensures
            final(out)@ == old(out)@ + render_primary_key(self.deep_view(), sep@),
    {
        write_constraint_name(out, &self.name);
        out.append("PRIMARY KEY ");
        write_name_list(out, &self.column_names, sep);
        assert(out@ =~= old(out)@ + render_primary_key(self.deep_view(), sep@));
    }

    /// The SQL text of this key, the column names separated by a comma and
    /// a blank.
    pub fn to_string(&self) -> (r: String)
        ensures
            r@ == render_primary_key(self.deep_view(), ", "@),
    {
        let mut out = String::new();
        self.write(&mut out, ", ");
        assert(out@ =~= render_primary_key(self.deep_view(), ", "@));
        out
    }

    /// The SQL text of this key in its compact form, the column names
    /// separated by a comma alone.
    pub fn as_sql(&self) -> (r: String)
        ensures
            r@ == render_primary_key(self.deep_view(), ","@),
    {
        let mut out = String::new();
        self.write(&mut out, ",");
        assert(out@ =~= render_primary_key(self.deep_view(), ","@));
        out
    }
}

} // verus!
