use vstd::prelude::*;
use vstd::string::*;
use crate::error::ParseError;
use crate::lex::{
    CharClass,
    accept_keyword,
    agrees,
    expect_keyword,
    finish,
    parse_name,
    parsed,
    scan_run,
    sees_keyword,
    skip_ws,
    spec_expect_keyword,
    spec_parse_name,
};
use crate::text::{chars_of, push_quoted, push_text, quoted};
use crate::where_stmts::{parse_where, render_where, spec_parse_where};

verus! {

/// A `DELETE` statement: the addressed table and, where there is one, the
/// text of the condition.
#[derive(Debug, Clone, PartialEq, Eq)]
pub struct Delete {
    pub table_name: String,
    pub where_clause: Option<String>,
}

/// What a `Delete` holds, with each text as a sequence of characters.
pub struct DeleteView {
    pub table_name: Seq<char>,
    pub where_clause: Option<Seq<char>>,
}

impl DeepView for Delete {
    type V = DeleteView;

    open spec fn deep_view(&self) -> DeleteView {
        DeleteView { table_name: self.table_name@, where_clause: self.where_clause.deep_view() }
    }
}

/// ` WHERE` and the condition, or nothing.
pub open spec fn render_delete_condition(v: Option<Seq<char>>) -> Seq<char> {
    match v {
        Some(c) => " WHERE "@ + c,
        None => Seq::empty(),
    }
}

/// The SQL text of a `DELETE` statement, without a closing semicolon.
pub open spec fn render_delete(v: DeleteView) -> Seq<char> {
    "DELETE FROM "@ + quoted(v.table_name, '`') + render_delete_condition(v.where_clause)
}

/// An optional `WHERE` clause at `pos`, as the text of its comparison.
pub open spec fn spec_parse_delete_condition(s: Seq<char>, pos: int) -> Result<
    (Option<Seq<char>>, int),
    ParseError,
> {
    if !sees_keyword(s, pos, "WHERE"@) {
        Ok((None, pos))
    } else {
        match spec_parse_where(s, pos) {
            Err(e) => Err(e),
            Ok((w, end)) => Ok((Some(render_where(w)), end)),
        }
    }
}

/// A `DELETE` statement at `pos`: `DELETE FROM`, a table name, and an
/// optional `WHERE` clause.
pub open spec fn spec_parse_delete(s: Seq<char>, pos: int) -> Result<(DeleteView, int), ParseError> {
    match spec_expect_keyword(s, pos, "DELETE"@) {
        Err(e) => Err(e),
        Ok(d) => match spec_expect_keyword(s, d, "FROM"@) {
            Err(e) => Err(e),
            Ok(f) => match spec_parse_name(s, skip_ws(s, f)) {
                Err(e) => Err(e),
                Ok((table_name, n)) => match spec_parse_delete_condition(s, n) {
                    Err(e) => Err(e),
                    Ok((where_clause, end)) => Ok((DeleteView { table_name, where_clause }, end)),
                },
            },
        },
    }
}

fn parse_delete_condition(s: &Vec<char>, pos: usize) -> (r: Result<
    (Option<String>, usize),
    ParseError,
>)
    requires
        pos <= s@.len(),
    ensures
        agrees(r, spec_parse_delete_condition(s@, pos as int), pos, s@.len()),
{
    match accept_keyword(s, pos, "WHERE") {
        None => Ok((None, pos)),
        Some(_) => match parse_where(s, pos) {
            Err(e) => Err(e),
            Ok((w, end)) => Ok((Some(w.to_string()), end)),
        },
    }
}

/// Reads at `pos` what `spec_parse_delete` describes.
pub fn parse_delete(s: &Vec<char>, pos: usize) -> (r: Result<(Delete, usize), ParseError>)
    requires
        pos <= s@.len(),
    ensures
        agrees(r, spec_parse_delete(s@, pos as int), pos, s@.len()),
{
    let d: usize = match expect_keyword(s, pos, "DELETE") {
        Err(e) => { return Err(e); },
        Ok(found) => found,
    };
    let f: usize = match expect_keyword(s, d, "FROM") {
        Err(e) => { return Err(e); },
        Ok(found) => found,
    };
    let start: usize = scan_run(s, f, CharClass::Space);
    let (table_name, n) = match parse_name(s, start) {
        Err(e) => { return Err(e); },
        Ok(found) => found,
    };
    match parse_delete_condition(s, n) {
        Err(e) => Err(e),
        Ok((where_clause, end)) => Ok((Delete { table_name, where_clause }, end)),
    }
}

impl Delete {
    /// A `DELETE` statement on a table, with the text of its condition.
    pub fn new(table_name: String, where_clause: Option<String>) -> (d: Delete)
        ensures
            d.table_name == table_name,
            d.where_clause == where_clause,
    {
        Delete { table_name, where_clause }
    }

    /// The `DELETE` statement that `input` starts with.
    pub fn parse(input: &str) -> (r: Result<Delete, ParseError>)
        ensures
            parsed(r, spec_parse_delete(input@, 0)),
    {
        let s = chars_of(input);
        finish(parse_delete(&s, 0))
    }

    /// Appends the SQL text of this statement.
    pub fn write(&self, out: &mut String)
        ensures
            final(out)@ == old(out)@ + render_delete(self.deep_view()),
    {
        out.append("DELETE FROM ");
        push_quoted(out, &self.table_name, '`');
        match &self.where_clause {
            Some(c) => {
                out.append(" WHERE ");
                push_text(out, c);
                assert(out@ =~= old(out)@ + render_delete(self.deep_view()));
            },
            None => {
                assert(out@ =~= old(out)@ + render_delete(self.deep_view()));
            },
        }
    }

    /// The SQL text of this statement, without a closing semicolon.
    pub fn to_string(&self) -> (r: String)
        ensures
            r@ == render_delete(self.deep_view()),
    {
        let mut out = String::new();
        self.write(&mut out);
        assert(out@ =~= render_delete(self.deep_view()));
        out
    }

    /// The SQL text of this statement, closed by a semicolon.
    pub fn as_sql(&self) -> (r: String)
        ensures
            r@ == render_delete(self.deep_view()) + ";"@,
    {
        let mut out = String::new();
        self.write(&mut out);
        out.append(";");
        assert(out@ =~= render_delete(self.deep_view()) + ";"@);
        out
    }
}

} // verus!
