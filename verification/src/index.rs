use vstd::prelude::*;
use vstd::string::*;
use crate::data_type::{render_flag, write_flag};
use crate::error::ParseError;
use crate::lex::{
    CharClass,
    ItemKind,
    accept_keyword,
    after_word,
    agrees,
    finish,
    parse_item_list,
    parse_name,
    parsed,
    scan_run,
    sees_keyword,
    skip_ws,
    spec_parse_item_list,
    spec_parse_name,
};
use crate::primary_key::{render_name_list, write_name_list};
use crate::text::{chars_of, push_quoted, quoted};

verus! {

/// A secondary index of a table.
#[derive(Debug, Clone, PartialEq, Eq)]
pub struct Index {
    pub name: String,
    pub columns: Vec<String>,
    pub unique: bool,
}

/// What a `Index` holds, with each text as a sequence of characters.
pub struct IndexView {
    pub name: Seq<char>,
    pub columns: Seq<Seq<char>>,
    pub unique: bool,
}

impl DeepView for Index {
    type V = IndexView;

    open spec fn deep_view(&self) -> IndexView {
        IndexView { name: self.name@, columns: self.columns.deep_view(), unique: self.unique }
    }
}

/// The SQL text of an index, with `sep` between the column names.
pub open spec fn render_index(v: IndexView, sep: Seq<char>) -> Seq<char> {
    render_flag(v.unique, "UNIQUE "@) + "KEY "@ + quoted(v.name, '`') + " "@ + render_name_list(
        v.columns,
        sep,
    )
}

/// An index at `pos`: an optional `UNIQUE`, then `KEY` or `INDEX`, the
/// index name, and the columns between parentheses.
pub open spec fn spec_parse_index(s: Seq<char>, pos: int) -> Result<(IndexView, int), ParseError> {
    let unique: bool = sees_keyword(s, pos, "UNIQUE"@);
    let p: int = if unique {
        after_word(s, pos)
    } else {
        pos
    };
    if !sees_keyword(s, p, "KEY"@) && !sees_keyword(s, p, "INDEX"@) {
        Err(ParseError::Grammar { position: skip_ws(s, p) as usize })
    } else {
        match spec_parse_name(s, skip_ws(s, after_word(s, p))) {
            Err(e) => Err(e),
            Ok((name, n)) => match spec_parse_item_list(s, n, ItemKind::Name) {
                Err(e) => Err(e),
                Ok((columns, end)) => Ok((IndexView { name, columns, unique }, end)),
            },
        }
    }
}

/// Reads at `pos` what `spec_parse_index` describes.
pub fn parse_index(s: &Vec<char>, pos: usize) -> (r: Result<(Index, usize), ParseError>)
    requires
        pos <= s@.len(),
    ensures
        agrees(r, spec_parse_index(s@, pos as int), pos, s@.len()),
{
    let (unique, p) = match accept_keyword(s, pos, "UNIQUE") {
        Some(after) => (true, after),
        None => (false, pos),
    };
    let after: usize = match accept_keyword(s, p, "KEY") {
        Some(a) => a,
        None => match accept_keyword(s, p, "INDEX") {
            Some(a) => a,
            None => {
                return Err(ParseError::Grammar { position: scan_run(s, p, CharClass::Space) });
            },
        },
    };
    let start: usize = scan_run(s, after, CharClass::Space);
    match parse_name(s, start) {
        Err(e) => Err(e),
        Ok((name, n)) => match parse_item_list(s, n, ItemKind::Name) {
            Err(e) => Err(e),
            Ok((columns, end)) => Ok((Index { name, columns, unique }, end)),
        },
    }
}

impl Index {
    /// An index with the given name and columns.
    pub fn new(name: String, columns: Vec<String>, unique: bool) -> (i: Index)
        ensures
            i.name == name,
            i.columns == columns,
            i.unique == unique,
    {
        Index { name, columns, unique }
    }

    /// The index that `input` starts with.
    pub fn parse(input: &str) -> (r: Result<Index, ParseError>)
        ensures
            parsed(r, spec_parse_index(input@, 0)),
    {
        let s = chars_of(input);
        finish(parse_index(&s, 0))
    }

    /// Appends the SQL text of this index, with `sep` between the column
    /// names.
    pub fn write(&self, out: &mut String, sep: &str)
        ensures
            final(out)@ == old(out)@ + render_index(self.deep_view(), sep@),
    {
        let ghost base = old(out)@;
        let ghost v = self.deep_view();
        write_flag(out, self.unique, "UNIQUE ");
        out.append("KEY ");
        let ghost r1 = render_flag(v.unique, "UNIQUE "@) + "KEY "@;
        assert(out@ =~= base + r1);
        push_quoted(out, &self.name, '`');
        out.append(" ");
        let ghost r2 = r1 + quoted(v.name, '`') + " "@;
        assert(out@ =~= base + r2);
        write_name_list(out, &self.columns, sep);
        assert(out@ =~= base + (r2 + render_name_list(v.columns, sep@)));
        assert(r2 + render_name_list(v.columns, sep@) == render_index(v, sep@));
    }

    /// The SQL text of this index, the column names separated by a comma
    /// and a blank.
    pub fn to_string(&self) -> (r: String)
        ensures
            r@ == render_index(self.deep_view(), ", "@),
    {
        let mut out = String::new();
        self.write(&mut out, ", ");
        assert(out@ =~= render_index(self.deep_view(), ", "@));
        out
    }

    /// The SQL text of this index in its compact form, the column names
    /// separated by a comma alone.
    pub fn as_sql(&self) -> (r: String)
        ensures
            r@ == render_index(self.deep_view(), ","@),
    {
        let mut out = String::new();
        self.write(&mut out, ",");
        assert(out@ =~= render_index(self.deep_view(), ","@));
        out
    }
}

} // verus!
