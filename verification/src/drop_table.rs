use vstd::prelude::*;
use vstd::string::*;
use crate::data_type::{render_flag, write_flag};
use crate::error::ParseError;
use crate::lex::{
    ItemKind,
    accept_keyword,
    after_word,
    agrees,
    expect_keyword,
    finish,
    parse_items,
    parsed,
    sees_keyword,
    spec_expect_keyword,
    spec_parse_items,
};
use crate::text::{chars_of, join_quoted, push_join_quoted};

verus! {

/// A `DROP TABLE` statement: the tables to remove, in their order.
#[derive(Debug, Clone, PartialEq, Eq)]
pub struct DropTable {
    pub names: Vec<String>,
    pub temporary: bool,
    pub if_exists: bool,
}

/// What a `DropTable` holds, with each text as a sequence of characters.
pub struct DropTableView {
    pub names: Seq<Seq<char>>,
    pub temporary: bool,
    pub if_exists: bool,
}

impl DeepView for DropTable {
    type V = DropTableView;

    open spec fn deep_view(&self) -> DropTableView {
        DropTableView {
            names: self.names.deep_view(),
            temporary: self.temporary,
            if_exists: self.if_exists,
        }
    }
}

/// The SQL text of a `DROP TABLE` statement, without a closing semicolon.
pub open spec fn render_drop_table(v: DropTableView) -> Seq<char> {
    "DROP"@ + render_flag(v.temporary, " TEMPORARY"@) + " TABLE"@ + render_flag(
        v.if_exists,
        " IF EXISTS"@,
    ) + " "@ + join_quoted(v.names, '`', ", "@)
}

/// An optional `IF EXISTS` at `pos`: whether it stands there, and the
/// position after it. `IF` with another word after it is a grammar error.
pub open spec fn spec_parse_if_exists(s: Seq<char>, pos: int) -> Result<(bool, int), ParseError> {
    if !sees_keyword(s, pos, "IF"@) {
        Ok((false, pos))
    } else {
        match spec_expect_keyword(s, after_word(s, pos), "EXISTS"@) {
            Err(e) => Err(e),
            Ok(end) => Ok((true, end)),
        }
    }
}

/// Reads at `pos` what `spec_parse_if_exists` describes.
pub fn parse_if_exists(s: &Vec<char>, pos: usize) -> (r: Result<(bool, usize), ParseError>)
    requires
        pos <= s@.len(),
    ensures
        agrees(r, spec_parse_if_exists(s@, pos as int), pos, s@.len()),
{
    match accept_keyword(s, pos, "IF") {
        None => Ok((false, pos)),
        Some(after) => match expect_keyword(s, after, "EXISTS") {
            Err(e) => Err(e),
            Ok(end) => Ok((true, end)),
        },
    }
}

/// An optional `IF NOT EXISTS` at `pos`: whether it stands there, and the
/// position after it. `IF` with other words after it is a grammar error.
pub open spec fn spec_parse_if_not_exists(s: Seq<char>, pos: int) -> Result<
    (bool, int),
    ParseError,
> {
    if !sees_keyword(s, pos, "IF"@) {
        Ok((false, pos))
    } else {
        match spec_expect_keyword(s, after_word(s, pos), "NOT"@) {
            Err(e) => Err(e),
            Ok(n) => match spec_expect_keyword(s, n, "EXISTS"@) {
                Err(e) => Err(e),
                Ok(end) => Ok((true, end)),
            },
        }
    }
}

/// Reads at `pos` what `spec_parse_if_not_exists` describes.
pub fn parse_if_not_exists(s: &Vec<char>, pos: usize) -> (r: Result<(bool, usize), ParseError>)
    requires
        pos <= s@.len(),
    ensures
        agrees(r, spec_parse_if_not_exists(s@, pos as int), pos, s@.len()),
{
    match accept_keyword(s, pos, "IF") {
        None => Ok((false, pos)),
        Some(after) => match expect_keyword(s, after, "NOT") {
            Err(e) => Err(e),
            Ok(n) => match expect_keyword(s, n, "EXISTS") {
                Err(e) => Err(e),
                Ok(end) => Ok((true, end)),
            },
        },
    }
}

/// A `DROP TABLE` statement at `pos`: `DROP`, an optional `TEMPORARY`,
/// `TABLE`, an optional `IF EXISTS`, and one or more names separated by
/// commas.
pub open spec fn spec_parse_drop_table(s: Seq<char>, pos: int) -> Result<
    (DropTableView, int),
    ParseError,
> {
    match spec_expect_keyword(s, pos, "DROP"@) {
        Err(e) => Err(e),
        Ok(d) => {
            let temporary: bool = sees_keyword(s, d, "TEMPORARY"@);
            let p: int = if temporary {
                after_word(s, d)
            } else {
                d
            };
            match spec_expect_keyword(s, p, "TABLE"@) {
                Err(e) => Err(e),
                Ok(t) => match spec_parse_if_exists(s, t) {
                    Err(e) => Err(e),
                    Ok((if_exists, n)) => match spec_parse_items(s, n, ItemKind::Name) {
                        Err(e) => Err(e),
                        Ok((names, end)) => Ok((DropTableView { names, temporary, if_exists }, end)),
                    },
                },
            }
        },
    }
}

/// Reads at `pos` what `spec_parse_drop_table` describes.
pub fn parse_drop_table(s: &Vec<char>, pos: usize) -> (r: Result<(DropTable, usize), ParseError>)
    requires
        pos <= s@.len(),
    ensures
        agrees(r, spec_parse_drop_table(s@, pos as int), pos, s@.len()),
{
    let d: usize = match expect_keyword(s, pos, "DROP") {
        Err(e) => { return Err(e); },
        Ok(found) => found,
    };
    let (temporary, p) = match accept_keyword(s, d, "TEMPORARY") {
        Some(after) => (true, after),
        None => (false, d),
    };
    let t: usize = match expect_keyword(s, p, "TABLE") {
        Err(e) => { return Err(e); },
        Ok(found) => found,
    };
    let (if_exists, n) = match parse_if_exists(s, t) {
        Err(e) => { return Err(e); },
        Ok(found) => found,
    };
    match parse_items(s, n, ItemKind::Name) {
        Err(e) => Err(e),
        Ok((names, end)) => Ok((DropTable { names, temporary, if_exists }, end)),
    }
}

impl DropTable {
    /// The `DROP TABLE` statement that `input` starts with.
    pub fn parse(input: &str) -> (r: Result<DropTable, ParseError>)
        ensures
            parsed(r, spec_parse_drop_table(input@, 0)),
    {
        let s = chars_of(input);
        finish(parse_drop_table(&s, 0))
    }

    /// Appends the SQL text of this statement.
    pub fn write(&self, out: &mut String)
        ensures
            final(out)@ == old(out)@ + render_drop_table(self.deep_view()),
    {
        let ghost base = old(out)@;
        let ghost v = self.deep_view();
        out.append("DROP");
        write_flag(out, self.temporary, " TEMPORARY");
        out.append(" TABLE");
        let ghost r1 = "DROP"@ + render_flag(v.temporary, " TEMPORARY"@) + " TABLE"@;
        assert(out@ =~= base + r1);
        write_flag(out, self.if_exists, " IF EXISTS");
        out.append(" ");
        let ghost r2 = r1 + render_flag(v.if_exists, " IF EXISTS"@) + " "@;
        assert(out@ =~= base + r2);
        push_join_quoted(out, &self.names, '`', ", ");
        assert(out@ =~= base + (r2 + join_quoted(v.names, '`', ", "@)));
        assert(r2 + join_quoted(v.names, '`', ", "@) == render_drop_table(v));
    }

    /// The SQL text of this statement, without a closing semicolon.
    pub fn to_string(&self) -> (r: String)
        ensures
            r@ == render_drop_table(self.deep_view()),
    {
        let mut out = String::new();
        self.write(&mut out);
        assert(out@ =~= render_drop_table(self.deep_view()));
        out
    }

    /// The SQL text of this statement, closed by a semicolon.
    pub fn as_sql(&self) -> (r: String)
        ensures
            r@ == render_drop_table(self.deep_view()) + ";"@,
    {
        let mut out = String::new();
        self.write(&mut out);
        out.append(";");
        assert(out@ =~= render_drop_table(self.deep_view()) + ";"@);
        out
    }
}

} // verus!
