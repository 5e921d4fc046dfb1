use vstd::prelude::*;
use vstd::string::*;
use crate::error::ParseError;
use crate::lex::{
    CharClass,
    ItemKind,
    accept_keyword,
    after_word,
    agrees,
    expect_keyword,
    finish,
    parse_item_list,
    parse_name,
    parse_word,
    parsed,
    scan_run,
    sees_keyword,
    skip_ws,
    spec_expect_keyword,
    spec_parse_item_list,
    spec_parse_name,
    spec_parse_word,
};
use crate::primary_key::{
    parse_constraint_name,
    render_constraint_name,
    render_name_list,
    spec_parse_constraint_name,
    write_constraint_name,
    write_name_list,
};
use crate::text::{chars_of, push_quoted, push_text, quoted};

verus! {

/// A foreign key: local columns that refer, position by position, to the
/// columns of another table.
#[derive(Debug, Clone, PartialEq, Eq)]
pub struct ForeignKey {
    pub name: Option<String>,
    pub local_column_names: Vec<String>,
    pub foreign_column_names: Vec<String>,
    pub foreign_table_name: String,
    pub on_update: Option<String>,
}

/// What a `ForeignKey` holds, with each text as a sequence of characters.
pub struct ForeignKeyView {
    pub name: Option<Seq<char>>,
    pub local_column_names: Seq<Seq<char>>,
    pub foreign_column_names: Seq<Seq<char>>,
    pub foreign_table_name: Seq<char>,
    pub on_update: Option<Seq<char>>,
}

impl DeepView for ForeignKey {
    type V = ForeignKeyView;

    open spec fn deep_view(&self) -> ForeignKeyView {
        ForeignKeyView {
            name: self.name.deep_view(),
            local_column_names: self.local_column_names.deep_view(),
            foreign_column_names: self.foreign_column_names.deep_view(),
            foreign_table_name: self.foreign_table_name@,
            on_update: self.on_update.deep_view(),
        }
    }
}

/// ` ON UPDATE action`, or nothing.
pub open spec fn render_action(v: Option<Seq<char>>) -> Seq<char> {
    match v {
        Some(a) => " ON UPDATE "@ + a,
        None => Seq::empty(),
    }
}

/// The SQL text of a foreign key, with `sep` between the column names of
/// each list.
pub open spec fn render_foreign_key(v: ForeignKeyView, sep: Seq<char>) -> Seq<char> {
    render_constraint_name(v.name) + "FOREIGN KEY "@ + render_name_list(v.local_column_names, sep)
        + " REFERENCES "@ + quoted(v.foreign_table_name, '`') + " "@ + render_name_list(
        v.foreign_column_names,
        sep,
    ) + render_action(v.on_update)
}

/// An optional `ON UPDATE action` at `pos`; the action is one word. `ON`
/// with another word after it is a grammar error.
pub open spec fn spec_parse_action(s: Seq<char>, pos: int) -> Result<
    (Option<Seq<char>>, int),
    ParseError,
> {
    if !sees_keyword(s, pos, "ON"@) {
        Ok((None, pos))
    } else {
        match spec_expect_keyword(s, after_word(s, pos), "UPDATE"@) {
            Err(e) => Err(e),
            Ok(p) => match spec_parse_word(s, skip_ws(s, p)) {
                Err(e) => Err(e),
                Ok((a, end)) => Ok((Some(a), end)),
            },
        }
    }
}

/// Reads at `pos` what `spec_parse_action` describes.
pub fn parse_action(s: &Vec<char>, pos: usize) -> (r: Result<(Option<String>, usize), ParseError>)
    requires
        pos <= s@.len(),
    ensures
        agrees(r, spec_parse_action(s@, pos as int), pos, s@.len()),
{
    match accept_keyword(s, pos, "ON") {
        None => Ok((None, pos)),
        Some(after) => match expect_keyword(s, after, "UPDATE") {
            Err(e) => Err(e),
            Ok(p) => {
                let q: usize = scan_run(s, p, CharClass::Space);
                match parse_word(s, q) {
                    Err(e) => Err(e),
                    Ok((a, end)) => Ok((Some(a), end)),
                }
            },
        },
    }
}

/// What follows `REFERENCES`: the foreign table, its columns between
/// parentheses, and an optional `ON UPDATE` action.
pub open spec fn spec_parse_reference(
    s: Seq<char>,
    pos: int,
    name: Option<Seq<char>>,
    local_column_names: Seq<Seq<char>>,
) -> Result<(ForeignKeyView, int), ParseError> {
    match spec_parse_name(s, skip_ws(s, pos)) {
        Err(e) => Err(e),
        Ok((foreign_table_name, t)) => match spec_parse_item_list(s, t, ItemKind::Name) {
            Err(e) => Err(e),
            Ok((foreign_column_names, f)) => match spec_parse_action(s, f) {
                Err(e) => Err(e),
                Ok((on_update, end)) => Ok(
                    (
                        ForeignKeyView {
                            name,
                            local_column_names,
                            foreign_column_names,
                            foreign_table_name,
                            on_update,
                        },
                        end,
                    ),
                ),
            },
        },
    }
}

/// A foreign key at `pos`: an optional constraint name, `FOREIGN KEY`, the
/// local columns between parentheses, `REFERENCES`, and the reference.
pub open spec fn spec_parse_foreign_key(s: Seq<char>, pos: int) -> Result<
    (ForeignKeyView, int),
    ParseError,
> {
    match spec_parse_constraint_name(s, pos) {
        Err(e) => Err(e),
        Ok((name, p)) => match spec_expect_keyword(s, p, "FOREIGN"@) {
            Err(e) => Err(e),
            Ok(q) => match spec_expect_keyword(s, q, "KEY"@) {
                Err(e) => Err(e),
                Ok(k) => match spec_parse_item_list(s, k, ItemKind::Name) {
                    Err(e) => Err(e),
                    Ok((local_column_names, l)) => match spec_expect_keyword(
                        s,
                        l,
                        "REFERENCES"@,
                    ) {
                        Err(e) => Err(e),
                        Ok(r) => spec_parse_reference(s, r, name, local_column_names),
                    },
                },
            },
        },
    }
}

fn parse_reference(
    s: &Vec<char>,
    pos: usize,
    name: Option<String>,
    local_column_names: Vec<String>,
) -> (r: Result<(ForeignKey, usize), ParseError>)
    requires
        pos <= s@.len(),
    ensures
        agrees(
            r,
            spec_parse_reference(
                s@,
                pos as int,
                name.deep_view(),
                local_column_names.deep_view(),
            ),
            pos,
            s@.len(),
        ),
{
    let start: usize = scan_run(s, pos, CharClass::Space);
    match parse_name(s, start) {
        Err(e) => Err(e),
        Ok((foreign_table_name, t)) => match parse_item_list(s, t, ItemKind::Name) {
            Err(e) => Err(e),
            Ok((foreign_column_names, f)) => match parse_action(s, f) {
                Err(e) => Err(e),
                Ok((on_update, end)) => Ok(
                    (
                        ForeignKey {
                            name,
                            local_column_names,
                            foreign_column_names,
                            foreign_table_name,
                            on_update,
                        },
                        end,
                    ),
                ),
            },
        },
    }
}

/// Reads at `pos` what `spec_parse_foreign_key` describes.
pub fn parse_foreign_key(s: &Vec<char>, pos: usize) -> (r: Result<(ForeignKey, usize), ParseError>)
    requires
        pos <= s@.len(),
    ensures
        agrees(r, spec_parse_foreign_key(s@, pos as int), pos, s@.len()),
{
    match parse_constraint_name(s, pos) {
        Err(e) => Err(e),
        Ok((name, p)) => match expect_keyword(s, p, "FOREIGN") {
            Err(e) => Err(e),
            Ok(q) => match expect_keyword(s, q, "KEY") {
                Err(e) => Err(e),
                Ok(k) => match parse_item_list(s, k, ItemKind::Name) {
                    Err(e) => Err(e),
                    Ok((local_column_names, l)) => match expect_keyword(s, l, "REFERENCES") {
                        Err(e) => Err(e),
                        Ok(r) => parse_reference(s, r, name, local_column_names),
                    },
                },
            },
        },
    }
}

impl ForeignKey {
    /// A foreign key without an `ON UPDATE` action.
    pub fn new(
        name: Option<String>,
        local_column_names: Vec<String>,
        foreign_column_names: Vec<String>,
        foreign_table_name: String,
    ) -> (k: ForeignKey)
        ensures
            k.name == name,
            k.local_column_names == local_column_names,
            k.foreign_column_names == foreign_column_names,
            k.foreign_table_name == foreign_table_name,
            k.on_update is None,
    {
        ForeignKey {
            name,
            local_column_names,
            foreign_column_names,
            foreign_table_name,
            on_update: None,
        }
    }

    /// The foreign key that `input` starts with.
    pub fn parse(input: &str) -> (r: Result<ForeignKey, ParseError>)
        ensures
            parsed(r, spec_parse_foreign_key(input@, 0)),
    {
        let s = chars_of(input);
        finish(parse_foreign_key(&s, 0))
    }

    /// Appends the SQL text of this key, with `sep` between the column
    /// names of each list.
    pub fn write(&self, out: &mut String, sep: &str)
        ensures
            final(out)@ == old(out)@ + render_foreign_key(self.deep_view(), sep@),
    {
        let ghost base = old(out)@;
        let ghost v = self.deep_view();
        write_constraint_name(out, &self.name);
        out.append("FOREIGN KEY ");
        let ghost r1 = render_constraint_name(v.name) + "FOREIGN KEY "@;
        assert(out@ =~= base + r1);
        write_name_list(out, &self.local_column_names, sep);
        out.append(" REFERENCES ");
        let ghost r2 = r1 + render_name_list(v.local_column_names, sep@) + " REFERENCES "@;
        assert(out@ =~= base + r2);
        push_quoted(out, &self.foreign_table_name, '`');
        out.append(" ");
        let ghost r3 = r2 + quoted(v.foreign_table_name, '`') + " "@;
        assert(out@ =~= base + r3);
        write_name_list(out, &self.foreign_column_names, sep);
        let ghost r4 = r3 + render_name_list(v.foreign_column_names, sep@);
        assert(out@ =~= base + r4);
        match &self.on_update {
            Some(a) => {
                out.append(" ON UPDATE ");
                push_text(out, a);
                assert(out@ =~= base + (r4 + render_action(v.on_update)));
            },
            None => {
                assert(out@ =~= base + (r4 + render_action(v.on_update)));
            },
        }
        assert(r4 + render_action(v.on_update) == render_foreign_key(v, sep@));
    }

    /// The SQL text of this key, the column names separated by a comma and
    /// a blank.
    pub fn to_string(&self) -> (r: String)
        ensures
            r@ == render_foreign_key(self.deep_view(), ", "@),
    {
        let mut out = String::new();
        self.write(&mut out, ", ");
        assert(out@ =~= render_foreign_key(self.deep_view(), ", "@));
        out
    }

    /// The SQL text of this key in its compact form, the column names
    /// separated by a comma alone.
    pub fn as_sql(&self) -> (r: String)
        ensures
            r@ == render_foreign_key(self.deep_view(), ","@),
    {
        let mut out = String::new();
        self.write(&mut out, ",");
        assert(out@ =~= render_foreign_key(self.deep_view(), ","@));
        out
    }
}

} // verus!
