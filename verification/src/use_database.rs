use vstd::prelude::*;
use vstd::string::*;
use crate::error::ParseError;
use crate::lex::{
    CharClass,
    agrees,
    expect_keyword,
    finish,
    parse_name,
    parsed,
    scan_run,
    skip_ws,
    spec_expect_keyword,
    spec_parse_name,
};
use crate::text::{chars_of, push_quoted, quoted};

verus! {

/// A `USE` statement: the database that the following statements address.
#[derive(Debug, Clone, PartialEq, Eq)]
pub struct UseDatabase {
    pub name: String,
}

/// What a `UseDatabase` holds, with each text as a sequence of characters.
pub struct UseDatabaseView {
    pub name: Seq<char>,
}

impl DeepView for UseDatabase {
    type V = UseDatabaseView;

    open spec fn deep_view(&self) -> UseDatabaseView {
        UseDatabaseView { name: self.name@ }
    }
}

/// The SQL text of a `USE` statement, without a closing semicolon.
pub open spec fn render_use_database(v: UseDatabaseView) -> Seq<char> {
    "USE "@ + quoted(v.name, '`')
}

/// A `USE` statement at `pos`: `USE` and a name.
pub open spec fn spec_parse_use_database(s: Seq<char>, pos: int) -> Result<
    (UseDatabaseView, int),
    ParseError,
> {
    match spec_expect_keyword(s, pos, "USE"@) {
        Err(e) => Err(e),
        Ok(p) => match spec_parse_name(s, skip_ws(s, p)) {
            Err(e) => Err(e),
            Ok((name, end)) => Ok((UseDatabaseView { name }, end)),
        },
    }
}

/// Reads at `pos` what `spec_parse_use_database` describes.
pub fn parse_use_database(s: &Vec<char>, pos: usize) -> (r: Result<
    (UseDatabase, usize),
    ParseError,
>)
    requires
        pos <= s@.len(),
    ensures
        agrees(r, spec_parse_use_database(s@, pos as int), pos, s@.len()),
{
    match expect_keyword(s, pos, "USE") {
        Err(e) => Err(e),
        Ok(p) => {
            let q: usize = scan_run(s, p, CharClass::Space);
            match parse_name(s, q) {
                Err(e) => Err(e),
                Ok((name, end)) => Ok((UseDatabase { name }, end)),
            }
        },
    }
}

impl UseDatabase {
    /// The `USE` statement that `input` starts with.
    pub fn parse(input: &str) -> (r: Result<UseDatabase, ParseError>)
        ensures
            parsed(r, spec_parse_use_database(input@, 0)),
    {
        let s = chars_of(input);
        finish(parse_use_database(&s, 0))
    }

    /// Appends the SQL text of this statement.
    pub fn write(&self, out: &mut String)
        ensures
            final(out)@ == old(out)@ + render_use_database(self.deep_view()),
    {
        out.append("USE ");
        push_quoted(out, &self.name, '`');
        assert(out@ =~= old(out)@ + render_use_database(self.deep_view()));
    }

    /// The SQL text of this statement, without a closing semicolon.
    pub fn to_string(&self) -> (r: String)
        ensures
            r@ == render_use_database(self.deep_view()),
    {
        let mut out = String::new();
        self.write(&mut out);
        assert(out@ =~= render_use_database(self.deep_view()));
        out
    }

    /// The SQL text of this statement, closed by a semicolon.
    pub fn as_sql(&self) -> (r: String)
        ensures
            r@ == render_use_database(self.deep_view()) + ";"@,
    {
        let mut out = String::new();
        self.write(&mut out);
        out.append(";");
        assert(out@ =~= render_use_database(self.deep_view()) + ";"@);
        out
    }
}

} // verus!
