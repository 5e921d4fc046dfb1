use vstd::prelude::*;
use vstd::string::*;
use crate::data_type::{render_flag, write_flag};
use crate::database_option::{
    DatabaseOption,
    DatabaseOptionView,
    parse_database_options,
    render_database_options,
    spec_parse_database_options,
    write_database_options,
};
use crate::drop_table::{parse_if_not_exists, spec_parse_if_not_exists};
use crate::error::ParseError;
use crate::lex::{
    CharClass,
    agrees,
    expect_keyword,
    finish,
    parse_name,
    parsed,
    scan_run,
    skip_ws,
    spec_expect_keyword,
    spec_parse_name,
};
use crate::text::{chars_of, push_quoted, quoted};

verus! {

/// A `CREATE DATABASE` statement.
#[derive(Debug, Clone, PartialEq, Eq)]
pub struct CreateDatabase {
    pub name: String,
    pub if_not_exists: bool,
    pub options: Vec<DatabaseOption>,
}

/// What a `CreateDatabase` holds, with each text as a sequence of characters.
pub struct CreateDatabaseView {
    pub name: Seq<char>,
    pub if_not_exists: bool,
    pub options: Seq<DatabaseOptionView>,
}

impl DeepView for CreateDatabase {
    type V = CreateDatabaseView;

    open spec fn deep_view(&self) -> CreateDatabaseView {
        CreateDatabaseView {
            name: self.name@,
            if_not_exists: self.if_not_exists,
            options: self.options.deep_view(),
        }
    }
}

/// The SQL text of a `CREATE DATABASE` statement, without a closing
/// semicolon: the options follow the name in their stored order.
pub open spec fn render_create_database(v: CreateDatabaseView) -> Seq<char> {
    "CREATE DATABASE"@ + render_flag(v.if_not_exists, " IF NOT EXISTS"@) + " "@ + quoted(
        v.name,
        '`',
    ) + render_database_options(v.options)
}

/// A `CREATE DATABASE` statement at `pos`: `CREATE DATABASE`, an optional
/// `IF NOT EXISTS`, a name, and zero or more options.
pub open spec fn spec_parse_create_database(s: Seq<char>, pos: int) -> Result<
    (CreateDatabaseView, int),
    ParseError,
> {
    match spec_expect_keyword(s, pos, "CREATE"@) {
        Err(e) => Err(e),
        Ok(c) => match spec_expect_keyword(s, c, "DATABASE"@) {
            Err(e) => Err(e),
            Ok(d) => match spec_parse_if_not_exists(s, d) {
                Err(e) => Err(e),
                Ok((if_not_exists, p)) => match spec_parse_name(s, skip_ws(s, p)) {
                    Err(e) => Err(e),
                    Ok((name, n)) => match spec_parse_database_options(s, n) {
                        Err(e) => Err(e),
                        Ok((options, end)) => Ok(
                            (CreateDatabaseView { name, if_not_exists, options }, end),
                        ),
                    },
                },
            },
        },
    }
}

/// Reads at `pos` what `spec_parse_create_database` describes.
pub fn parse_create_database(s: &Vec<char>, pos: usize) -> (r: Result<
    (CreateDatabase, usize),
    ParseError,
>)
    requires
        pos <= s@.len(),
    ensures
        agrees(r, spec_parse_create_database(s@, pos as int), pos, s@.len()),
{
    let c: usize = match expect_keyword(s, pos, "CREATE") {
        Err(e) => { return Err(e); },
        Ok(found) => found,
    };
    let d: usize = match expect_keyword(s, c, "DATABASE") {
        Err(e) => { return Err(e); },
        Ok(found) => found,
    };
    let (if_not_exists, p) = match parse_if_not_exists(s, d) {
        Err(e) => { return Err(e); },
        Ok(found) => found,
    };
    let start: usize = scan_run(s, p, CharClass::Space);
    let (name, n) = match parse_name(s, start) {
        Err(e) => { return Err(e); },
        Ok(found) => found,
    };
    match parse_database_options(s, n) {
        Err(e) => Err(e),
        Ok((options, end)) => Ok((CreateDatabase { name, if_not_exists, options }, end)),
    }
}

impl CreateDatabase {
    /// The `CREATE DATABASE` statement that `input` starts with.
    pub fn parse(input: &str) -> (r: Result<CreateDatabase, ParseError>)
        ensures
            parsed(r, spec_parse_create_database(input@, 0)),
    {
        let s = chars_of(input);
        finish(parse_create_database(&s, 0))
    }

    /// Appends the SQL text of this statement.
    pub fn write(&self, out: &mut String)
        ensures
            final(out)@ == old(out)@ + render_create_database(self.deep_view()),
    {
        let ghost base = old(out)@;
        let ghost v = self.deep_view();
        out.append("CREATE DATABASE");
        write_flag(out, self.if_not_exists, " IF NOT EXISTS");
        out.append(" ");
        let ghost r1 = "CREATE DATABASE"@ + render_flag(v.if_not_exists, " IF NOT EXISTS"@) + " "@;
        assert(out@ =~= base + r1);
        push_quoted(out, &self.name, '`');
        let ghost r2 = r1 + quoted(v.name, '`');
        assert(out@ =~= base + r2);
        write_database_options(out, &self.options);
        assert(out@ =~= base + (r2 + render_database_options(v.options)));
        assert(r2 + render_database_options(v.options) == render_create_database(v));
    }

    /// The SQL text of this statement, without a closing semicolon.
    pub fn to_string(&self) -> (r: String)
        ensures
            r@ == render_create_database(self.deep_view()),
    {
        let mut out = String::new();
        self.write(&mut out);
        assert(out@ =~= render_create_database(self.deep_view()));
        out
    }

    /// The SQL text of this statement, closed by a semicolon.
    pub fn as_sql(&self) -> (r: String)
        ensures
            r@ == render_create_database(self.deep_view()) + ";"@,
    {
        let mut out = String::new();
        self.write(&mut out);
        out.append(";");
        assert(out@ =~= render_create_database(self.deep_view()) + ";"@);
        out
    }
}

} // verus!
