use vstd::prelude::*;
use vstd::string::*;
use crate::error::ParseError;
use crate::lex::{
    CharClass,
    agrees,
    expect_keyword,
    finish,
    parse_raw_name,
    parse_raw_value,
    parsed,
    run_end,
    scan_run,
    skip_ws,
    spec_expect_keyword,
    spec_parse_raw_name,
    spec_parse_raw_value,
};
use crate::text::{chars_of, push_text, string_of};

verus! {

/// A `WHERE` clause of one comparison. The three parts are kept as they
/// were written: a column between backticks keeps them, a string keeps its
/// quotes.
#[derive(Debug, Clone, PartialEq, Eq)]
pub struct Where {
    pub column: String,
    pub operator: String,
    pub value: String,
}

/// What a `Where` holds, with each text as a sequence of characters.
pub struct WhereView {
    pub column: Seq<char>,
    pub operator: Seq<char>,
    pub value: Seq<char>,
}

impl DeepView for Where {
    type V = WhereView;

    open spec fn deep_view(&self) -> WhereView {
        WhereView { column: self.column@, operator: self.operator@, value: self.value@ }
    }
}

/// The text of a comparison: column, operator and value, separated by
/// blanks.
pub open spec fn render_where(v: WhereView) -> Seq<char> {
    v.column + " "@ + v.operator + " "@ + v.value
}

/// A comparison at `pos`: a column name, an operator made of the
/// characters `=`, `<`, `>` and `!`, and a value.
pub open spec fn spec_parse_condition(s: Seq<char>, pos: int) -> Result<(WhereView, int), ParseError> {
    match spec_parse_raw_name(s, skip_ws(s, pos)) {
        Err(e) => Err(e),
        Ok((column, c)) => {
            let o: int = skip_ws(s, c);
            let after: int = run_end(s, o, CharClass::Operator);
            if after == o {
                Err(ParseError::Grammar { position: o as usize })
            } else {
                match spec_parse_raw_value(s, skip_ws(s, after)) {
                    Err(e) => Err(e),
                    Ok((value, end)) => Ok(
                        (WhereView { column, operator: s.subrange(o, after), value }, end),
                    ),
                }
            }
        },
    }
}

/// A `WHERE` clause at `pos`: `WHERE` and one comparison.
pub open spec fn spec_parse_where(s: Seq<char>, pos: int) -> Result<(WhereView, int), ParseError> {
    match spec_expect_keyword(s, pos, "WHERE"@) {
        Err(e) => Err(e),
        Ok(p) => spec_parse_condition(s, p),
    }
}

/// Reads at `pos` what `spec_parse_condition` describes.
pub fn parse_condition(s: &Vec<char>, pos: usize) -> (r: Result<(Where, usize), ParseError>)
    requires
        pos <= s@.len(),
    ensures
        agrees(r, spec_parse_condition(s@, pos as int), pos, s@.len()),
{
    let start: usize = scan_run(s, pos, CharClass::Space);
    match parse_raw_name(s, start) {
        Err(e) => Err(e),
        Ok((column, c)) => {
            let o: usize = scan_run(s, c, CharClass::Space);
            let after: usize = scan_run(s, o, CharClass::Operator);
            if after == o {
                Err(ParseError::Grammar { position: o })
            } else {
                let operator = string_of(s, o, after);
                let v: usize = scan_run(s, after, CharClass::Space);
                match parse_raw_value(s, v) {
                    Err(e) => Err(e),
                    Ok((value, end)) => Ok((Where { column, operator, value }, end)),
                }
            }
        },
    }
}

/// Reads at `pos` what `spec_parse_where` describes.
pub fn parse_where(s: &Vec<char>, pos: usize) -> (r: Result<(Where, usize), ParseError>)
    requires
        pos <= s@.len(),
    ensures
        agrees(r, spec_parse_where(s@, pos as int), pos, s@.len()),
{
    match expect_keyword(s, pos, "WHERE") {
        Err(e) => Err(e),
        Ok(p) => parse_condition(s, p),
    }
}

impl Where {
    /// The `WHERE` clause that `input` starts with.
    pub fn parse(input: &str) -> (r: Result<Where, ParseError>)
        ensures
            parsed(r, spec_parse_where(input@, 0)),
    {
        let s = chars_of(input);
        finish(parse_where(&s, 0))
    }

    /// Appends the text of the comparison.
    pub fn write(&self, out: &mut String)
        ensures
            final(out)@ == old(out)@ + render_where(self.deep_view()),
    {
        push_text(out, &self.column);
        out.append(" ");
        push_text(out, &self.operator);
        out.append(" ");
        push_text(out, &self.value);
        assert(out@ =~= old(out)@ + render_where(self.deep_view()));
    }

    /// The text of the comparison, without the keyword `WHERE`.
    pub fn to_string(&self) -> (r: String)
        ensures
            r@ == render_where(self.deep_view()),
    {
        let mut out = String::new();
        self.write(&mut out);
        assert(out@ =~= render_where(self.deep_view()));
        out
    }
}

} // verus!
