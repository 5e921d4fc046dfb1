use vstd::prelude::*;
use vstd::string::*;
use crate::data_type::{render_size, write_size};
use crate::error::ParseError;
use crate::lex::{
    CharClass,
    agrees,
    at_char,
    at_keyword,
    finish,
    is_char,
    is_keyword,
    parse_number,
    parse_opt_size,
    parse_string,
    parsed,
    run_end,
    scan_run,
    skip_ws,
    spec_parse_number,
    spec_parse_opt_size,
    spec_parse_string,
};
use crate::text::{chars_of, push_quoted, push_text, quoted};

verus! {

/// The value of a column's `DEFAULT` clause.
#[allow(inconsistent_fields)]
#[derive(Debug, Clone, PartialEq, Eq)]
pub enum DefaultValue {
    Null,
    CurrentTimestamp { value: Option<u32> },
    Text { value: String },
    Number { value: String },
}

/// What a `DefaultValue` holds, with each text as a sequence of characters.
#[allow(inconsistent_fields)]
pub enum DefaultValueView {
    Null,
    CurrentTimestamp { value: Option<u32> },
    Text { value: Seq<char> },
    Number { value: Seq<char> },
}

impl DeepView for DefaultValue {
    type V = DefaultValueView;

    open spec fn deep_view(&self) -> DefaultValueView {
        match *self {
            DefaultValue::Null => DefaultValueView::Null,
            DefaultValue::CurrentTimestamp { value } => DefaultValueView::CurrentTimestamp {
                value,
            },
            DefaultValue::Text { value } => DefaultValueView::Text { value: value@ },
            DefaultValue::Number { value } => DefaultValueView::Number { value: value@ },
        }
    }
}

/// `CURRENT_TIMESTAMP`, followed by ` (n)` where a precision is given.
pub open spec fn render_timestamp(value: Option<u32>) -> Seq<char> {
    "CURRENT_TIMESTAMP"@ + render_size(value, None)
}

/// Appends `CURRENT_TIMESTAMP` and its precision, if any.
pub fn write_timestamp(out: &mut String, value: Option<u32>)
    ensures
        final(out)@ == old(out)@ + render_timestamp(value),
{
    out.append("CURRENT_TIMESTAMP");
    write_size(out, value, None);
    assert(out@ =~= old(out)@ + render_timestamp(value));
}

/// The SQL text of a default value: `NULL`, the timestamp function, a
/// string between single quotes, or a number as it was written.
pub open spec fn render_default_value(v: DefaultValueView) -> Seq<char> {
    match v {
        DefaultValueView::Null => "NULL"@,
        DefaultValueView::CurrentTimestamp { value } => render_timestamp(value),
        DefaultValueView::Text { value } => quoted(value, '\''),
        DefaultValueView::Number { value } => value,
    }
}

/// A default value at `pos`: `NULL`, `CURRENT_TIMESTAMP` with an optional
/// precision, a string literal, or a numeric literal.
pub open spec fn spec_parse_default_value(s: Seq<char>, pos: int) -> Result<
    (DefaultValueView, int),
    ParseError,
> {
    let p: int = skip_ws(s, pos);
    if at_keyword(s, p, "NULL"@) {
        Ok((DefaultValueView::Null, run_end(s, p, CharClass::Word)))
    } else if at_keyword(s, p, "CURRENT_TIMESTAMP"@) {
        match spec_parse_opt_size(s, run_end(s, p, CharClass::Word)) {
            Err(e) => Err(e),
            Ok((value, end)) => Ok((DefaultValueView::CurrentTimestamp { value }, end)),
        }
    } else if at_char(s, p, '\'') {
        match spec_parse_string(s, p) {
            Err(e) => Err(e),
            Ok((value, end)) => Ok((DefaultValueView::Text { value }, end)),
        }
    } else {
        match spec_parse_number(s, p) {
            Err(e) => Err(e),
            Ok((value, end)) => Ok((DefaultValueView::Number { value }, end)),
        }
    }
}

/// Reads at `pos` what `spec_parse_default_value` describes.
pub fn parse_default_value(s: &Vec<char>, pos: usize) -> (r: Result<
    (DefaultValue, usize),
    ParseError,
>)
    requires
        pos <= s@.len(),
    ensures
        agrees(r, spec_parse_default_value(s@, pos as int), pos, s@.len()),
{
    let p: usize = scan_run(s, pos, CharClass::Space);
    if is_keyword(s, p, "NULL") {
        Ok((DefaultValue::Null, scan_run(s, p, CharClass::Word)))
    } else if is_keyword(s, p, "CURRENT_TIMESTAMP") {
        let after: usize = scan_run(s, p, CharClass::Word);
        match parse_opt_size(s, after) {
            Err(e) => Err(e),
            Ok((value, end)) => Ok((DefaultValue::CurrentTimestamp { value }, end)),
        }
    } else if is_char(s, p, '\'') {
        match parse_string(s, p) {
            Err(e) => Err(e),
            Ok((value, end)) => Ok((DefaultValue::Text { value }, end)),
        }
    } else {
        match parse_number(s, p) {
            Err(e) => Err(e),
            Ok((value, end)) => Ok((DefaultValue::Number { value }, end)),
        }
    }
}

impl DefaultValue {
    /// The default value that `input` starts with.
    pub fn parse(input: &str) -> (r: Result<DefaultValue, ParseError>)
        ensures
            parsed(r, spec_parse_default_value(input@, 0)),
    {
        let s = chars_of(input);
        finish(parse_default_value(&s, 0))
    }

    /// Appends the SQL text of this value.
    pub fn write(&self, out: &mut String)
        ensures
            final(out)@ == old(out)@ + render_default_value(self.deep_view()),
    {
        match self {
            DefaultValue::Null => out.append("NULL"),
            DefaultValue::CurrentTimestamp { value } => write_timestamp(out, *value),
            DefaultValue::Text { value } => push_quoted(out, value, '\''),
            DefaultValue::Number { value } => push_text(out, value),
        }
    }

    /// The SQL text of this value.
    pub fn to_string(&self) -> (r: String)
        ensures
            r@ == render_default_value(self.deep_view()),
    {
        let mut out = String::new();
        self.write(&mut out);
        assert(out@ =~= render_default_value(self.deep_view()));
        out
    }

    /// The SQL text of this value.
    pub fn as_sql(&self) -> (r: String)
        ensures
            r@ == render_default_value(self.deep_view()),
    {
        self.to_string()
    }
}

} // verus!
