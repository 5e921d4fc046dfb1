use vstd::prelude::*;
use vstd::string::*;
use crate::error::ParseError;
use crate::lex::{
    CharClass,
    agrees,
    at_char,
    at_keyword,
    finish,
    is_char,
    is_keyword,
    number_end,
    parse_number,
    parse_string,
    parse_word,
    parsed,
    run_end,
    scan_number,
    scan_run,
    skip_ws,
    spec_parse_number,
    spec_parse_string,
    spec_parse_word,
};
use crate::text::{chars_of, push_quoted, push_text, quoted};

verus! {

/// One value of a row of an `INSERT` statement.
#[derive(Debug, Clone, PartialEq, Eq)]
pub enum InsertValue {
    Null,
    Default,
    Text { value: String },
    Number { value: String },
    Identifier { value: String },
}

/// What a `InsertValue` holds, with each text as a sequence of characters.
pub enum InsertValueView {
    Null,
    Default,
    Text { value: Seq<char> },
    Number { value: Seq<char> },
    Identifier { value: Seq<char> },
}

impl DeepView for InsertValue {
    type V = InsertValueView;

    open spec fn deep_view(&self) -> InsertValueView {
        match *self {
            InsertValue::Null => InsertValueView::Null,
            InsertValue::Default => InsertValueView::Default,
            InsertValue::Text { value } => InsertValueView::Text { value: value@ },
            InsertValue::Number { value } => InsertValueView::Number { value: value@ },
            InsertValue::Identifier { value } => InsertValueView::Identifier { value: value@ },
        }
    }
}

/// The SQL text of an inserted value: a keyword, a string between single
/// quotes, or a number or identifier as it was written.
pub open spec fn render_insert_value(v: InsertValueView) -> Seq<char> {
    match v {
        InsertValueView::Null => "NULL"@,
        InsertValueView::Default => "DEFAULT"@,
        InsertValueView::Text { value } => quoted(value, '\''),
        InsertValueView::Number { value } => value,
        InsertValueView::Identifier { value } => value,
    }
}

/// An inserted value at `pos`: `NULL`, `DEFAULT`, a string literal, a
/// numeric literal, or a bare word.
pub open spec fn spec_parse_insert_value(s: Seq<char>, pos: int) -> Result<
    (InsertValueView, int),
    ParseError,
> {
    let p: int = skip_ws(s, pos);
    if at_keyword(s, p, "NULL"@) {
        Ok((InsertValueView::Null, run_end(s, p, CharClass::Word)))
    } else if at_keyword(s, p, "DEFAULT"@) {
        Ok((InsertValueView::Default, run_end(s, p, CharClass::Word)))
    } else if at_char(s, p, '\'') {
        match spec_parse_string(s, p) {
            Err(e) => Err(e),
            Ok((value, end)) => Ok((InsertValueView::Text { value }, end)),
        }
    } else if number_end(s, p) != p {
        match spec_parse_number(s, p) {
            Err(e) => Err(e),
            Ok((value, end)) => Ok((InsertValueView::Number { value }, end)),
        }
    } else {
        match spec_parse_word(s, p) {
            Err(e) => Err(e),
            Ok((value, end)) => Ok((InsertValueView::Identifier { value }, end)),
        }
    }
}

/// Reads at `pos` what `spec_parse_insert_value` describes.
pub fn parse_insert_value(s: &Vec<char>, pos: usize) -> (r: Result<
    (InsertValue, usize),
    ParseError,
>)
    requires
        pos <= s@.len(),
    ensures
        agrees(r, spec_parse_insert_value(s@, pos as int), pos, s@.len()),
{
    let p: usize = scan_run(s, pos, CharClass::Space);
    if is_keyword(s, p, "NULL") {
        Ok((InsertValue::Null, scan_run(s, p, CharClass::Word)))
    } else if is_keyword(s, p, "DEFAULT") {
        Ok((InsertValue::Default, scan_run(s, p, CharClass::Word)))
    } else if is_char(s, p, '\'') {
        match parse_string(s, p) {
            Err(e) => Err(e),
            Ok((value, end)) => Ok((InsertValue::Text { value }, end)),
        }
    } else if scan_number(s, p) != p {
        match parse_number(s, p) {
            Err(e) => Err(e),
            Ok((value, end)) => Ok((InsertValue::Number { value }, end)),
        }
    } else {
        match parse_word(s, p) {
            Err(e) => Err(e),
            Ok((value, end)) => Ok((InsertValue::Identifier { value }, end)),
        }
    }
}

impl InsertValue {
    /// The inserted value that `input` starts with.
    pub fn parse(input: &str) -> (r: Result<InsertValue, ParseError>)
        ensures
            parsed(r, spec_parse_insert_value(input@, 0)),
    {
        let s = chars_of(input);
        finish(parse_insert_value(&s, 0))
    }

    /// Appends the SQL text of this value.
    pub fn write(&self, out: &mut String)
        ensures
            final(out)@ == old(out)@ + render_insert_value(self.deep_view()),
    {
        match self {
            InsertValue::Null => out.append("NULL"),
            InsertValue::Default => out.append("DEFAULT"),
            InsertValue::Text { value } => push_quoted(out, value, '\''),
            InsertValue::Number { value } => push_text(out, value),
            InsertValue::Identifier { value } => push_text(out, value),
        }
    }

    /// The SQL text of this value.
    pub fn to_string(&self) -> (r: String)
        ensures
            r@ == render_insert_value(self.deep_view()),
    {
        let mut out = String::new();
        self.write(&mut out);
        assert(out@ =~= render_insert_value(self.deep_view()));
        out
    }

    /// The SQL text of this value.
    pub fn as_sql(&self) -> (r: String)
        ensures
            r@ == render_insert_value(self.deep_view()),
    {
        self.to_string()
    }
}

} // verus!
