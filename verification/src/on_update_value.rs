use vstd::prelude::*;
use vstd::string::*;
use crate::default_value::{render_timestamp, write_timestamp};
use crate::error::ParseError;
use crate::lex::{
    CharClass,
    agrees,
    at_keyword,
    finish,
    is_keyword,
    parse_opt_size,
    parsed,
    run_end,
    scan_run,
    skip_ws,
    spec_parse_opt_size,
};
use crate::text::chars_of;

verus! {

/// The value of a column's `ON UPDATE` clause.
#[derive(Debug, Clone, Copy, PartialEq, Eq, Structural)]
pub enum OnUpdateValue {
    Cascade,
    CurrentTimestamp { value: Option<u32> },
}

impl DeepView for OnUpdateValue {
    type V = OnUpdateValue;

    open spec fn deep_view(&self) -> OnUpdateValue {
        *self
    }
}

/// The SQL text of an `ON UPDATE` value.
pub open spec fn render_on_update_value(v: OnUpdateValue) -> Seq<char> {
    match v {
        OnUpdateValue::Cascade => "CASCADE"@,
        OnUpdateValue::CurrentTimestamp { value } => render_timestamp(value),
    }
}

/// An `ON UPDATE` value at `pos`: `CASCADE`, or `CURRENT_TIMESTAMP` with an
/// optional precision. Any other word is a conversion error.
pub open spec fn spec_parse_on_update_value(s: Seq<char>, pos: int) -> Result<
    (OnUpdateValue, int),
    ParseError,
> {
    let p: int = skip_ws(s, pos);
    if at_keyword(s, p, "CASCADE"@) {
        Ok((OnUpdateValue::Cascade, run_end(s, p, CharClass::Word)))
    } else if at_keyword(s, p, "CURRENT_TIMESTAMP"@) {
        match spec_parse_opt_size(s, run_end(s, p, CharClass::Word)) {
            Err(e) => Err(e),
            Ok((value, end)) => Ok((OnUpdateValue::CurrentTimestamp { value }, end)),
        }
    } else {
        Err(ParseError::Conversion { position: p as usize })
    }
}

/// Reads at `pos` what `spec_parse_on_update_value` describes.
pub fn parse_on_update_value(s: &Vec<char>, pos: usize) -> (r: Result<
    (OnUpdateValue, usize),
    ParseError,
>)
    requires
        pos <= s@.len(),
    ensures
        agrees(r, spec_parse_on_update_value(s@, pos as int), pos, s@.len()),
{
    let p: usize = scan_run(s, pos, CharClass::Space);
    if is_keyword(s, p, "CASCADE") {
        Ok((OnUpdateValue::Cascade, scan_run(s, p, CharClass::Word)))
    } else if is_keyword(s, p, "CURRENT_TIMESTAMP") {
        let after: usize = scan_run(s, p, CharClass::Word);
        match parse_opt_size(s, after) {
            Err(e) => Err(e),
            Ok((value, end)) => Ok((OnUpdateValue::CurrentTimestamp { value }, end)),
        }
    } else {
        Err(ParseError::Conversion { position: p })
    }
}

impl OnUpdateValue {
    /// The `ON UPDATE` value that `input` starts with.
    pub fn parse(input: &str) -> (r: Result<OnUpdateValue, ParseError>)
        ensures
            parsed(r, spec_parse_on_update_value(input@, 0)),
    {
        let s = chars_of(input);
        finish(parse_on_update_value(&s, 0))
    }

    /// Appends the SQL text of this value.
    pub fn write(&self, out: &mut String)
        ensures
            final(out)@ == old(out)@ + render_on_update_value(*self),
    {
        match self {
            OnUpdateValue::Cascade => out.append("CASCADE"),
            OnUpdateValue::CurrentTimestamp { value } => write_timestamp(out, *value),
        }
    }

    /// The SQL text of this value.
    pub fn to_string(&self) -> (r: String)
        ensures
            r@ == render_on_update_value(*self),
    {
        let mut out = String::new();
        self.write(&mut out);
        assert(out@ =~= render_on_update_value(*self));
        out
    }

    /// The SQL text of this value.
    pub fn as_sql(&self) -> (r: String)
        ensures
            r@ == render_on_update_value(*self),
    {
        self.to_string()
    }
}

} // verus!
