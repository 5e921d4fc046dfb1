use vstd::prelude::*;
use vstd::string::*;
use crate::data_type::{render_flag, write_flag};
use crate::error::ParseError;
use crate::lex::{
    CharClass,
    agrees,
    agrees_opt,
    at_keyword,
    expect_keyword,
    finish,
    is_keyword,
    lemma_push_view,
    parsed,
    run_end,
    scan_run,
    skip_ws,
    spec_expect_keyword,
    spec_value_string,
    spec_value_u32,
    spec_value_word,
    value_string,
    value_u32,
    value_word,
};
use crate::text::{chars_of, dec_digits, push_number, push_quoted, push_text, quoted};

verus! {

/// One option after the closing parenthesis of a `CREATE TABLE` statement.
/// `default` tells whether the keyword `DEFAULT` stood before the option.
#[allow(inconsistent_fields)]
#[derive(Debug, Clone, PartialEq, Eq)]
pub enum TableOption {
    AutoIncrement { value: u32 },
    CharacterSet { default: bool, value: String },
    Collate { default: bool, value: String },
    Comment { value: String },
    Engine { value: String },
    RowFormat { value: String },
    StatsPersistent { value: String },
}

/// What a `TableOption` holds, with each text as a sequence of characters.
#[allow(inconsistent_fields)]
pub enum TableOptionView {
    AutoIncrement { value: u32 },
    CharacterSet { default: bool, value: Seq<char> },
    Collate { default: bool, value: Seq<char> },
    Comment { value: Seq<char> },
    Engine { value: Seq<char> },
    RowFormat { value: Seq<char> },
    StatsPersistent { value: Seq<char> },
}

impl DeepView for TableOption {
    type V = TableOptionView;

    open spec fn deep_view(&self) -> TableOptionView {
        match *self {
            TableOption::AutoIncrement { value } => TableOptionView::AutoIncrement { value },
            TableOption::CharacterSet { default, value } => TableOptionView::CharacterSet {
                default,
                value: value@,
            },
            TableOption::Collate { default, value } => TableOptionView::Collate {
                default,
                value: value@,
            },
            TableOption::Comment { value } => TableOptionView::Comment { value: value@ },
            TableOption::Engine { value } => TableOptionView::Engine { value: value@ },
            TableOption::RowFormat { value } => TableOptionView::RowFormat { value: value@ },
            TableOption::StatsPersistent { value } => TableOptionView::StatsPersistent {
                value: value@,
            },
        }
    }
}

/// The SQL text of a table option: the keyword, an equals sign and the
/// value, with `DEFAULT ` before it where the flag is set.
pub open spec fn render_table_option(v: TableOptionView) -> Seq<char> {
    match v {
        TableOptionView::AutoIncrement { value } => "AUTO_INCREMENT="@ + dec_digits(value as nat),
        TableOptionView::CharacterSet { default, value } => render_flag(default, "DEFAULT "@)
            + "CHARSET="@ + value,
        TableOptionView::Collate { default, value } => render_flag(default, "DEFAULT "@)
            + "COLLATE="@ + value,
        TableOptionView::Comment { value } => "COMMENT="@ + quoted(value, '\''),
        TableOptionView::Engine { value } => "ENGINE="@ + value,
        TableOptionView::RowFormat { value } => "ROW_FORMAT="@ + value,
        TableOptionView::StatsPersistent { value } => "STATS_PERSISTENT="@ + value,
    }
}

/// Each option with a blank before it.
pub open spec fn render_table_options(v: Seq<TableOptionView>) -> Seq<char>
    decreases v.len(),
{
    if v.len() == 0 {
        Seq::empty()
    } else {
        render_table_options(v.drop_last()) + " "@ + render_table_option(v.last())
    }
}

/// One table option at `pos`. `DEFAULT` may stand before `CHARACTER SET`,
/// `CHARSET` and `COLLATE` only; before anything else it is a grammar
/// error. An equals sign may stand before the value. `None` where no option
/// starts.
pub open spec fn spec_parse_table_option(s: Seq<char>, pos: int) -> Result<
    Option<(TableOptionView, int)>,
    ParseError,
> {
    let p: int = skip_ws(s, pos);
    let default: bool = at_keyword(s, p, "DEFAULT"@);
    let k: int = if default {
        skip_ws(s, run_end(s, p, CharClass::Word))
    } else {
        p
    };
    let after: int = run_end(s, k, CharClass::Word);
    if at_keyword(s, k, "CHARACTER"@) {
        match spec_expect_keyword(s, after, "SET"@) {
            Err(e) => Err(e),
            Ok(q) => match spec_value_word(s, q) {
                Err(e) => Err(e),
                Ok((value, end)) => Ok(Some((TableOptionView::CharacterSet { default, value }, end))),
            },
        }
    } else if at_keyword(s, k, "CHARSET"@) {
        match spec_value_word(s, after) {
            Err(e) => Err(e),
            Ok((value, end)) => Ok(Some((TableOptionView::CharacterSet { default, value }, end))),
        }
    } else if at_keyword(s, k, "COLLATE"@) {
        match spec_value_word(s, after) {
            Err(e) => Err(e),
            Ok((value, end)) => Ok(Some((TableOptionView::Collate { default, value }, end))),
        }
    } else if default {
        Err(ParseError::Grammar { position: k as usize })
    } else if at_keyword(s, k, "AUTO_INCREMENT"@) {
        match spec_value_u32(s, after) {
            Err(e) => Err(e),
            Ok((value, end)) => Ok(Some((TableOptionView::AutoIncrement { value }, end))),
        }
    } else if at_keyword(s, k, "COMMENT"@) {
        match spec_value_string(s, after) {
            Err(e) => Err(e),
            Ok((value, end)) => Ok(Some((TableOptionView::Comment { value }, end))),
        }
    } else if at_keyword(s, k, "ENGINE"@) {
        match spec_value_word(s, after) {
            Err(e) => Err(e),
            Ok((value, end)) => Ok(Some((TableOptionView::Engine { value }, end))),
        }
    } else if at_keyword(s, k, "ROW_FORMAT"@) {
        match spec_value_word(s, after) {
            Err(e) => Err(e),
            Ok((value, end)) => Ok(Some((TableOptionView::RowFormat { value }, end))),
        }
    } else if at_keyword(s, k, "STATS_PERSISTENT"@) {
        match spec_value_word(s, after) {
            Err(e) => Err(e),
            Ok((value, end)) => Ok(Some((TableOptionView::StatsPersistent { value }, end))),
        }
    } else {
        Ok(None)
    }
}

/// Reads at `pos` what `spec_parse_table_option` describes.
pub fn parse_table_option(s: &Vec<char>, pos: usize) -> (r: Result<
    Option<(TableOption, usize)>,
    ParseError,
>)
    requires
        pos <= s@.len(),
    ensures
        agrees_opt(r, spec_parse_table_option(s@, pos as int), pos, s@.len()),
{
    let p: usize = scan_run(s, pos, CharClass::Space);
    let default: bool = is_keyword(s, p, "DEFAULT");
    let k: usize = if default {
        let w: usize = scan_run(s, p, CharClass::Word);
        scan_run(s, w, CharClass::Space)
    } else {
        p
    };
    let after: usize = scan_run(s, k, CharClass::Word);
    if is_keyword(s, k, "CHARACTER") {
        match expect_keyword(s, after, "SET") {
            Err(e) => Err(e),
            Ok(q) => match value_word(s, q) {
                Err(e) => Err(e),
                Ok((value, end)) => Ok(Some((TableOption::CharacterSet { default, value }, end))),
            },
        }
    } else if is_keyword(s, k, "CHARSET") {
        match value_word(s, after) {
            Err(e) => Err(e),
            Ok((value, end)) => Ok(Some((TableOption::CharacterSet { default, value }, end))),
        }
    } else if is_keyword(s, k, "COLLATE") {
        match value_word(s, after) {
            Err(e) => Err(e),
            Ok((value, end)) => Ok(Some((TableOption::Collate { default, value }, end))),
        }
    } else if default {
        Err(ParseError::Grammar { position: k })
    } else if is_keyword(s, k, "AUTO_INCREMENT") {
        match value_u32(s, after) {
            Err(e) => Err(e),
            Ok((value, end)) => Ok(Some((TableOption::AutoIncrement { value }, end))),
        }
    } else if is_keyword(s, k, "COMMENT") {
        match value_string(s, after) {
            Err(e) => Err(e),
            Ok((value, end)) => Ok(Some((TableOption::Comment { value }, end))),
        }
    } else if is_keyword(s, k, "ENGINE") {
        match value_word(s, after) {
            Err(e) => Err(e),
            Ok((value, end)) => Ok(Some((TableOption::Engine { value }, end))),
        }
    } else if is_keyword(s, k, "ROW_FORMAT") {
        match value_word(s, after) {
            Err(e) => Err(e),
            Ok((value, end)) => Ok(Some((TableOption::RowFormat { value }, end))),
        }
    } else if is_keyword(s, k, "STATS_PERSISTENT") {
        match value_word(s, after) {
            Err(e) => Err(e),
            Ok((value, end)) => Ok(Some((TableOption::StatsPersistent { value }, end))),
        }
    } else {
        Ok(None)
    }
}

/// The table options from `pos` on, added to `acc` in their order.
pub open spec fn spec_parse_table_options_from(
    s: Seq<char>,
    pos: int,
    acc: Seq<TableOptionView>,
) -> Result<(Seq<TableOptionView>, int), ParseError>
    decreases s.len() - pos,
{
    match spec_parse_table_option(s, pos) {
        Err(e) => Err(e),
        Ok(None) => Ok((acc, pos)),
        Ok(Some((v, q))) => if pos < q <= s.len() {
            spec_parse_table_options_from(s, q, acc.push(v))
        } else {
            Ok((acc.push(v), q))
        },
    }
}

/// Zero or more table options from `pos` on.
pub open spec fn spec_parse_table_options(s: Seq<char>, pos: int) -> Result<
    (Seq<TableOptionView>, int),
    ParseError,
> {
    spec_parse_table_options_from(s, pos, Seq::empty())
}

/// Reads at `pos` what `spec_parse_table_options` describes.
pub fn parse_table_options(s: &Vec<char>, pos: usize) -> (r: Result<
    (Vec<TableOption>, usize),
    ParseError,
>)
    requires
        pos <= s@.len(),
    ensures
        agrees(r, spec_parse_table_options(s@, pos as int), pos, s@.len()),
{
    let mut acc: Vec<TableOption> = Vec::new();
    let mut cur: usize = pos;
    assert(acc.deep_view() =~= Seq::<TableOptionView>::empty());
    loop
        invariant
            pos <= cur <= s@.len(),
            spec_parse_table_options_from(s@, cur as int, acc.deep_view())
                == spec_parse_table_options(s@, pos as int),
        decreases s@.len() - cur,
    {
        match parse_table_option(s, cur) {
            Err(e) => {
                return Err(e);
            },
            Ok(None) => {
                return Ok((acc, cur));
            },
            Ok(Some((v, next))) => {
                proof {
                    lemma_push_view::<TableOption>(acc@, acc@.push(v), v);
                }
                acc.push(v);
                cur = next;
            },
        }
    }
}

/// Appends each option with a blank before it.
pub fn write_table_options(out: &mut String, options: &Vec<TableOption>)
    ensures
        final(out)@ == old(out)@ + render_table_options(options.deep_view()),
{
    let ghost views = options.deep_view();
    let n: usize = options.len();
    let mut i: usize = 0;
    assert(views.take(0) =~= Seq::<TableOptionView>::empty());
    assert(out@ =~= old(out)@ + render_table_options(views.take(0)));
    while i < n
        invariant
            i <= n,
            n == options@.len(),
            views == options.deep_view(),
            out@ == old(out)@ + render_table_options(views.take(i as int)),
        decreases n - i,
    {
        out.append(" ");
        options[i].write(out);
        proof {
            let next = views.take(i + 1);
            assert(next.drop_last() =~= views.take(i as int));
            assert(next.last() == options@[i as int].deep_view());
            assert(out@ =~= old(out)@ + render_table_options(next));
        }
        i += 1;
    }
    assert(views.take(n as int) =~= views);
}

impl TableOption {
    /// The table option that `input` starts with; a grammar error where
    /// none starts there.
    pub fn parse(input: &str) -> (r: Result<TableOption, ParseError>)
        ensures
            match spec_parse_table_option(input@, 0) {
                Err(e) => r == Err::<TableOption, ParseError>(e),
                Ok(None) => r == Err::<TableOption, ParseError>(
                    ParseError::Grammar { position: skip_ws(input@, 0) as usize },
                ),
                Ok(Some((v, _))) => r is Ok && r->Ok_0.deep_view() == v,
            },
    {
        let s = chars_of(input);
        match parse_table_option(&s, 0) {
            Err(e) => Err(e),
            Ok(None) => Err(ParseError::Grammar { position: scan_run(&s, 0, CharClass::Space) }),
            Ok(Some((v, _))) => Ok(v),
        }
    }

    /// The table options that `input` starts with, in their order.
    pub fn parse_all(input: &str) -> (r: Result<Vec<TableOption>, ParseError>)
        ensures
            parsed(r, spec_parse_table_options(input@, 0)),
    {
        let s = chars_of(input);
        finish(parse_table_options(&s, 0))
    }

    /// Appends the SQL text of this option.
    pub fn write(&self, out: &mut String)
        ensures
            final(out)@ == old(out)@ + render_table_option(self.deep_view()),
    {
        match self {
            TableOption::AutoIncrement { value } => {
                out.append("AUTO_INCREMENT=");
                push_number(out, *value as u64);
            },
            TableOption::CharacterSet { default, value } => {
                write_flag(out, *default, "DEFAULT ");
                out.append("CHARSET=");
                push_text(out, value);
            },
            TableOption::Collate { default, value } => {
                write_flag(out, *default, "DEFAULT ");
                out.append("COLLATE=");
                push_text(out, value);
            },
            TableOption::Comment { value } => {
                out.append("COMMENT=");
                push_quoted(out, value, '\'');
            },
            TableOption::Engine { value } => {
                out.append("ENGINE=");
                push_text(out, value);
            },
            TableOption::RowFormat { value } => {
                out.append("ROW_FORMAT=");
                push_text(out, value);
            },
            TableOption::StatsPersistent { value } => {
                out.append("STATS_PERSISTENT=");
                push_text(out, value);
            },
        }
        assert(out@ =~= old(out)@ + render_table_option(self.deep_view()));
    }

    /// The SQL text of this option.
    pub fn to_string(&self) -> (r: String)
        ensures
            r@ == render_table_option(self.deep_view()),
    {
        let mut out = String::new();
        self.write(&mut out);
        assert(out@ =~= render_table_option(self.deep_view()));
        out
    }

    /// The SQL text of this option.
    pub fn as_sql(&self) -> (r: String)
        ensures
            r@ == render_table_option(self.deep_view()),
    {
        self.to_string()
    }
}

} // verus!
