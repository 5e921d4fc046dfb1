use vstd::prelude::*;
use vstd::string::*;
use crate::data_type::{render_flag, write_flag};
use crate::error::ParseError;
use crate::lex::{
    CharClass,
    agrees,
    agrees_opt,
    at_keyword,
    expect_keyword,
    finish,
    is_keyword,
    lemma_push_view,
    parsed,
    run_end,
    scan_run,
    skip_ws,
    spec_expect_keyword,
    spec_value_string,
    spec_value_word,
    value_string,
    value_word,
};
use crate::text::{chars_of, push_quoted, push_text, quoted};

verus! {

/// One option of a `CREATE DATABASE` statement. `default` tells whether the
/// keyword `DEFAULT` stood before the option.
#[derive(Debug, Clone, PartialEq, Eq)]
pub enum DatabaseOption {
    CharacterSet { default: bool, value: String },
    Collate { default: bool, value: String },
    Encryption { default: bool, value: String },
}

/// What a `DatabaseOption` holds, with each text as a sequence of characters.
pub enum DatabaseOptionView {
    CharacterSet { default: bool, value: Seq<char> },
    Collate { default: bool, value: Seq<char> },
    Encryption { default: bool, value: Seq<char> },
}

impl DeepView for DatabaseOption {
    type V = DatabaseOptionView;

    open spec fn deep_view(&self) -> DatabaseOptionView {
        match *self {
            DatabaseOption::CharacterSet { default, value } => DatabaseOptionView::CharacterSet {
                default,
                value: value@,
            },
            DatabaseOption::Collate { default, value } => DatabaseOptionView::Collate {
                default,
                value: value@,
            },
            DatabaseOption::Encryption { default, value } => DatabaseOptionView::Encryption {
                default,
                value: value@,
            },
        }
    }
}

/// The SQL text of a database option, with `DEFAULT ` before it where the
/// flag is set.
pub open spec fn render_database_option(v: DatabaseOptionView) -> Seq<char> {
    match v {
        DatabaseOptionView::CharacterSet { default, value } => render_flag(default, "DEFAULT "@)
            + "CHARACTER SET "@ + value,
        DatabaseOptionView::Collate { default, value } => render_flag(default, "DEFAULT "@)
            + "COLLATE "@ + value,
        DatabaseOptionView::Encryption { default, value } => render_flag(default, "DEFAULT "@)
            + "ENCRYPTION="@ + quoted(value, '\''),
    }
}

/// Each option with a blank before it.
pub open spec fn render_database_options(v: Seq<DatabaseOptionView>) -> Seq<char>
    decreases v.len(),
{
    if v.len() == 0 {
        Seq::empty()
    } else {
        render_database_options(v.drop_last()) + " "@ + render_database_option(v.last())
    }
}

/// One database option at `pos`: an optional `DEFAULT`, then
/// `CHARACTER SET`, `CHARSET` or `COLLATE` with a word, or `ENCRYPTION` with
/// a string literal; an equals sign may stand before the value. `None`
/// where no option starts; a `DEFAULT` that no option follows is a grammar
/// error.
pub open spec fn spec_parse_database_option(s: Seq<char>, pos: int) -> Result<
    Option<(DatabaseOptionView, int)>,
    ParseError,
> {
    let p: int = skip_ws(s, pos);
    let default: bool = at_keyword(s, p, "DEFAULT"@);
    let k: int = if default {
        skip_ws(s, run_end(s, p, CharClass::Word))
    } else {
        p
    };
    let after: int = run_end(s, k, CharClass::Word);
    if at_keyword(s, k, "CHARACTER"@) {
        match spec_expect_keyword(s, after, "SET"@) {
            Err(e) => Err(e),
            Ok(q) => match spec_value_word(s, q) {
                Err(e) => Err(e),
                Ok((value, end)) => Ok(
                    Some((DatabaseOptionView::CharacterSet { default, value }, end)),
                ),
            },
        }
    } else if at_keyword(s, k, "CHARSET"@) {
        match spec_value_word(s, after) {
            Err(e) => Err(e),
            Ok((value, end)) => Ok(Some((DatabaseOptionView::CharacterSet { default, value }, end))),
        }
    } else if at_keyword(s, k, "COLLATE"@) {
        match spec_value_word(s, after) {
            Err(e) => Err(e),
            Ok((value, end)) => Ok(Some((DatabaseOptionView::Collate { default, value }, end))),
        }
    } else if at_keyword(s, k, "ENCRYPTION"@) {
        match spec_value_string(s, after) {
            Err(e) => Err(e),
            Ok((value, end)) => Ok(Some((DatabaseOptionView::Encryption { default, value }, end))),
        }
    } else if default {
        Err(ParseError::Grammar { position: k as usize })
    } else {
        Ok(None)
    }
}

/// Reads at `pos` what `spec_parse_database_option` describes.
pub fn parse_database_option(s: &Vec<char>, pos: usize) -> (r: Result<
    Option<(DatabaseOption, usize)>,
    ParseError,
>)
    requires
        pos <= s@.len(),
    ensures
        agrees_opt(r, spec_parse_database_option(s@, pos as int), pos, s@.len()),
{
    let p: usize = scan_run(s, pos, CharClass::Space);
    let default: bool = is_keyword(s, p, "DEFAULT");
    let k: usize = if default {
        let w: usize = scan_run(s, p, CharClass::Word);
        scan_run(s, w, CharClass::Space)
    } else {
        p
    };
    let after: usize = scan_run(s, k, CharClass::Word);
    if is_keyword(s, k, "CHARACTER") {
        match expect_keyword(s, after, "SET") {
            Err(e) => Err(e),
            Ok(q) => match value_word(s, q) {
                Err(e) => Err(e),
                Ok((value, end)) => Ok(Some((DatabaseOption::CharacterSet { default, value }, end))),
            },
        }
    } else if is_keyword(s, k, "CHARSET") {
        match value_word(s, after) {
            Err(e) => Err(e),
            Ok((value, end)) => Ok(Some((DatabaseOption::CharacterSet { default, value }, end))),
        }
    } else if is_keyword(s, k, "COLLATE") {
        match value_word(s, after) {
            Err(e) => Err(e),
            Ok((value, end)) => Ok(Some((DatabaseOption::Collate { default, value }, end))),
        }
    } else if is_keyword(s, k, "ENCRYPTION") {
        match value_string(s, after) {
            Err(e) => Err(e),
            Ok((value, end)) => Ok(Some((DatabaseOption::Encryption { default, value }, end))),
        }
    } else if default {
        Err(ParseError::Grammar { position: k })
    } else {
        Ok(None)
    }
}

/// The database options from `pos` on, added to `acc` in their order.
pub open spec fn spec_parse_database_options_from(
    s: Seq<char>,
    pos: int,
    acc: Seq<DatabaseOptionView>,
) -> Result<(Seq<DatabaseOptionView>, int), ParseError>
    decreases s.len() - pos,
{
    match spec_parse_database_option(s, pos) {
        Err(e) => Err(e),
        Ok(None) => Ok((acc, pos)),
        Ok(Some((v, q))) => if pos < q <= s.len() {
            spec_parse_database_options_from(s, q, acc.push(v))
        } else {
            Ok((acc.push(v), q))
        },
    }
}

/// Zero or more database options from `pos` on.
pub open spec fn spec_parse_database_options(s: Seq<char>, pos: int) -> Result<
    (Seq<DatabaseOptionView>, int),
    ParseError,
> {
    spec_parse_database_options_from(s, pos, Seq::empty())
}

/// Reads at `pos` what `spec_parse_database_options` describes.
pub fn parse_database_options(s: &Vec<char>, pos: usize) -> (r: Result<
    (Vec<DatabaseOption>, usize),
    ParseError,
>)
    requires
        pos <= s@.len(),
    ensures
        agrees(r, spec_parse_database_options(s@, pos as int), pos, s@.len()),
{
    let mut acc: Vec<DatabaseOption> = Vec::new();
    let mut cur: usize = pos;
    assert(acc.deep_view() =~= Seq::<DatabaseOptionView>::empty());
    loop
        invariant
            pos <= cur <= s@.len(),
            spec_parse_database_options_from(s@, cur as int, acc.deep_view())
                == spec_parse_database_options(s@, pos as int),
        decreases s@.len() - cur,
    {
        match parse_database_option(s, cur) {
            Err(e) => {
                return Err(e);
            },
            Ok(None) => {
                return Ok((acc, cur));
            },
            Ok(Some((v, next))) => {
                proof {
                    lemma_push_view::<DatabaseOption>(acc@, acc@.push(v), v);
                }
                acc.push(v);
                cur = next;
            },
        }
    }
}

/// Appends each option with a blank before it.
pub fn write_database_options(out: &mut String, options: &Vec<DatabaseOption>)
    ensures
        final(out)@ == old(out)@ + render_database_options(options.deep_view()),
{
    let ghost views = options.deep_view();
    let n: usize = options.len();
    let mut i: usize = 0;
    assert(views.take(0) =~= Seq::<DatabaseOptionView>::empty());
    assert(out@ =~= old(out)@ + render_database_options(views.take(0)));
    while i < n
        invariant
            i <= n,
            n == options@.len(),
            views == options.deep_view(),
            out@ == old(out)@ + render_database_options(views.take(i as int)),
        decreases n - i,
    {
        let ghost before = out@;
        out.append(" ");
        options[i].write(out);
        proof {
            let next = views.take(i + 1);
            assert(next.drop_last() =~= views.take(i as int));
            assert(next.last() == options@[i as int].deep_view());
            assert(out@ =~= old(out)@ + render_database_options(next));
        }
        i += 1;
    }
    assert(views.take(n as int) =~= views);
}

impl DatabaseOption {
    /// The database option that `input` starts with; a grammar error where
    /// none starts there.
    pub fn parse(input: &str) -> (r: Result<DatabaseOption, ParseError>)
        ensures
            match spec_parse_database_option(input@, 0) {
                Err(e) => r == Err::<DatabaseOption, ParseError>(e),
                Ok(None) => r == Err::<DatabaseOption, ParseError>(
                    ParseError::Grammar { position: skip_ws(input@, 0) as usize },
                ),
                Ok(Some((v, _))) => r is Ok && r->Ok_0.deep_view() == v,
            },
    {
        let s = chars_of(input);
        match parse_database_option(&s, 0) {
            Err(e) => Err(e),
            Ok(None) => Err(ParseError::Grammar { position: scan_run(&s, 0, CharClass::Space) }),
            Ok(Some((v, _))) => Ok(v),
        }
    }

    /// The database options that `input` starts with, in their order.
    pub fn parse_all(input: &str) -> (r: Result<Vec<DatabaseOption>, ParseError>)
        ensures
            parsed(r, spec_parse_database_options(input@, 0)),
    {
        let s = chars_of(input);
        finish(parse_database_options(&s, 0))
    }

    /// Appends the SQL text of this option.
    pub fn write(&self, out: &mut String)
        ensures
            final(out)@ == old(out)@ + render_database_option(self.deep_view()),
    {
        match self {
            DatabaseOption::CharacterSet { default, value } => {
                write_flag(out, *default, "DEFAULT ");
                out.append("CHARACTER SET ");
                push_text(out, value);
            },
            DatabaseOption::Collate { default, value } => {
                write_flag(out, *default, "DEFAULT ");
                out.append("COLLATE ");
                push_text(out, value);
            },
            DatabaseOption::Encryption { default, value } => {
                write_flag(out, *default, "DEFAULT ");
                out.append("ENCRYPTION=");
                push_quoted(out, value, '\'');
            },
        }
        assert(out@ =~= old(out)@ + render_database_option(self.deep_view()));
    }

    /// The SQL text of this option.
    pub fn to_string(&self) -> (r: String)
        ensures
            r@ == render_database_option(self.deep_view()),
    {
        let mut out = String::new();
        self.write(&mut out);
        assert(out@ =~= render_database_option(self.deep_view()));
        out
    }

    /// The SQL text of this option.
    pub fn as_sql(&self) -> (r: String)
        ensures
            r@ == render_database_option(self.deep_view()),
    {
        self.to_string()
    }
}

} // verus!
