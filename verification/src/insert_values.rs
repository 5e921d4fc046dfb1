use vstd::prelude::*;
use vstd::string::*;
use crate::error::ParseError;
use crate::insert_value::{
    InsertValue,
    InsertValueView,
    parse_insert_value,
    render_insert_value,
    spec_parse_insert_value,
};
use crate::lex::{
    CharClass,
    agrees,
    at_char,
    expect_char,
    finish,
    is_char,
    lemma_push_view,
    parsed,
    scan_run,
    skip_ws,
    spec_expect_char,
};
use crate::text::{chars_of, join, push_join};

verus! {

/// One row of an `INSERT` statement: its values in their order.
#[derive(Debug, Clone, PartialEq, Eq)]
pub struct InsertValues(pub Vec<InsertValue>);

impl DeepView for InsertValues {
    type V = Seq<InsertValueView>;

    open spec fn deep_view(&self) -> Seq<InsertValueView> {
        self.0.deep_view()
    }
}

/// The text of each value.
pub open spec fn insert_value_texts(row: Seq<InsertValueView>) -> Seq<Seq<char>> {
    Seq::new(row.len(), |i: int| render_insert_value(row[i]))
}

/// The SQL text of a row: the values between parentheses, separated by a
/// comma and a blank.
pub open spec fn render_insert_values(row: Seq<InsertValueView>) -> Seq<char> {
    "("@ + join(insert_value_texts(row), ", "@) + ")"@
}

/// Inserted values separated by commas, the first of them at `pos`, added
/// to `acc` in their order.
pub open spec fn spec_parse_insert_values_from(
    s: Seq<char>,
    pos: int,
    acc: Seq<InsertValueView>,
) -> Result<(Seq<InsertValueView>, int), ParseError>
    decreases s.len() - pos,
{
    match spec_parse_insert_value(s, pos) {
        Err(e) => Err(e),
        Ok((v, p)) => {
            let q: int = skip_ws(s, p);
            if at_char(s, q, ',') && q >= pos {
                spec_parse_insert_values_from(s, q + 1, acc.push(v))
            } else {
                Ok((acc.push(v), p))
            }
        },
    }
}

/// A row at `pos`: one or more values separated by commas, between
/// parentheses.
pub open spec fn spec_parse_insert_values(s: Seq<char>, pos: int) -> Result<
    (Seq<InsertValueView>, int),
    ParseError,
> {
    match spec_expect_char(s, pos, '(') {
        Err(e) => Err(e),
        Ok(p) => match spec_parse_insert_values_from(s, p, Seq::empty()) {
            Err(e) => Err(e),
            Ok((row, q)) => match spec_expect_char(s, q, ')') {
                Err(e) => Err(e),
                Ok(end) => Ok((row, end)),
            },
        },
    }
}

/// Reads at `pos` what `spec_parse_insert_values` describes.
pub fn parse_insert_values(s: &Vec<char>, pos: usize) -> (r: Result<
    (InsertValues, usize),
    ParseError,
>)
    requires
        pos <= s@.len(),
    ensures
        agrees(r, spec_parse_insert_values(s@, pos as int), pos, s@.len()),
{
    let open: usize = match expect_char(s, pos, '(') {
        Err(e) => { return Err(e); },
        Ok(p) => p,
    };
    let mut acc: Vec<InsertValue> = Vec::new();
    let mut cur: usize = open;
    assert(acc.deep_view() =~= Seq::<InsertValueView>::empty());
    loop
        invariant
            pos <= open <= cur <= s@.len(),
            spec_expect_char(s@, pos as int, '(') == Ok::<int, ParseError>(open as int),
            spec_parse_insert_values_from(s@, cur as int, acc.deep_view())
                == spec_parse_insert_values_from(s@, open as int, Seq::empty()),
        decreases s@.len() - cur,
    {
        match parse_insert_value(s, cur) {
            Err(e) => {
                return Err(e);
            },
            Ok((v, p)) => {
                proof {
                    lemma_push_view::<InsertValue>(acc@, acc@.push(v), v);
                }
                acc.push(v);
                let q: usize = scan_run(s, p, CharClass::Space);
                if is_char(s, q, ',') {
                    cur = q + 1;
                } else {
                    return match expect_char(s, p, ')') {
                        Err(e) => Err(e),
                        Ok(end) => Ok((InsertValues(acc), end)),
                    };
                }
            },
        }
    }
}

impl InsertValues {
    /// The row that `input` starts with.
    pub fn parse(input: &str) -> (r: Result<InsertValues, ParseError>)
        ensures
            parsed(r, spec_parse_insert_values(input@, 0)),
    {
        let s = chars_of(input);
        finish(parse_insert_values(&s, 0))
    }

    /// The text of each value of the row.
    pub fn texts(&self) -> (t: Vec<String>)
        ensures
            t.deep_view() == insert_value_texts(self.deep_view()),
    {
        let ghost views = self.deep_view();
        let n: usize = self.0.len();
        let mut t: Vec<String> = Vec::new();
        let mut i: usize = 0;
        assert(t.deep_view() =~= insert_value_texts(views).take(0));
        while i < n
            invariant
                i <= n,
                n == self.0@.len(),
                views == self.deep_view(),
                t.deep_view() == insert_value_texts(views).take(i as int),
            decreases n - i,
        {
            let text = self.0[i].to_string();
            proof {
                lemma_push_view::<String>(t@, t@.push(text), text);
                assert(views[i as int] == self.0@[i as int].deep_view());
                assert(insert_value_texts(views).take(i as int).push(text@)
                    =~= insert_value_texts(views).take(i + 1));
            }
            t.push(text);
            i += 1;
        }
        assert(insert_value_texts(views).take(n as int) =~= insert_value_texts(views));
        t
    }

    /// Appends the SQL text of this row.
    pub fn write(&self, out: &mut String)
        ensures
            final(out)@ == old(out)@ + render_insert_values(self.deep_view()),
    {
        let t = self.texts();
        out.append("(");
        push_join(out, &t, ", ");
        out.append(")");
        assert(out@ =~= old(out)@ + render_insert_values(self.deep_view()));
    }

    /// The SQL text of this row.
    pub fn to_string(&self) -> (r: String)
        ensures
            r@ == render_insert_values(self.deep_view()),
    {
        let mut out = String::new();
        self.write(&mut out);
        assert(out@ =~= render_insert_values(self.deep_view()));
        out
    }

    /// The SQL text of this row.
    pub fn as_sql(&self) -> (r: String)
        ensures
            r@ == render_insert_values(self.deep_view()),
    {
        self.to_string()
    }
}

} // verus!
