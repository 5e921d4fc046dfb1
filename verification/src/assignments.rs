use vstd::prelude::*;
use vstd::string::*;
use crate::error::ParseError;
use crate::lex::{
    CharClass,
    agrees,
    at_char,
    at_keyword,
    expect_char,
    finish,
    is_char,
    is_keyword,
    lemma_push_view,
    parse_name,
    parse_string,
    parse_usize,
    parse_word,
    parsed,
    run_end,
    scan_run,
    skip_ws,
    spec_expect_char,
    spec_parse_name,
    spec_parse_string,
    spec_parse_usize,
    spec_parse_word,
};
use crate::text::{
    chars_of,
    dec_digits,
    join,
    push_join,
    push_number,
    push_quoted,
    push_text,
    quoted,
};

verus! {

/// The value that an assignment gives.
#[derive(Debug, Clone, PartialEq, Eq, Hash)]
pub enum AssignmentValue {
    String(String),
    Number(usize),
    Boolean(bool),
    Null,
}

/// What a `AssignmentValue` holds, with each text as a sequence of
/// characters.
pub enum AssignmentValueView {
    String(Seq<char>),
    Number(usize),
    Boolean(bool),
    Null,
}

impl DeepView for AssignmentValue {
    type V = AssignmentValueView;

    open spec fn deep_view(&self) -> AssignmentValueView {
        match *self {
            AssignmentValue::String(v) => AssignmentValueView::String(v@),
            AssignmentValue::Number(n) => AssignmentValueView::Number(n),
            AssignmentValue::Boolean(b) => AssignmentValueView::Boolean(b),
            AssignmentValue::Null => AssignmentValueView::Null,
        }
    }
}

/// What an assignment assigns to: a user variable, written with `@`, or a
/// name.
#[derive(Debug, Clone, PartialEq, Eq, Hash)]
pub enum AssignmentKey {
    At(String),
    Identifier(String),
}

/// What a `AssignmentKey` holds, with each text as a sequence of characters.
pub enum AssignmentKeyView {
    At(Seq<char>),
    Identifier(Seq<char>),
}

impl DeepView for AssignmentKey {
    type V = AssignmentKeyView;

    open spec fn deep_view(&self) -> AssignmentKeyView {
        match *self {
            AssignmentKey::At(v) => AssignmentKeyView::At(v@),
            AssignmentKey::Identifier(v) => AssignmentKeyView::Identifier(v@),
        }
    }
}

/// One assignment: a key and the value given to it.
#[derive(Debug, Clone, PartialEq, Eq, Hash)]
pub struct KVPair {
    pub key: AssignmentKey,
    pub value: AssignmentValue,
}

/// What a `KVPair` holds, with each text as a sequence of characters.
pub struct KVPairView {
    pub key: AssignmentKeyView,
    pub value: AssignmentValueView,
}

impl DeepView for KVPair {
    type V = KVPairView;

    open spec fn deep_view(&self) -> KVPairView {
        KVPairView { key: self.key.deep_view(), value: self.value.deep_view() }
    }
}

/// The assignments of one `SET` clause, in their order.
#[derive(Debug, Clone, PartialEq, Eq, Hash)]
pub struct Assignment {
    pub kv_pairs: Vec<KVPair>,
}

impl DeepView for Assignment {
    type V = Seq<KVPairView>;

    open spec fn deep_view(&self) -> Seq<KVPairView> {
        self.kv_pairs.deep_view()
    }
}

/// The SQL text of an assigned value: a string between single quotes, a
/// number in decimal notation, `true` or `false`, or `NULL`.
pub open spec fn render_assignment_value(v: AssignmentValueView) -> Seq<char> {
    match v {
        AssignmentValueView::String(t) => quoted(t, '\''),
        AssignmentValueView::Number(n) => dec_digits(n as nat),
        AssignmentValueView::Boolean(b) => if b {
            "true"@
        } else {
            "false"@
        },
        AssignmentValueView::Null => "NULL"@,
    }
}

/// The text of a key: `@` before the name of a variable, else the name.
pub open spec fn render_assignment_key(v: AssignmentKeyView) -> Seq<char> {
    match v {
        AssignmentKeyView::At(n) => "@"@ + n,
        AssignmentKeyView::Identifier(n) => n,
    }
}

/// The text of one assignment of an `UPDATE` statement: the key between
/// backticks, an equals sign between blanks, the value.
pub open spec fn render_kv_pair(v: KVPairView) -> Seq<char> {
    quoted(render_assignment_key(v.key), '`') + " = "@ + render_assignment_value(v.value)
}

/// The text of one assignment of a `SET` statement: the key, an equals
/// sign, the value.
pub open spec fn render_kv_pair_bare(v: KVPairView) -> Seq<char> {
    render_assignment_key(v.key) + "="@ + render_assignment_value(v.value)
}

/// The text of each assignment, in the form of an `UPDATE` statement or,
/// where `bare` holds, in that of a `SET` statement.
pub open spec fn kv_pair_texts(pairs: Seq<KVPairView>, bare: bool) -> Seq<Seq<char>> {
    Seq::new(
        pairs.len(),
        |i: int|
            if bare {
                render_kv_pair_bare(pairs[i])
            } else {
                render_kv_pair(pairs[i])
            },
    )
}

/// The SQL text of a list of assignments, separated by a comma and a blank.
pub open spec fn render_assignment(pairs: Seq<KVPairView>) -> Seq<char> {
    join(kv_pair_texts(pairs, false), ", "@)
}

/// An assigned value at `pos`: a string literal, `TRUE` or `FALSE`, `NULL`,
/// a number that fits the machine word, or a bare word, which is kept as a
/// string.
pub open spec fn spec_parse_assignment_value(s: Seq<char>, pos: int) -> Result<
    (AssignmentValueView, int),
    ParseError,
> {
    let p: int = skip_ws(s, pos);
    if at_char(s, p, '\'') {
        match spec_parse_string(s, p) {
            Err(e) => Err(e),
            Ok((v, end)) => Ok((AssignmentValueView::String(v), end)),
        }
    } else if at_keyword(s, p, "TRUE"@) {
        Ok((AssignmentValueView::Boolean(true), run_end(s, p, CharClass::Word)))
    } else if at_keyword(s, p, "FALSE"@) {
        Ok((AssignmentValueView::Boolean(false), run_end(s, p, CharClass::Word)))
    } else if at_keyword(s, p, "NULL"@) {
        Ok((AssignmentValueView::Null, run_end(s, p, CharClass::Word)))
    } else if run_end(s, p, CharClass::Digit) != p {
        match spec_parse_usize(s, p) {
            Err(e) => Err(e),
            Ok((n, end)) => Ok((AssignmentValueView::Number(n), end)),
        }
    } else {
        match spec_parse_word(s, p) {
            Err(e) => Err(e),
            Ok((v, end)) => Ok((AssignmentValueView::String(v), end)),
        }
    }
}

/// Reads at `pos` what `spec_parse_assignment_value` describes.
pub fn parse_assignment_value(s: &Vec<char>, pos: usize) -> (r: Result<
    (AssignmentValue, usize),
    ParseError,
>)
    requires
        pos <= s@.len(),
    ensures
        agrees(r, spec_parse_assignment_value(s@, pos as int), pos, s@.len()),
{
    let p: usize = scan_run(s, pos, CharClass::Space);
    if is_char(s, p, '\'') {
        match parse_string(s, p) {
            Err(e) => Err(e),
            Ok((v, end)) => Ok((AssignmentValue::String(v), end)),
        }
    } else if is_keyword(s, p, "TRUE") {
        Ok((AssignmentValue::Boolean(true), scan_run(s, p, CharClass::Word)))
    } else if is_keyword(s, p, "FALSE") {
        Ok((AssignmentValue::Boolean(false), scan_run(s, p, CharClass::Word)))
    } else if is_keyword(s, p, "NULL") {
        Ok((AssignmentValue::Null, scan_run(s, p, CharClass::Word)))
    } else if scan_run(s, p, CharClass::Digit) != p {
        match parse_usize(s, p) {
            Err(e) => Err(e),
            Ok((n, end)) => Ok((AssignmentValue::Number(n), end)),
        }
    } else {
        match parse_word(s, p) {
            Err(e) => Err(e),
            Ok((v, end)) => Ok((AssignmentValue::String(v), end)),
        }
    }
}

/// A key at `pos`: `@` and a word, or a name between backticks or bare.
pub open spec fn spec_parse_assignment_key(s: Seq<char>, pos: int) -> Result<
    (AssignmentKeyView, int),
    ParseError,
> {
    let p: int = skip_ws(s, pos);
    if at_char(s, p, '@') {
        match spec_parse_word(s, p + 1) {
            Err(e) => Err(e),
            Ok((n, end)) => Ok((AssignmentKeyView::At(n), end)),
        }
    } else {
        match spec_parse_name(s, p) {
            Err(e) => Err(e),
            Ok((n, end)) => Ok((AssignmentKeyView::Identifier(n), end)),
        }
    }
}

/// Reads at `pos` what `spec_parse_assignment_key` describes.
pub fn parse_assignment_key(s: &Vec<char>, pos: usize) -> (r: Result<
    (AssignmentKey, usize),
    ParseError,
>)
    requires
        pos <= s@.len(),
    ensures
        agrees(r, spec_parse_assignment_key(s@, pos as int), pos, s@.len()),
{
    let p: usize = scan_run(s, pos, CharClass::Space);
    if is_char(s, p, '@') {
        match parse_word(s, p + 1) {
            Err(e) => Err(e),
            Ok((n, end)) => Ok((AssignmentKey::At(n), end)),
        }
    } else {
        match parse_name(s, p) {
            Err(e) => Err(e),
            Ok((n, end)) => Ok((AssignmentKey::Identifier(n), end)),
        }
    }
}

/// One assignment at `pos`: a key, an equals sign, a value.
pub open spec fn spec_parse_kv_pair(s: Seq<char>, pos: int) -> Result<(KVPairView, int), ParseError> {
    match spec_parse_assignment_key(s, pos) {
        Err(e) => Err(e),
        Ok((key, k)) => match spec_expect_char(s, k, '=') {
            Err(e) => Err(e),
            Ok(q) => match spec_parse_assignment_value(s, q) {
                Err(e) => Err(e),
                Ok((value, end)) => Ok((KVPairView { key, value }, end)),
            },
        },
    }
}

/// Reads at `pos` what `spec_parse_kv_pair` describes.
pub fn parse_kv_pair(s: &Vec<char>, pos: usize) -> (r: Result<(KVPair, usize), ParseError>)
    requires
        pos <= s@.len(),
    ensures
        agrees(r, spec_parse_kv_pair(s@, pos as int), pos, s@.len()),
{
    match parse_assignment_key(s, pos) {
        Err(e) => Err(e),
        Ok((key, k)) => match expect_char(s, k, '=') {
            Err(e) => Err(e),
            Ok(q) => match parse_assignment_value(s, q) {
                Err(e) => Err(e),
                Ok((value, end)) => Ok((KVPair { key, value }, end)),
            },
        },
    }
}

/// Assignments separated by commas, the first of them at `pos`, added to
/// `acc` in their order.
pub open spec fn spec_parse_assignment_from(
    s: Seq<char>,
    pos: int,
    acc: Seq<KVPairView>,
) -> Result<(Seq<KVPairView>, int), ParseError>
    decreases s.len() - pos,
{
    match spec_parse_kv_pair(s, pos) {
        Err(e) => Err(e),
        Ok((v, p)) => {
            let q: int = skip_ws(s, p);
            if at_char(s, q, ',') && q >= pos {
                spec_parse_assignment_from(s, q + 1, acc.push(v))
            } else {
                Ok((acc.push(v), p))
            }
        },
    }
}

/// One or more assignments separated by commas.
pub open spec fn spec_parse_assignment(s: Seq<char>, pos: int) -> Result<
    (Seq<KVPairView>, int),
    ParseError,
> {
    spec_parse_assignment_from(s, pos, Seq::empty())
}

/// Reads at `pos` what `spec_parse_assignment` describes.
pub fn parse_assignment(s: &Vec<char>, pos: usize) -> (r: Result<(Assignment, usize), ParseError>)
    requires
        pos <= s@.len(),
    ensures
        agrees(r, spec_parse_assignment(s@, pos as int), pos, s@.len()),
{
    let mut acc: Vec<KVPair> = Vec::new();
    let mut cur: usize = pos;
    assert(acc.deep_view() =~= Seq::<KVPairView>::empty());
    loop
        invariant
            pos <= cur <= s@.len(),
            spec_parse_assignment_from(s@, cur as int, acc.deep_view()) == spec_parse_assignment(
                s@,
                pos as int,
            ),
        decreases s@.len() - cur,
    {
        match parse_kv_pair(s, cur) {
            Err(e) => {
                return Err(e);
            },
            Ok((v, p)) => {
                proof {
                    lemma_push_view::<KVPair>(acc@, acc@.push(v), v);
                }
                acc.push(v);
                let q: usize = scan_run(s, p, CharClass::Space);
                if is_char(s, q, ',') {
                    cur = q + 1;
                } else {
                    return Ok((Assignment { kv_pairs: acc }, p));
                }
            },
        }
    }
}

impl AssignmentValue {
    /// Appends the SQL text of this value.
    pub fn write(&self, out: &mut String)
        ensures
            final(out)@ == old(out)@ + render_assignment_value(self.deep_view()),
    {
        match self {
            AssignmentValue::String(v) => push_quoted(out, v, '\''),
            AssignmentValue::Number(n) => push_number(out, *n as u64),
            AssignmentValue::Boolean(b) => {
                if *b {
                    out.append("true");
                } else {
                    out.append("false");
                }
            },
            AssignmentValue::Null => out.append("NULL"),
        }
    }

    /// The SQL text of this value.
    pub fn to_string(&self) -> (r: String)
        ensures
            r@ == render_assignment_value(self.deep_view()),
    {
        let mut out = String::new();
        self.write(&mut out);
        assert(out@ =~= render_assignment_value(self.deep_view()));
        out
    }
}

impl AssignmentKey {
    /// Appends the text of this key.
    pub fn write(&self, out: &mut String)
        ensures
            final(out)@ == old(out)@ + render_assignment_key(self.deep_view()),
    {
        match self {
            AssignmentKey::At(n) => {
                out.append("@");
                push_text(out, n);
                assert(out@ =~= old(out)@ + render_assignment_key(self.deep_view()));
            },
            AssignmentKey::Identifier(n) => push_text(out, n),
        }
    }

    /// The text of this key.
    pub fn to_string(&self) -> (r: String)
        ensures
            r@ == render_assignment_key(self.deep_view()),
    {
        let mut out = String::new();
        self.write(&mut out);
        assert(out@ =~= render_assignment_key(self.deep_view()));
        out
    }
}

impl KVPair {
    /// The assignment of `value` to `key`.
    pub fn new(key: AssignmentKey, value: AssignmentValue) -> (p: KVPair)
        ensures
            p.key == key,
            p.value == value,
    {
        KVPair { key, value }
    }

    /// The text of this assignment, in the form of an `UPDATE` statement
    /// or, where `bare` holds, in that of a `SET` statement.
    pub fn text(&self, bare: bool) -> (r: String)
        ensures
            r@ == if bare {
                render_kv_pair_bare(self.deep_view())
            } else {
                render_kv_pair(self.deep_view())
            },
    {
        let mut out = String::new();
        if bare {
            self.key.write(&mut out);
            out.append("=");
            self.value.write(&mut out);
            assert(out@ =~= render_kv_pair_bare(self.deep_view()));
        } else {
            let key = self.key.to_string();
            push_quoted(&mut out, &key, '`');
            out.append(" = ");
            self.value.write(&mut out);
            assert(out@ =~= render_kv_pair(self.deep_view()));
        }
        out
    }
}

/// The text of each assignment.
pub fn texts_of_pairs(pairs: &Vec<KVPair>, bare: bool) -> (t: Vec<String>)
    ensures
        t.deep_view() == kv_pair_texts(pairs.deep_view(), bare),
{
    let ghost views = pairs.deep_view();
    let ghost all = kv_pair_texts(views, bare);
    let n: usize = pairs.len();
    let mut t: Vec<String> = Vec::new();
    let mut i: usize = 0;
    assert(t.deep_view() =~= all.take(0));
    while i < n
        invariant
            i <= n,
            n == pairs@.len(),
            views == pairs.deep_view(),
            all == kv_pair_texts(views, bare),
            t.deep_view() == all.take(i as int),
        decreases n - i,
    {
        let text = pairs[i].text(bare);
        proof {
            lemma_push_view::<String>(t@, t@.push(text), text);
            assert(views[i as int] == pairs@[i as int].deep_view());
            assert(all.take(i as int).push(text@) =~= all.take(i + 1));
        }
        t.push(text);
        i += 1;
    }
    assert(all.take(n as int) =~= all);
    t
}

impl Assignment {
    /// The list of assignments that `input` starts with.
    pub fn parse(input: &str) -> (r: Result<Assignment, ParseError>)
        ensures
            parsed(r, spec_parse_assignment(input@, 0)),
    {
        let s = chars_of(input);
        finish(parse_assignment(&s, 0))
    }

    /// Appends the SQL text of these assignments.
    pub fn write(&self, out: &mut String)
        ensures
            final(out)@ == old(out)@ + render_assignment(self.deep_view()),
    {
        let t = texts_of_pairs(&self.kv_pairs, false);
        push_join(out, &t, ", ");
    }

    /// The SQL text of these assignments.
    pub fn to_string(&self) -> (r: String)
        ensures
            r@ == render_assignment(self.deep_view()),
    {
        let mut out = String::new();
        self.write(&mut out);
        assert(out@ =~= render_assignment(self.deep_view()));
        out
    }
}

} // verus!
