use vstd::prelude::*;
use vstd::string::*;
use crate::assignments::{
    AssignmentKey,
    AssignmentValue,
    KVPair,
    KVPairView,
    kv_pair_texts,
    parse_assignment,
    spec_parse_assignment,
    texts_of_pairs,
};
use crate::error::ParseError;
use crate::lex::{agrees, expect_keyword, finish, parsed, spec_expect_keyword};
use crate::text::{chars_of, join, push_join};

verus! {

/// The key of an assignment of a `SET` statement.
pub type SetKey = AssignmentKey;

/// The value of an assignment of a `SET` statement.
pub type SetValue = AssignmentValue;

/// A `SET` statement: assignments to variables, in their order.
#[derive(Debug, Clone, PartialEq, Eq)]
pub struct SetStatement {
    pub kv_pairs: Vec<KVPair>,
}

impl DeepView for SetStatement {
    type V = Seq<KVPairView>;

    open spec fn deep_view(&self) -> Seq<KVPairView> {
        self.kv_pairs.deep_view()
    }
}

/// The SQL text of a `SET` statement, without a closing semicolon: each
/// assignment as key, equals sign and value, separated by a comma and a
/// blank.
pub open spec fn render_set(pairs: Seq<KVPairView>) -> Seq<char> {
    "SET "@ + join(kv_pair_texts(pairs, true), ", "@)
}

/// A `SET` statement at `pos`: `SET` and one or more assignments.
pub open spec fn spec_parse_set(s: Seq<char>, pos: int) -> Result<(Seq<KVPairView>, int), ParseError> {
    match spec_expect_keyword(s, pos, "SET"@) {
        Err(e) => Err(e),
        Ok(p) => spec_parse_assignment(s, p),
    }
}

/// Reads a `SET` statement at `pos`.
pub fn parse_set(s: &Vec<char>, pos: usize) -> (r: Result<(SetStatement, usize), ParseError>)
    requires
        pos <= s@.len(),
    ensures
        agrees(r, spec_parse_set(s@, pos as int), pos, s@.len()),
{
    match expect_keyword(s, pos, "SET") {
        Err(e) => Err(e),
        Ok(p) => match parse_assignment(s, p) {
            Err(e) => Err(e),
            Ok((a, end)) => Ok((SetStatement { kv_pairs: a.kv_pairs }, end)),
        },
    }
}

impl SetStatement {
    /// The `SET` statement that `input` starts with.
    pub fn parse(input: &str) -> (r: Result<SetStatement, ParseError>)
        ensures
            parsed(r, spec_parse_set(input@, 0)),
    {
        let s = chars_of(input);
        finish(parse_set(&s, 0))
    }

    /// Appends the SQL text of this statement.
    pub fn write(&self, out: &mut String)
        ensures
            final(out)@ == old(out)@ + render_set(self.deep_view()),
    {
        let t = texts_of_pairs(&self.kv_pairs, true);
        out.append("SET ");
        push_join(out, &t, ", ");
        assert(out@ =~= old(out)@ + render_set(self.deep_view()));
    }

    /// The SQL text of this statement, without a closing semicolon.
    pub fn to_string(&self) -> (r: String)
        ensures
            r@ == render_set(self.deep_view()),
    {
        let mut out = String::new();
        self.write(&mut out);
        assert(out@ =~= render_set(self.deep_view()));
        out
    }

    /// The SQL text of this statement, closed by a semicolon.
    pub fn as_sql(&self) -> (r: String)
        ensures
            r@ == render_set(self.deep_view()) + ";"@,
    {
        let mut out = String::new();
        self.write(&mut out);
        out.append(";");
        assert(out@ =~= render_set(self.deep_view()) + ";"@);
        out
    }
}

} // verus!
