use vstd::prelude::*;
use vstd::string::*;
use crate::assignments::{
    Assignment,
    KVPairView,
    parse_assignment,
    render_assignment,
    spec_parse_assignment,
};
use crate::error::ParseError;
use crate::lex::{
    CharClass,
    accept_keyword,
    agrees,
    expect_keyword,
    finish,
    lemma_push_view,
    parse_name,
    parsed,
    scan_run,
    sees_keyword,
    skip_ws,
    spec_expect_keyword,
    spec_parse_name,
};
use crate::text::{chars_of, join, push_join, push_quoted, quoted};
use crate::where_stmts::{Where, WhereView, parse_where, render_where, spec_parse_where};

verus! {

/// An `UPDATE` statement: the addressed table, the assignments, and the
/// conditions.
#[derive(Debug, Clone, PartialEq, Eq)]
pub struct Update {
    pub table_name: String,
    pub set_clauses: Vec<Assignment>,
    pub where_clauses: Vec<Where>,
}

/// What a `Update` holds, with each text as a sequence of characters.
pub struct UpdateView {
    pub table_name: Seq<char>,
    pub set_clauses: Seq<Seq<KVPairView>>,
    pub where_clauses: Seq<WhereView>,
}

impl DeepView for Update {
    type V = UpdateView;

    open spec fn deep_view(&self) -> UpdateView {
        UpdateView {
            table_name: self.table_name@,
            set_clauses: self.set_clauses.deep_view(),
            where_clauses: self.where_clauses.deep_view(),
        }
    }
}

/// The text of each list of assignments.
pub open spec fn assignment_texts(clauses: Seq<Seq<KVPairView>>) -> Seq<Seq<char>> {
    Seq::new(clauses.len(), |i: int| render_assignment(clauses[i]))
}

/// The text of each comparison.
pub open spec fn where_texts(clauses: Seq<WhereView>) -> Seq<Seq<char>> {
    Seq::new(clauses.len(), |i: int| render_where(clauses[i]))
}

/// ` WHERE` and the comparisons, separated by blanks; nothing where there
/// is no comparison.
pub open spec fn render_where_clauses(clauses: Seq<WhereView>) -> Seq<char> {
    if clauses.len() == 0 {
        Seq::empty()
    } else {
        " WHERE "@ + join(where_texts(clauses), " "@)
    }
}

/// The SQL text of an `UPDATE` statement, closed by a semicolon.
pub open spec fn render_update(v: UpdateView) -> Seq<char> {
    "UPDATE "@ + quoted(v.table_name, '`') + " SET "@ + join(assignment_texts(v.set_clauses), ","@)
        + render_where_clauses(v.where_clauses) + ";"@
}

/// An optional `WHERE` clause at `pos`: a list of one comparison, or of
/// none where the keyword does not stand there.
pub open spec fn spec_parse_opt_where(s: Seq<char>, pos: int) -> Result<
    (Seq<WhereView>, int),
    ParseError,
> {
    if !sees_keyword(s, pos, "WHERE"@) {
        Ok((Seq::empty(), pos))
    } else {
        match spec_parse_where(s, pos) {
            Err(e) => Err(e),
            Ok((w, end)) => Ok((seq![w], end)),
        }
    }
}

/// Reads at `pos` what `spec_parse_opt_where` describes.
pub fn parse_opt_where(s: &Vec<char>, pos: usize) -> (r: Result<(Vec<Where>, usize), ParseError>)
    requires
        pos <= s@.len(),
    ensures
        agrees(r, spec_parse_opt_where(s@, pos as int), pos, s@.len()),
{
    let mut list: Vec<Where> = Vec::new();
    assert(list.deep_view() =~= Seq::<WhereView>::empty());
    match accept_keyword(s, pos, "WHERE") {
        None => Ok((list, pos)),
        Some(_) => match parse_where(s, pos) {
            Err(e) => Err(e),
            Ok((w, end)) => {
                proof {
                    lemma_push_view::<Where>(list@, list@.push(w), w);
                }
                list.push(w);
                assert(list.deep_view() =~= seq![w.deep_view()]);
                Ok((list, end))
            },
        },
    }
}

/// An `UPDATE` statement at `pos`: `UPDATE`, a table name, `SET`, one list
/// of assignments, and an optional `WHERE` clause.
pub open spec fn spec_parse_update(s: Seq<char>, pos: int) -> Result<(UpdateView, int), ParseError> {
    match spec_expect_keyword(s, pos, "UPDATE"@) {
        Err(e) => Err(e),
        Ok(u) => match spec_parse_name(s, skip_ws(s, u)) {
            Err(e) => Err(e),
            Ok((table_name, n)) => match spec_expect_keyword(s, n, "SET"@) {
                Err(e) => Err(e),
                Ok(a) => match spec_parse_assignment(s, a) {
                    Err(e) => Err(e),
                    Ok((pairs, w)) => match spec_parse_opt_where(s, w) {
                        Err(e) => Err(e),
                        Ok((where_clauses, end)) => Ok(
                            (UpdateView { table_name, set_clauses: seq![pairs], where_clauses }, end),
                        ),
                    },
                },
            },
        },
    }
}

/// Reads at `pos` what `spec_parse_update` describes.
pub fn parse_update(s: &Vec<char>, pos: usize) -> (r: Result<(Update, usize), ParseError>)
    requires
        pos <= s@.len(),
    ensures
        agrees(r, spec_parse_update(s@, pos as int), pos, s@.len()),
{
    let u: usize = match expect_keyword(s, pos, "UPDATE") {
        Err(e) => { return Err(e); },
        Ok(found) => found,
    };
    let start: usize = scan_run(s, u, CharClass::Space);
    let (table_name, n) = match parse_name(s, start) {
        Err(e) => { return Err(e); },
        Ok(found) => found,
    };
    let a: usize = match expect_keyword(s, n, "SET") {
        Err(e) => { return Err(e); },
        Ok(found) => found,
    };
    let (pairs, w) = match parse_assignment(s, a) {
        Err(e) => { return Err(e); },
        Ok(found) => found,
    };
    match parse_opt_where(s, w) {
        Err(e) => Err(e),
        Ok((where_clauses, end)) => {
            let mut set_clauses: Vec<Assignment> = Vec::new();
            proof {
                lemma_push_view::<Assignment>(set_clauses@, set_clauses@.push(pairs), pairs);
            }
            set_clauses.push(pairs);
            assert(set_clauses.deep_view() =~= seq![pairs.deep_view()]);
            Ok((Update { table_name, set_clauses, where_clauses }, end))
        },
    }
}

fn texts_of_assignments(clauses: &Vec<Assignment>) -> (t: Vec<String>)
    ensures
        t.deep_view() == assignment_texts(clauses.deep_view()),
{
    let ghost views = clauses.deep_view();
    let ghost all = assignment_texts(views);
    let n: usize = clauses.len();
    let mut t: Vec<String> = Vec::new();
    let mut i: usize = 0;
    assert(t.deep_view() =~= all.take(0));
    while i < n
        invariant
            i <= n,
            n == clauses@.len(),
            views == clauses.deep_view(),
            all == assignment_texts(views),
            t.deep_view() == all.take(i as int),
        decreases n - i,
    {
        let text = clauses[i].to_string();
        proof {
            lemma_push_view::<String>(t@, t@.push(text), text);
            assert(views[i as int] == clauses@[i as int].deep_view());
            assert(all.take(i as int).push(text@) =~= all.take(i + 1));
        }
        t.push(text);
        i += 1;
    }
    assert(all.take(n as int) =~= all);
    t
}

fn texts_of_wheres(clauses: &Vec<Where>) -> (t: Vec<String>)
    ensures
        t.deep_view() == where_texts(clauses.deep_view()),
{
    let ghost views = clauses.deep_view();
    let ghost all = where_texts(views);
    let n: usize = clauses.len();
    let mut t: Vec<String> = Vec::new();
    let mut i: usize = 0;
    assert(t.deep_view() =~= all.take(0));
    while i < n
        invariant
            i <= n,
            n == clauses@.len(),
            views == clauses.deep_view(),
            all == where_texts(views),
            t.deep_view() == all.take(i as int),
        decreases n - i,
    {
        let text = clauses[i].to_string();
        proof {
            lemma_push_view::<String>(t@, t@.push(text), text);
            assert(views[i as int] == clauses@[i as int].deep_view());
            assert(all.take(i as int).push(text@) =~= all.take(i + 1));
        }
        t.push(text);
        i += 1;
    }
    assert(all.take(n as int) =~= all);
    t
}

/// Appends ` WHERE` and the comparisons, if there is any.
pub fn write_where_clauses(out: &mut String, clauses: &Vec<Where>)
    ensures
        final(out)@ == old(out)@ + render_where_clauses(clauses.deep_view()),
{
    if clauses.len() == 0 {
        assert(clauses.deep_view().len() == 0);
        assert(out@ =~= old(out)@ + render_where_clauses(clauses.deep_view()));
    } else {
        assert(clauses.deep_view().len() != 0);
        let t = texts_of_wheres(clauses);
        out.append(" WHERE ");
        push_join(out, &t, " ");
        assert(out@ =~= old(out)@ + render_where_clauses(clauses.deep_view()));
    }
}

impl Update {
    /// An `UPDATE` statement without a condition.
    pub fn new(table_name: String, set_clauses: Vec<Assignment>) -> (u: Update)
        ensures
            u.table_name == table_name,
            u.set_clauses == set_clauses,
            u.where_clauses@.len() == 0,
    {
        Update { table_name, set_clauses, where_clauses: Vec::new() }
    }

    /// The `UPDATE` statement that `input` starts with.
    pub fn parse(input: &str) -> (r: Result<Update, ParseError>)
        ensures
            parsed(r, spec_parse_update(input@, 0)),
    {
        let s = chars_of(input);
        finish(parse_update(&s, 0))
    }

    /// Appends the SQL text of this statement.
    pub fn write(&self, out: &mut String)
        ensures
            final(out)@ == old(out)@ + render_update(self.deep_view()),
    {
        let ghost base = old(out)@;
        let ghost v = self.deep_view();
        let sets = texts_of_assignments(&self.set_clauses);
        out.append("UPDATE ");
        push_quoted(out, &self.table_name, '`');
        out.append(" SET ");
        let ghost r1 = "UPDATE "@ + quoted(v.table_name, '`') + " SET "@;
        assert(out@ =~= base + r1);
        push_join(out, &sets, ",");
        let ghost r2 = r1 + join(assignment_texts(v.set_clauses), ","@);
        assert(out@ =~= base + r2);
        write_where_clauses(out, &self.where_clauses);
        out.append(";");
        assert(out@ =~= base + (r2 + render_where_clauses(v.where_clauses) + ";"@));
        assert(r2 + render_where_clauses(v.where_clauses) + ";"@ == render_update(v));
    }

    /// The SQL text of this statement, closed by a semicolon.
    pub fn to_string(&self) -> (r: String)
        ensures
            r@ == render_update(self.deep_view()),
    {
        let mut out = String::new();
        self.write(&mut out);
        assert(out@ =~= render_update(self.deep_view()));
        out
    }

    /// The SQL text of this statement, closed by a semicolon.
    pub fn as_sql(&self) -> (r: String)
        ensures
            r@ == render_update(self.deep_view()),
    {
        self.to_string()
    }
}

} // verus!
