use vstd::prelude::*;
use vstd::string::*;
use crate::alter_table::{
    AlterTable,
    AlterTableView,
    parse_alter_table,
    render_alter_table,
    spec_parse_alter_table,
};
use crate::assignments::KVPairView;
use crate::create_database::{
    CreateDatabase,
    CreateDatabaseView,
    parse_create_database,
    render_create_database,
    spec_parse_create_database,
};
use crate::create_table::{
    CreateTable,
    CreateTableView,
    parse_create_table,
    render_create_table,
    spec_parse_create_table,
};
use crate::delete::{Delete, DeleteView, parse_delete, render_delete, spec_parse_delete};
use crate::drop_table::{
    DropTable,
    DropTableView,
    parse_drop_table,
    render_drop_table,
    spec_parse_drop_table,
};
use crate::error::ParseError;
use crate::insert::{Insert, InsertView, parse_insert, render_insert, spec_parse_insert};
use crate::lex::{
    CharClass,
    agrees,
    at_char,
    at_keyword,
    finish,
    is_char,
    is_keyword,
    lemma_push_view,
    parsed,
    run_end,
    scan_run,
    skip_ws,
};
use crate::set::{SetStatement, parse_set, render_set, spec_parse_set};
use crate::text::chars_of;
use crate::update::{Update, UpdateView, parse_update, render_update, spec_parse_update};
use crate::use_database::{
    UseDatabase,
    UseDatabaseView,
    parse_use_database,
    render_use_database,
    spec_parse_use_database,
};

verus! {

/// One statement of a dump.
#[derive(Debug, Clone, PartialEq, Eq)]
pub enum Statement {
    CreateDatabase(CreateDatabase),
    CreateTable(CreateTable),
    DropTable(DropTable),
    UseDatabase(UseDatabase),
    Insert(Insert),
    Update(Update),
    Delete(Delete),
    SetVariables(SetStatement),
    AlterTable(AlterTable),
}

/// What a `Statement` holds, with each text as a sequence of characters.
pub enum StatementView {
    CreateDatabase(CreateDatabaseView),
    CreateTable(CreateTableView),
    DropTable(DropTableView),
    UseDatabase(UseDatabaseView),
    Insert(InsertView),
    Update(UpdateView),
    Delete(DeleteView),
    SetVariables(Seq<KVPairView>),
    AlterTable(AlterTableView),
}

impl DeepView for Statement {
    type V = StatementView;

    open spec fn deep_view(&self) -> StatementView {
        match *self {
            Statement::CreateDatabase(v) => StatementView::CreateDatabase(v.deep_view()),
            Statement::CreateTable(v) => StatementView::CreateTable(v.deep_view()),
            Statement::DropTable(v) => StatementView::DropTable(v.deep_view()),
            Statement::UseDatabase(v) => StatementView::UseDatabase(v.deep_view()),
            Statement::Insert(v) => StatementView::Insert(v.deep_view()),
            Statement::Update(v) => StatementView::Update(v.deep_view()),
            Statement::Delete(v) => StatementView::Delete(v.deep_view()),
            Statement::SetVariables(v) => StatementView::SetVariables(v.deep_view()),
            Statement::AlterTable(v) => StatementView::AlterTable(v.deep_view()),
        }
    }
}

/// A parser's result with its value wrapped by `f`.
pub open spec fn wrapped<A>(
    r: Result<(A, int), ParseError>,
    f: spec_fn(A) -> StatementView,
) -> Result<(StatementView, int), ParseError> {
    match r {
        Err(e) => Err(e),
        Ok((v, end)) => Ok((f(v), end)),
    }
}

/// A statement at `pos`, told by its first word, and after `CREATE` by the
/// second. `CREATE` with anything but `DATABASE` or `TABLE` is refused as
/// unsupported; an unknown first word is a grammar error.
#[verifier::opaque]
pub open spec fn spec_parse_statement(s: Seq<char>, pos: int) -> Result<
    (StatementView, int),
    ParseError,
> {
    let p: int = skip_ws(s, pos);
    let second: int = skip_ws(s, run_end(s, p, CharClass::Word));
    if at_keyword(s, p, "CREATE"@) {
        if at_keyword(s, second, "DATABASE"@) {
            wrapped(spec_parse_create_database(s, pos), |v| StatementView::CreateDatabase(v))
        } else if at_keyword(s, second, "TABLE"@) {
            wrapped(spec_parse_create_table(s, pos), |v| StatementView::CreateTable(v))
        } else {
            Err(ParseError::Unsupported { position: second as usize })
        }
    } else if at_keyword(s, p, "DROP"@) {
        wrapped(spec_parse_drop_table(s, pos), |v| StatementView::DropTable(v))
    } else if at_keyword(s, p, "USE"@) {
        wrapped(spec_parse_use_database(s, pos), |v| StatementView::UseDatabase(v))
    } else if at_keyword(s, p, "INSERT"@) {
        wrapped(spec_parse_insert(s, pos), |v| StatementView::Insert(v))
    } else if at_keyword(s, p, "UPDATE"@) {
        wrapped(spec_parse_update(s, pos), |v| StatementView::Update(v))
    } else if at_keyword(s, p, "DELETE"@) {
        wrapped(spec_parse_delete(s, pos), |v| StatementView::Delete(v))
    } else if at_keyword(s, p, "SET"@) {
        wrapped(spec_parse_set(s, pos), |v| StatementView::SetVariables(v))
    } else if at_keyword(s, p, "ALTER"@) {
        wrapped(spec_parse_alter_table(s, pos), |v| StatementView::AlterTable(v))
    } else {
        Err(ParseError::Grammar { position: p as usize })
    }
}

/// Reads at `pos` what `spec_parse_statement` describes.
pub fn parse_statement(s: &Vec<char>, pos: usize) -> (r: Result<(Statement, usize), ParseError>)
    requires
        pos <= s@.len(),
    ensures
        agrees(r, spec_parse_statement(s@, pos as int), pos, s@.len()),
{
    reveal(spec_parse_statement);
    let p: usize = scan_run(s, pos, CharClass::Space);
    let first_end: usize = scan_run(s, p, CharClass::Word);
    let second: usize = scan_run(s, first_end, CharClass::Space);
    if is_keyword(s, p, "CREATE") {
        if is_keyword(s, second, "DATABASE") {
            match parse_create_database(s, pos) {
                Err(e) => Err(e),
                Ok((v, end)) => Ok((Statement::CreateDatabase(v), end)),
            }
        } else if is_keyword(s, second, "TABLE") {
            match parse_create_table(s, pos) {
                Err(e) => Err(e),
                Ok((v, end)) => Ok((Statement::CreateTable(v), end)),
            }
        } else {
            Err(ParseError::Unsupported { position: second })
        }
    } else if is_keyword(s, p, "DROP") {
        match parse_drop_table(s, pos) {
            Err(e) => Err(e),
            Ok((v, end)) => Ok((Statement::DropTable(v), end)),
        }
    } else if is_keyword(s, p, "USE") {
        match parse_use_database(s, pos) {
            Err(e) => Err(e),
            Ok((v, end)) => Ok((Statement::UseDatabase(v), end)),
        }
    } else if is_keyword(s, p, "INSERT") {
        match parse_insert(s, pos) {
            Err(e) => Err(e),
            Ok((v, end)) => Ok((Statement::Insert(v), end)),
        }
    } else if is_keyword(s, p, "UPDATE") {
        match parse_update(s, pos) {
            Err(e) => Err(e),
            Ok((v, end)) => Ok((Statement::Update(v), end)),
        }
    } else if is_keyword(s, p, "DELETE") {
        match parse_delete(s, pos) {
            Err(e) => Err(e),
            Ok((v, end)) => Ok((Statement::Delete(v), end)),
        }
    } else if is_keyword(s, p, "SET") {
        match parse_set(s, pos) {
            Err(e) => Err(e),
            Ok((v, end)) => Ok((Statement::SetVariables(v), end)),
        }
    } else if is_keyword(s, p, "ALTER") {
        match parse_alter_table(s, pos) {
            Err(e) => Err(e),
            Ok((v, end)) => Ok((Statement::AlterTable(v), end)),
        }
    } else {
        Err(ParseError::Grammar { position: p })
    }
}

/// Position after the `*/` that closes a block comment whose body starts
/// at `pos`; the end of the text where nothing closes it.
pub open spec fn block_end(s: Seq<char>, pos: int) -> int
    decreases s.len() - pos,
{
    if pos < 0 || pos >= s.len() {
        s.len() as int
    } else if s[pos] == '*' && at_char(s, pos + 1, '/') {
        pos + 2
    } else {
        block_end(s, pos + 1)
    }
}

/// Position after the `*/` that closes a block comment whose body starts at
/// `pos`.
pub fn scan_block(s: &Vec<char>, pos: usize) -> (end: usize)
    requires
        pos <= s@.len(),
    ensures
        end == block_end(s@, pos as int),
        pos <= end <= s@.len(),
{
    let mut i: usize = pos;
    while i < s.len()
        invariant
            pos <= i <= s@.len(),
            block_end(s@, i as int) == block_end(s@, pos as int),
        decreases s@.len() - i,
    {
        if s[i] == '*' && is_char(s, i + 1, '/') {
            return i + 2;
        }
        i += 1;
    }
    i
}

/// End of the comment that starts at `pos`, or `pos` where none starts
/// there: `--` and `#` open a comment that runs to the end of the line,
/// `/*` one that runs to the next `*/`.
pub open spec fn comment_end(s: Seq<char>, pos: int) -> int {
    if at_char(s, pos, '-') && at_char(s, pos + 1, '-') {
        run_end(s, pos + 2, CharClass::Line)
    } else if at_char(s, pos, '#') {
        run_end(s, pos + 1, CharClass::Line)
    } else if at_char(s, pos, '/') && at_char(s, pos + 1, '*') {
        block_end(s, pos + 2)
    } else {
        pos
    }
}

/// End of the comment that starts at `pos`; `pos` itself where none starts
/// there.
pub fn scan_comment(s: &Vec<char>, pos: usize) -> (end: usize)
    requires
        pos <= s@.len(),
    ensures
        end == comment_end(s@, pos as int),
        pos <= end <= s@.len(),
{
    if is_char(s, pos, '-') && is_char(s, pos + 1, '-') {
        scan_run(s, pos + 2, CharClass::Line)
    } else if is_char(s, pos, '#') {
        scan_run(s, pos + 1, CharClass::Line)
    } else if is_char(s, pos, '/') && is_char(s, pos + 1, '*') {
        scan_block(s, pos + 2)
    } else {
        pos
    }
}

/// Position after the white space and comments that start at `pos`.
pub open spec fn skip_trivia(s: Seq<char>, pos: int) -> int
    decreases s.len() - pos,
{
    let p: int = skip_ws(s, pos);
    let e: int = comment_end(s, p);
    if pos <= p < e <= s.len() {
        skip_trivia(s, e)
    } else {
        p
    }
}

/// Position after the white space and comments that start at `pos`.
pub fn scan_trivia(s: &Vec<char>, pos: usize) -> (end: usize)
    requires
        pos <= s@.len(),
    ensures
        end == skip_trivia(s@, pos as int),
        pos <= end <= s@.len(),
{
    let mut cur: usize = pos;
    loop
        invariant
            pos <= cur <= s@.len(),
            skip_trivia(s@, cur as int) == skip_trivia(s@, pos as int),
        decreases s@.len() - cur,
    {
        let p: usize = scan_run(s, cur, CharClass::Space);
        let e: usize = scan_comment(s, p);
        if e > p {
            cur = e;
        } else {
            return p;
        }
    }
}

/// What stands next in a dump.
pub enum StepView {
    /// Nothing but white space and comments is left.
    End,
    /// A statement, and the position after it and its semicolon.
    Found(StatementView, int),
    /// Text that is no statement.
    Fail(ParseError),
}

/// What stands next in a dump from `pos` on. White space and comments may
/// stand anywhere between statements. A semicolon closes each statement;
/// the last may do without. A semicolon where a statement could start is
/// an empty statement and is skipped.
pub open spec fn spec_next(s: Seq<char>, pos: int) -> StepView
    decreases s.len() - pos,
{
    let p: int = skip_trivia(s, pos);
    if p >= s.len() || p < pos {
        StepView::End
    } else if s[p] == ';' {
        spec_next(s, p + 1)
    } else {
        match spec_parse_statement(s, p) {
            Err(e) => StepView::Fail(e),
            Ok((st, q)) => {
                let e: int = skip_trivia(s, q);
                if e >= s.len() {
                    StepView::Found(st, s.len() as int)
                } else if s[e] == ';' {
                    StepView::Found(st, e + 1)
                } else {
                    StepView::Fail(ParseError::Grammar { position: e as usize })
                }
            },
        }
    }
}

/// The statements of a dump from `pos` on, added to `acc` in their order.
pub open spec fn spec_parse_dump_from(s: Seq<char>, pos: int, acc: Seq<StatementView>) -> Result<
    Seq<StatementView>,
    ParseError,
>
    decreases s.len() - pos,
{
    match spec_next(s, pos) {
        StepView::End => Ok(acc),
        StepView::Fail(e) => Err(e),
        StepView::Found(st, next) => if pos < next <= s.len() {
            spec_parse_dump_from(s, next, acc.push(st))
        } else {
            Ok(acc.push(st))
        },
    }
}

/// The statements of a whole dump.
pub open spec fn spec_parse_dump(s: Seq<char>) -> Result<Seq<StatementView>, ParseError> {
    spec_parse_dump_from(s, 0, Seq::empty())
}

/// What the executable reader of a dump finds at a position: the end of
/// the dump, or a statement and the position after its semicolon.
pub enum Step {
    End,
    Found(Statement, usize),
}

/// How the outcome of the executable reader stands to the grammar's.
pub open spec fn step_agrees(r: Result<Step, ParseError>, e: StepView, from: usize, len: nat) -> bool {
    match (r, e) {
        (Err(a), StepView::Fail(b)) => a == b,
        (Ok(Step::End), StepView::End) => true,
        (Ok(Step::Found(st, n)), StepView::Found(ev, en)) => st.deep_view() == ev && n as int == en
            && from < n <= len,
        _ => false,
    }
}

/// Reads the next statement of a dump, stepping over white space, comments
/// and empty statements.
pub fn next_statement(s: &Vec<char>, pos: usize) -> (r: Result<Step, ParseError>)
    requires
        pos <= s@.len(),
    ensures
        step_agrees(r, spec_next(s@, pos as int), pos, s@.len()),
{
    let mut cur: usize = pos;
    loop
        invariant
            pos <= cur <= s@.len(),
            spec_next(s@, cur as int) == spec_next(s@, pos as int),
        decreases s@.len() - cur,
    {
        let p: usize = scan_trivia(s, cur);
        if p >= s.len() {
            return Ok(Step::End);
        }
        if s[p] == ';' {
            cur = p + 1;
        } else {
            match parse_statement(s, p) {
                Err(e) => {
                    return Err(e);
                },
                Ok((st, q)) => {
                    let e: usize = scan_trivia(s, q);
                    if e >= s.len() {
                        return Ok(Step::Found(st, s.len()));
                    } else if s[e] == ';' {
                        return Ok(Step::Found(st, e + 1));
                    } else {
                        return Err(ParseError::Grammar { position: e });
                    }
                },
            }
        }
    }
}

/// The statements of a dump, in their order.
pub fn parse_statements(input: &str) -> (r: Result<Vec<Statement>, ParseError>)
    ensures
        match (r, spec_parse_dump(input@)) {
            (Ok(v), Ok(e)) => v.deep_view() == e,
            (Err(a), Err(b)) => a == b,
            _ => false,
        },
{
    let s = chars_of(input);
    let mut acc: Vec<Statement> = Vec::new();
    let mut cur: usize = 0;
    assert(acc.deep_view() =~= Seq::<StatementView>::empty());
    loop
        invariant
            cur <= s@.len(),
            s@ == input@,
            spec_parse_dump_from(s@, cur as int, acc.deep_view()) == spec_parse_dump(s@),
        decreases s@.len() - cur,
    {
        match next_statement(&s, cur) {
            Err(e) => {
                return Err(e);
            },
            Ok(Step::End) => {
                return Ok(acc);
            },
            Ok(Step::Found(st, next)) => {
                proof {
                    lemma_push_view::<Statement>(acc@, acc@.push(st), st);
                }
                acc.push(st);
                cur = next;
            },
        }
    }
}

/// The SQL text of a statement, without a closing semicolon, but for an
/// `UPDATE` statement, whose text ends with one.
pub open spec fn render_statement(v: StatementView) -> Seq<char> {
    match v {
        StatementView::CreateDatabase(x) => render_create_database(x),
        StatementView::CreateTable(x) => render_create_table(x, ", "@),
        StatementView::DropTable(x) => render_drop_table(x),
        StatementView::UseDatabase(x) => render_use_database(x),
        StatementView::Insert(x) => render_insert(x),
        StatementView::Update(x) => render_update(x),
        StatementView::Delete(x) => render_delete(x),
        StatementView::SetVariables(x) => render_set(x),
        StatementView::AlterTable(x) => render_alter_table(x),
    }
}

impl Statement {
    /// The statement that `input` starts with.
    pub fn parse(input: &str) -> (r: Result<Statement, ParseError>)
        ensures
            parsed(r, spec_parse_statement(input@, 0)),
    {
        let s = chars_of(input);
        finish(parse_statement(&s, 0))
    }

    /// The SQL text of this statement, without a closing semicolon, but
    /// for an `UPDATE` statement, whose text ends with one.
    pub fn to_string(&self) -> (r: String)
        ensures
            r@ == render_statement(self.deep_view()),
    {
        match self {
            Statement::CreateDatabase(x) => x.to_string(),
            Statement::CreateTable(x) => x.to_string(),
            Statement::DropTable(x) => x.to_string(),
            Statement::UseDatabase(x) => x.to_string(),
            Statement::Insert(x) => x.to_string(),
            Statement::Update(x) => x.to_string(),
            Statement::Delete(x) => x.to_string(),
            Statement::SetVariables(x) => x.to_string(),
            Statement::AlterTable(x) => x.to_string(),
        }
    }
}

} // verus!
