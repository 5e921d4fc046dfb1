use vstd::prelude::*;
use vstd::string::*;
use crate::cmd::{stands, stands_at};
use crate::lex::{CharClass, lemma_push_view, run_end, scan_run};
use crate::text::{chars_of, push_text, string_of};

verus! {

/// The statements of a dump that stand under one database, as text.
#[derive(Debug, Clone, PartialEq, Eq)]
pub struct DatabaseSql {
    pub db_name: String,
    pub sql: String,
}

/// What a `DatabaseSql` holds, with each text as a sequence of
/// characters.
pub struct DatabaseSqlView {
    pub db_name: Seq<char>,
    pub sql: Seq<char>,
}

impl DeepView for DatabaseSql {
    type V = DatabaseSqlView;

    open spec fn deep_view(&self) -> DatabaseSqlView {
        DatabaseSqlView { db_name: self.db_name@, sql: self.sql@ }
    }
}

/// Whether a `USE` statement with a name between backticks starts at `i`
/// of the line: the text ``USE ` ``, a name of at least one character, a
/// backtick and a semicolon.
pub open spec fn use_at(line: Seq<char>, i: int) -> bool {
    &&& stands_at(line, "USE `"@, i)
    &&& run_end(line, i + "USE `"@.len(), CharClass::Quoted) > i + "USE `"@.len()
    &&& stands_at(line, "`;"@, run_end(line, i + "USE `"@.len(), CharClass::Quoted))
}

/// The first place from `from` on where a `USE` statement starts; the
/// length of the line where none does.
pub open spec fn first_use(line: Seq<char>, from: int) -> int
    decreases line.len() - from,
{
    if from < 0 || from >= line.len() {
        line.len() as int
    } else if use_at(line, from) {
        from
    } else {
        first_use(line, from + 1)
    }
}

/// The database that the first `USE` statement of the line names, if the
/// line holds one.
pub open spec fn use_target(line: Seq<char>) -> Option<Seq<char>> {
    let i = first_use(line, 0);
    if i < line.len() {
        Some(
            line.subrange(
                i + "USE `"@.len(),
                run_end(line, i + "USE `"@.len(), CharClass::Quoted),
            ),
        )
    } else {
        None
    }
}

/// The database that the first `USE` statement of the line names, if the
/// line holds one.
pub fn find_use(line: &Vec<char>) -> (r: Option<String>)
    ensures
        r.deep_view() == use_target(line@),
{
    let lead = chars_of("USE `");
    let close = chars_of("`;");
    let n: usize = line.len();
    let mut i: usize = 0;
    while i < n
        invariant
            i <= n,
            n == line@.len(),
            lead@ == "USE `"@,
            close@ == "`;"@,
            first_use(line@, i as int) == first_use(line@, 0),
        decreases n - i,
    {
        if stands(line, &lead, i) {
            let start: usize = i + lead.len();
            let end: usize = scan_run(line, start, CharClass::Quoted);
            if end > start && stands(line, &close, end) {
                return Some(string_of(line, start, end));
            }
        }
        i += 1;
    }
    None
}

/// The list with the statements gathered under `name` added, unless no
/// database was named yet.
pub open spec fn flushed(acc: Seq<DatabaseSqlView>, name: Seq<char>, sql: Seq<char>) -> Seq<
    DatabaseSqlView,
> {
    if name.len() == 0 {
        acc
    } else {
        acc.push(DatabaseSqlView { db_name: name, sql })
    }
}

/// The line that starts at `pos`: the text up to the next line feed, less
/// a carriage return before that line feed.
pub open spec fn line_at(s: Seq<char>, pos: int) -> Seq<char> {
    let e = run_end(s, pos, CharClass::Line);
    if pos < e < s.len() && s[e - 1] == '\r' {
        s.subrange(pos, e - 1)
    } else {
        s.subrange(pos, e)
    }
}

/// Where the line after the one at `pos` starts.
pub open spec fn next_line(s: Seq<char>, pos: int) -> int {
    let e = run_end(s, pos, CharClass::Line);
    if e < s.len() {
        e + 1
    } else {
        e
    }
}

/// The dump from `pos` on, line by line. A line with a `USE` statement
/// closes what was gathered under the database named before, and names the
/// next one; any other line is added, with a line feed, to what is
/// gathered. Lines before the first `USE` statement go to the first
/// database. The end of the dump closes the last database.
pub open spec fn split_from(
    s: Seq<char>,
    pos: int,
    name: Seq<char>,
    sql: Seq<char>,
    acc: Seq<DatabaseSqlView>,
) -> Seq<DatabaseSqlView>
    decreases s.len() - pos,
{
    let next = next_line(s, pos);
    if pos < 0 || pos >= s.len() || next <= pos || next > s.len() {
        flushed(acc, name, sql)
    } else {
        match use_target(line_at(s, pos)) {
            Some(n) => split_from(
                s,
                next,
                n,
                if name.len() == 0 {
                    sql
                } else {
                    Seq::empty()
                },
                flushed(acc, name, sql),
            ),
            None => split_from(s, next, name, sql + line_at(s, pos) + seq!['\n'], acc),
        }
    }
}

fn copy_range(s: &Vec<char>, from: usize, to: usize) -> (v: Vec<char>)
    requires
        from <= to <= s@.len(),
    ensures
        v@ == s@.subrange(from as int, to as int),
{
    let mut v: Vec<char> = Vec::new();
    let mut i: usize = from;
    while i < to
        invariant
            from <= i <= to <= s@.len(),
            v@ == s@.subrange(from as int, i as int),
        decreases to - i,
    {
        v.push(s[i]);
        i += 1;
        assert(v@ =~= s@.subrange(from as int, i as int));
    }
    v
}

fn flush(acc: &mut Vec<DatabaseSql>, name: String, sql: String)
    ensures
        final(acc).deep_view() == flushed(old(acc).deep_view(), name@, sql@),
{
    if name.as_str().unicode_len() != 0 {
        let chunk = DatabaseSql { db_name: name, sql };
        proof {
            lemma_push_view::<DatabaseSql>(acc@, acc@.push(chunk), chunk);
        }
        acc.push(chunk);
    }
}

/// The statements of a dump, gathered under the databases that its `USE`
/// statements name, in their order.
pub fn split_databases(dump: &str) -> (r: Vec<DatabaseSql>)
    ensures
        r.deep_view() == split_from(dump@, 0, Seq::empty(), Seq::empty(), Seq::empty()),
{
    let s = chars_of(dump);
    let mut acc: Vec<DatabaseSql> = Vec::new();
    let mut name = String::new();
    let mut sql = String::new();
    let mut pos: usize = 0;
    assert(acc.deep_view() =~= Seq::<DatabaseSqlView>::empty());
    while pos < s.len()
        invariant
            pos <= s@.len(),
            s@ == dump@,
            split_from(s@, pos as int, name@, sql@, acc.deep_view()) == split_from(
                s@,
                0,
                Seq::empty(),
                Seq::empty(),
                Seq::empty(),
            ),
        decreases s@.len() - pos,
    {
        let e: usize = scan_run(&s, pos, CharClass::Line);
        let stop: usize = if pos < e && e < s.len() && s[e - 1] == '\r' {
            e - 1
        } else {
            e
        };
        let next: usize = if e < s.len() {
            e + 1
        } else {
            e
        };
        let line = copy_range(&s, pos, stop);
        assert(line@ == line_at(s@, pos as int));
        assert(next == next_line(s@, pos as int));
        match find_use(&line) {
            Some(n) => {
                if name.as_str().unicode_len() != 0 {
                    flush(&mut acc, name, sql);
                    sql = String::new();
                }
                name = n;
            },
            None => {
                let ghost before = sql@;
                let text = string_of(&line, 0, line.len());
                assert(text@ =~= line@);
                push_text(&mut sql, &text);
                sql.push('\n');
                assert(sql@ =~= before + line@ + seq!['\n']);
            },
        }
        pos = next;
    }
    flush(&mut acc, name, sql);
    acc
}

} // verus!
