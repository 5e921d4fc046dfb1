use vstd::prelude::*;
use crate::data_type::{
    DataType,
    DataTypeView,
    SizeMode,
    TypeKind,
    has_charset,
    has_scale,
    has_sign,
    has_values,
    keyword_kind,
    render_charset,
    render_collation,
    render_data_type,
    render_flag,
    render_size,
    render_values,
    size_mode,
    spec_parse_data_type,
    spec_parse_opt_charset,
    spec_parse_opt_collation,
    spec_parse_sizes,
    spec_parse_type_params,
};
use crate::error::ParseError;
use crate::lex::{
    CharClass,
    ItemKind,
    after_word,
    at_char,
    at_keyword,
    digits_value,
    in_class,
    is_digit,
    is_space,
    is_word_char,
    literal_end,
    matches_from,
    run_end,
    sees_keyword,
    skip_ws,
    spec_parse_item_list,
    spec_parse_items_from,
    spec_parse_string,
    spec_parse_u32,
    spec_parse_word,
    upper,
};
use crate::text::{dec_digits, digit_char, join_quoted, join_quoted_from, lemma_append, quoted};

verus! {

/// Whether `c` is a word character that upper case leaves as it is.
pub open spec fn is_upper_word_char(c: char) -> bool {
    ('A' <= c && c <= 'Z') || is_digit(c) || c == '_'
}

/// Whether the characters of `s` from index `i` on are word characters in
/// upper case.
pub open spec fn upper_from(s: Seq<char>, i: int) -> bool
    decreases s.len() - i,
{
    i < 0 || i >= s.len() || (is_upper_word_char(s[i]) && upper_from(s, i + 1))
}

/// Whether `s` is a keyword as the library writes one: not empty, and made
/// of word characters in upper case.
pub open spec fn is_keyword_text(s: Seq<char>) -> bool {
    s.len() > 0 && upper_from(s, 0)
}

/// Whether `s` is a bare word: not empty, and made of word characters.
pub open spec fn is_bare_word(s: Seq<char>) -> bool {
    s.len() > 0 && forall|i: int| 0 <= i < s.len() ==> is_word_char(#[trigger] s[i])
}

/// Whether `s` can stand between single quotes as it is: read as the body
/// of a string literal, with a closing quote after it, it ends at that
/// quote. So every single quote in it has a backslash before it, and no
/// backslash is left over at its end.
pub open spec fn is_plain_text(s: Seq<char>) -> bool {
    literal_end(s.push('\''), 0) == s.len()
}

/// Whether the text `x` stands in `t` at `p`.
pub open spec fn text_at(t: Seq<char>, p: int, x: Seq<char>) -> bool {
    &&& 0 <= p
    &&& p + x.len() <= t.len()
    &&& forall|i: int| 0 <= i < x.len() ==> t[p + i] == #[trigger] x[i]
}

/// Whether `t` ends at `p`, or holds at `p` a character that is not of
/// class `k`.
pub open spec fn stops(t: Seq<char>, p: int, k: CharClass) -> bool {
    p == t.len() || (0 <= p < t.len() && !in_class(k, t[p]))
}

proof fn lemma_upper_from(s: Seq<char>, i: int, j: int)
    requires
        upper_from(s, i),
        0 <= i <= j < s.len(),
    ensures
        is_upper_word_char(s[j]),
    decreases j - i,
{
    if i < j {
        lemma_upper_from(s, i + 1, j);
    }
}

/// A run that holds only characters of its class and then stops ends
/// there.
pub proof fn lemma_run_stops(t: Seq<char>, p: int, end: int, k: CharClass)
    requires
        0 <= p <= end <= t.len(),
        forall|i: int| p <= i < end ==> in_class(k, #[trigger] t[i]),
        stops(t, end, k),
    ensures
        run_end(t, p, k) == end,
    decreases end - p,
{
    if p < end {
        assert(in_class(k, t[p]));
        lemma_run_stops(t, p + 1, end, k);
    }
}

/// A part of a text that stands at `p` stands there piece by piece.
pub proof fn lemma_text_at_split(t: Seq<char>, p: int, a: Seq<char>, b: Seq<char>)
    requires
        text_at(t, p, a + b),
    ensures
        text_at(t, p, a),
        text_at(t, p + a.len(), b),
{
    let x = a + b;
    assert forall|i: int| 0 <= i < a.len() implies t[p + i] == #[trigger] a[i] by {
        assert(x[i] == a[i]);
    }
    assert forall|i: int| 0 <= i < b.len() implies t[p + a.len() + i] == #[trigger] b[i] by {
        assert(x[a.len() + i] == b[i]);
    }
}

/// No white space is skipped where the text ends or holds another
/// character.
pub proof fn lemma_no_space(t: Seq<char>, p: int)
    requires
        stops(t, p, CharClass::Space),
    ensures
        skip_ws(t, p) == p,
{
}

/// One blank is skipped where a character that is no white space
/// follows it.
pub proof fn lemma_one_space(t: Seq<char>, p: int)
    requires
        0 <= p < t.len(),
        t[p] == ' ',
        stops(t, p + 1, CharClass::Space),
    ensures
        skip_ws(t, p) == p + 1,
{
    assert(run_end(t, p, CharClass::Space) == run_end(t, p + 1, CharClass::Space));
}

/// Where the word `w` stands at `p` and ends there, the run of word
/// characters at `p` is `w`.
pub proof fn lemma_word_at(t: Seq<char>, p: int, w: Seq<char>)
    requires
        text_at(t, p, w),
        is_bare_word(w),
        stops(t, p + w.len(), CharClass::Word),
    ensures
        run_end(t, p, CharClass::Word) == p + w.len(),
        spec_parse_word(t, p) == Ok::<(Seq<char>, int), ParseError>((w, p + w.len())),
{
    assert forall|i: int| p <= i < p + w.len() implies in_class(CharClass::Word, #[trigger] t[i]) by {
        assert(t[p + (i - p)] == w[i - p]);
    }
    lemma_run_stops(t, p, p + w.len(), CharClass::Word);
    assert(t.subrange(p, p + w.len()) =~= w) by {
        assert forall|i: int| 0 <= i < w.len() implies t.subrange(p, p + w.len())[i] == w[i] by {
            assert(t[p + i] == w[i]);
        }
    }
}

proof fn lemma_matches(t: Seq<char>, p: int, kw: Seq<char>, i: int)
    requires
        text_at(t, p, kw),
        upper_from(kw, 0),
        0 <= i <= kw.len(),
    ensures
        matches_from(t, p, kw, i),
    decreases kw.len() - i,
{
    if i < kw.len() {
        lemma_upper_from(kw, 0, i);
        assert(t[p + i] == kw[i]);
        lemma_matches(t, p, kw, i + 1);
    }
}

/// Where the keyword `kw` stands at `p` and ends there, it is found
/// there.
pub proof fn lemma_keyword_at(t: Seq<char>, p: int, kw: Seq<char>)
    requires
        text_at(t, p, kw),
        is_keyword_text(kw),
        stops(t, p + kw.len(), CharClass::Word),
    ensures
        at_keyword(t, p, kw),
        run_end(t, p, CharClass::Word) == p + kw.len(),
{
    assert forall|i: int| 0 <= i < kw.len() implies is_word_char(#[trigger] kw[i]) by {
        lemma_upper_from(kw, 0, i);
    }
    lemma_word_at(t, p, kw);
    lemma_matches(t, p, kw, 0);
}

/// Where a blank and the keyword `kw` stand at `p`, and the keyword ends
/// there, the keyword is seen from `p`.
pub proof fn lemma_sees_keyword(t: Seq<char>, p: int, kw: Seq<char>)
    requires
        text_at(t, p, seq![' '] + kw),
        is_keyword_text(kw),
        stops(t, p + 1 + kw.len(), CharClass::Word),
    ensures
        sees_keyword(t, p, kw),
        after_word(t, p) == p + 1 + kw.len(),
{
    lemma_text_at_split(t, p, seq![' '], kw);
    assert(seq![' '][0] == ' ');
    assert(t[p + 0] == ' ');
    lemma_upper_from(kw, 0, 0);
    assert(t[p + 1 + 0] == kw[0]);
    lemma_one_space(t, p);
    lemma_keyword_at(t, p + 1, kw);
}

/// No keyword is seen at the end of the text.
pub proof fn lemma_sees_nothing(t: Seq<char>, p: int, kw: Seq<char>)
    requires
        p == t.len(),
    ensures
        !sees_keyword(t, p, kw),
        !at_char(t, skip_ws(t, p), '('),
{
}

/// A keyword is not seen where, after one blank, a word starts with
/// another letter.
pub proof fn lemma_sees_other(t: Seq<char>, p: int, kw: Seq<char>)
    requires
        0 <= p,
        p + 1 < t.len(),
        t[p] == ' ',
        !is_space(t[p + 1]),
        kw.len() > 0,
        upper(t[p + 1]) != kw[0],
    ensures
        !sees_keyword(t, p, kw),
{
    lemma_one_space(t, p);
}

/// A keyword is not seen where, after one blank, a word differs from it in
/// the second letter.
pub proof fn lemma_sees_other_second(t: Seq<char>, p: int, kw: Seq<char>)
    requires
        0 <= p,
        p + 2 < t.len(),
        t[p] == ' ',
        !is_space(t[p + 1]),
        kw.len() > 1,
        upper(t[p + 2]) != kw[1],
    ensures
        !sees_keyword(t, p, kw),
{
    lemma_one_space(t, p);
    reveal_with_fuel(matches_from, 3);
}

/// The decimal notation of a number is made of digits, and its value is
/// the number.
pub proof fn lemma_dec_digits(n: nat)
    ensures
        dec_digits(n).len() >= 1,
        forall|i: int| 0 <= i < dec_digits(n).len() ==> is_digit(#[trigger] dec_digits(n)[i]),
        digits_value(dec_digits(n)) == n,
    decreases n,
{
    let d = dec_digits(n);
    if n < 10 {
        assert(d.drop_last() =~= Seq::<char>::empty());
        assert(d.last() == digit_char(n));
        assert(digits_value(d.drop_last()) == 0);
    } else {
        lemma_dec_digits(n / 10);
        assert(d.drop_last() =~= dec_digits(n / 10));
        assert(d.last() == digit_char(n % 10));
        assert forall|i: int| 0 <= i < d.len() implies is_digit(#[trigger] d[i]) by {
            if i < d.len() - 1 {
                assert(d[i] == dec_digits(n / 10)[i]);
            }
        }
    }
}

/// Where the decimal notation of `n` stands at `p` and no digit follows
/// it, the number read at `p` is `n`.
pub proof fn lemma_number_at(t: Seq<char>, p: int, n: u32)
    requires
        text_at(t, p, dec_digits(n as nat)),
        stops(t, p + dec_digits(n as nat).len(), CharClass::Digit),
    ensures
        spec_parse_u32(t, p) == Ok::<(u32, int), ParseError>(
            (n, p + dec_digits(n as nat).len()),
        ),
{
    let d = dec_digits(n as nat);
    lemma_dec_digits(n as nat);
    assert forall|i: int| p <= i < p + d.len() implies in_class(
        CharClass::Digit,
        #[trigger] t[i],
    ) by {
        assert(t[p + (i - p)] == d[i - p]);
    }
    lemma_run_stops(t, p, p + d.len(), CharClass::Digit);
    assert(t.subrange(p, p + d.len()) =~= d) by {
        assert forall|i: int| 0 <= i < d.len() implies t.subrange(p, p + d.len())[i] == d[i] by {
            assert(t[p + i] == d[i]);
        }
    }
}

/// Where the text of a size stands at `p`, the size is read from it.
pub proof fn lemma_size_at(t: Seq<char>, p: int, m: u32, scale: Option<u32>, allow: bool)
    requires
        text_at(t, p, render_size(Some(m), scale)),
        scale is Some ==> allow,
    ensures
        spec_parse_sizes(t, p, allow) == Ok::<((Option<u32>, Option<u32>), int), ParseError>(
            ((Some(m), scale), p + render_size(Some(m), scale).len()),
        ),
{
    reveal_strlit(" (");
    reveal_strlit(")");
    reveal_strlit(", ");
    let dm = dec_digits(m as nat);
    lemma_dec_digits(m as nat);
    let q = p + 2 + dm.len();
    match scale {
        None => {
            let x = render_size(Some(m), scale);
            assert(x == " ("@ + dm + ")"@);
            assert(x =~= " ("@ + (dm + ")"@));
            lemma_text_at_split(t, p, " ("@, dm + ")"@);
            lemma_text_at_split(t, p + 2, dm, ")"@);
            assert(" ("@[0] == ' ' && " ("@[1] == '(');
            assert(t[p + 0] == ' ' && t[p + 1] == '(');
            assert(")"@[0] == ')');
            assert(t[q + 0] == ')');
            assert(dm[0] == dm[0]);
            assert(t[p + 2 + 0] == dm[0]);
            lemma_one_space(t, p);
            lemma_no_space(t, p + 2);
            lemma_number_at(t, p + 2, m);
            lemma_no_space(t, q);
        },
        Some(d) => {
            let dd = dec_digits(d as nat);
            lemma_dec_digits(d as nat);
            let x = render_size(Some(m), scale);
            assert(x == " ("@ + dm + ", "@ + dd + ")"@);
            assert(x =~= " ("@ + (dm + (", "@ + (dd + ")"@))));
            lemma_text_at_split(t, p, " ("@, dm + (", "@ + (dd + ")"@)));
            lemma_text_at_split(t, p + 2, dm, ", "@ + (dd + ")"@));
            lemma_text_at_split(t, q, ", "@, dd + ")"@);
            lemma_text_at_split(t, q + 2, dd, ")"@);
            let r = q + 2 + dd.len();
            assert(" ("@[0] == ' ' && " ("@[1] == '(');
            assert(t[p + 0] == ' ' && t[p + 1] == '(');
            assert(", "@[0] == ',' && ", "@[1] == ' ');
            assert(t[q + 0] == ',' && t[q + 1] == ' ');
            assert(")"@[0] == ')');
            assert(t[r + 0] == ')');
            assert(dm[0] == dm[0]);
            assert(t[p + 2 + 0] == dm[0]);
            assert(dd[0] == dd[0]);
            assert(t[q + 2 + 0] == dd[0]);
            lemma_one_space(t, p);
            lemma_no_space(t, p + 2);
            lemma_number_at(t, p + 2, m);
            lemma_no_space(t, q);
            lemma_one_space(t, q + 1);
            lemma_number_at(t, q + 2, d);
            lemma_no_space(t, r);
        },
    }
}

/// The keywords that follow a type keyword are keyword texts.
pub proof fn lemma_clause_keywords()
    ensures
        is_keyword_text("UNSIGNED"@),
        is_keyword_text("ZEROFILL"@),
        is_keyword_text("CHARACTER"@),
        is_keyword_text("SET"@),
        is_keyword_text("COLLATE"@),
{
    reveal_strlit("UNSIGNED");
    reveal_strlit("ZEROFILL");
    reveal_strlit("CHARACTER");
    reveal_strlit("SET");
    reveal_strlit("COLLATE");
    reveal_with_fuel(upper_from, 12);
}

/// Where the text of a flag stands at `p` and the keyword ends there, the
/// flag is seen.
pub proof fn lemma_flag_at(t: Seq<char>, p: int, lit: Seq<char>, kw: Seq<char>)
    requires
        text_at(t, p, lit),
        lit == seq![' '] + kw,
        is_keyword_text(kw),
        stops(t, p + lit.len(), CharClass::Word),
    ensures
        sees_keyword(t, p, kw),
        after_word(t, p) == p + lit.len(),
{
    lemma_sees_keyword(t, p, kw);
}

/// Where the text of a character set stands at `p` and the name ends
/// there, the character set is read from it.
pub proof fn lemma_charset_at(t: Seq<char>, p: int, name: Seq<char>)
    requires
        text_at(t, p, render_charset(Some(name))),
        is_bare_word(name),
        stops(t, p + render_charset(Some(name)).len(), CharClass::Word),
    ensures
        spec_parse_opt_charset(t, p) == Ok::<(Option<Seq<char>>, int), ParseError>(
            (Some(name), p + render_charset(Some(name)).len()),
        ),
{
    reveal_strlit(" CHARACTER SET ");
    reveal_strlit("CHARACTER");
    reveal_strlit("SET");
    lemma_clause_keywords();
    let lead = " CHARACTER SET "@;
    let a = seq![' '] + "CHARACTER"@;
    let b = seq![' '] + "SET"@;
    let c = seq![' '];
    assert(lead =~= a + (b + c));
    assert(render_charset(Some(name)) =~= a + (b + (c + name)));
    lemma_text_at_split(t, p, a, b + (c + name));
    lemma_text_at_split(t, p + 10, b, c + name);
    lemma_text_at_split(t, p + 14, c, name);
    assert(b[0] == ' ');
    assert(t[p + 10 + 0] == ' ');
    assert(c[0] == ' ');
    assert(t[p + 14 + 0] == ' ');
    assert(name[0] == name[0]);
    assert(t[p + 15 + 0] == name[0]);
    lemma_sees_keyword(t, p, "CHARACTER"@);
    lemma_sees_keyword(t, p + 10, "SET"@);
    lemma_one_space(t, p + 14);
    lemma_word_at(t, p + 15, name);
}

/// Where the text of a collation stands at `p` and the name ends there,
/// the collation is read from it.
pub proof fn lemma_collation_at(t: Seq<char>, p: int, name: Seq<char>)
    requires
        text_at(t, p, render_collation(Some(name))),
        is_bare_word(name),
        stops(t, p + render_collation(Some(name)).len(), CharClass::Word),
    ensures
        spec_parse_opt_collation(t, p) == Ok::<(Option<Seq<char>>, int), ParseError>(
            (Some(name), p + render_collation(Some(name)).len()),
        ),
{
    reveal_strlit(" COLLATE ");
    reveal_strlit("COLLATE");
    lemma_clause_keywords();
    let a = seq![' '] + "COLLATE"@;
    let c = seq![' '];
    assert(" COLLATE "@ =~= a + c);
    assert(render_collation(Some(name)) =~= a + (c + name));
    lemma_text_at_split(t, p, a, c + name);
    lemma_text_at_split(t, p + 8, c, name);
    assert(c[0] == ' ');
    assert(t[p + 8 + 0] == ' ');
    assert(name[0] == name[0]);
    assert(t[p + 9 + 0] == name[0]);
    lemma_sees_keyword(t, p, "COLLATE"@);
    lemma_one_space(t, p + 8);
    lemma_word_at(t, p + 9, name);
}

/// Reading the body of a string literal looks at nothing but the body
/// and the quote that closes it.
proof fn lemma_literal_from(t: Seq<char>, q: int, body: Seq<char>, i: int)
    requires
        text_at(t, q, body),
        q + body.len() < t.len(),
        t[q + body.len()] == '\'',
        0 <= i <= body.len(),
        literal_end(body.push('\''), i) == body.len(),
    ensures
        literal_end(t, q + i) == q + body.len(),
    decreases body.len() - i,
{
    let w = body.push('\'');
    if i < body.len() {
        assert(w[i] == body[i]);
        assert(t[q + i] == body[i]);
        if body[i] == '\\' {
            if i + 1 == body.len() {
                assert(literal_end(w, i + 2) == i + 2);
            } else {
                lemma_literal_from(t, q, body, i + 2);
            }
        } else {
            lemma_literal_from(t, q, body, i + 1);
        }
    }
}

/// The body of a string literal that can stand between quotes as it is
/// ends at the quote that follows it.
pub proof fn lemma_literal_at(t: Seq<char>, q: int, body: Seq<char>)
    requires
        text_at(t, q, body),
        is_plain_text(body),
        q + body.len() < t.len(),
        t[q + body.len()] == '\'',
    ensures
        literal_end(t, q) == q + body.len(),
{
    lemma_literal_from(t, q, body, 0);
}

/// Where a string between single quotes stands at `q`, it is read as a
/// string literal.
pub proof fn lemma_string_at(t: Seq<char>, q: int, body: Seq<char>)
    requires
        text_at(t, q, quoted(body, '\'')),
        is_plain_text(body),
    ensures
        spec_parse_string(t, q) == Ok::<(Seq<char>, int), ParseError>(
            (body, q + body.len() + 2),
        ),
{
    let x = quoted(body, '\'');
    assert(x =~= seq!['\''] + (body + seq!['\'']));
    lemma_text_at_split(t, q, seq!['\''], body + seq!['\'']);
    lemma_text_at_split(t, q + 1, body, seq!['\'']);
    assert(seq!['\''][0] == '\'');
    assert(t[q + 0] == '\'');
    assert(t[q + 1 + body.len() + 0] == '\'');
    lemma_literal_at(t, q + 1, body);
    assert(t.subrange(q + 1, q + 1 + body.len()) =~= body) by {
        assert forall|i: int| 0 <= i < body.len() implies t.subrange(q + 1, q + 1 + body.len())[i]
            == body[i] by {
            assert(t[q + 1 + i] == body[i]);
        }
    }
}

/// Whether every value can stand between single quotes as it is.
pub open spec fn all_plain(values: Seq<Seq<char>>) -> bool {
    forall|i: int| 0 <= i < values.len() ==> is_plain_text(#[trigger] values[i])
}

/// Where the values from `from` on stand at `q`, quoted and separated,
/// with a closing parenthesis after them, they are read as a list of
/// string literals.
pub proof fn lemma_items_at(
    t: Seq<char>,
    start: int,
    q: int,
    values: Seq<Seq<char>>,
    from: int,
    acc: Seq<Seq<char>>,
)
    requires
        0 <= from < values.len(),
        0 <= start <= q,
        skip_ws(t, start) == q,
        all_plain(values),
        text_at(t, q, join_quoted_from(values, from, '\'', ", "@) + ")"@),
    ensures
        spec_parse_items_from(t, start, ItemKind::Text, acc) == Ok::<
            (Seq<Seq<char>>, int),
            ParseError,
        >(
            (
                acc + values.skip(from),
                q + join_quoted_from(values, from, '\'', ", "@).len(),
            ),
        ),
    decreases values.len() - from,
{
    reveal_strlit(", ");
    reveal_strlit(")");
    let v = values[from];
    let item = quoted(v, '\'');
    let all = join_quoted_from(values, from, '\'', ", "@);
    assert(is_plain_text(v));
    if from + 1 == values.len() {
        assert(all == item);
        lemma_text_at_split(t, q, item, ")"@);
        lemma_string_at(t, q, v);
        let e = q + v.len() + 2;
        assert(")"@[0] == ')');
        assert(t[e + 0] == ')');
        lemma_no_space(t, e);
        assert(acc.push(v) =~= acc + values.skip(from));
    } else {
        let more = join_quoted_from(values, from + 1, '\'', ", "@);
        assert(all == item + ", "@ + more);
        assert(all + ")"@ =~= item + (", "@ + (more + ")"@)));
        lemma_text_at_split(t, q, item, ", "@ + (more + ")"@));
        let e = q + v.len() + 2;
        lemma_text_at_split(t, e, ", "@, more + ")"@);
        lemma_string_at(t, q, v);
        assert(", "@[0] == ',' && ", "@[1] == ' ');
        assert(t[e + 0] == ',' && t[e + 1] == ' ');
        lemma_no_space(t, e);
        let next = quoted(values[from + 1], '\'');
        assert(more.len() > 0 && more[0] == '\'') by {
            assert(next[0] == '\'');
            if from + 2 == values.len() {
                assert(more == next);
            } else {
                assert(more == next + ", "@ + join_quoted_from(values, from + 2, '\'', ", "@));
            }
        }
        assert((more + ")"@)[0] == '\'');
        assert(t[e + 2 + 0] == '\'');
        lemma_one_space(t, e + 1);
        lemma_items_at(t, e + 1, e + 2, values, from + 1, acc.push(v));
        assert(acc.push(v) + values.skip(from + 1) =~= acc + values.skip(from));
    }
}

/// Where the text of a list of values stands at `p`, the values are read
/// from it.
pub proof fn lemma_values_at(t: Seq<char>, p: int, k: TypeKind, values: Seq<Seq<char>>)
    requires
        has_values(k),
        values.len() > 0,
        all_plain(values),
        text_at(t, p, render_values(k, values)),
    ensures
        spec_parse_item_list(t, p, ItemKind::Text) == Ok::<(Seq<Seq<char>>, int), ParseError>(
            (values, p + render_values(k, values).len()),
        ),
{
    reveal_strlit(" (");
    reveal_strlit(")");
    let body = join_quoted(values, '\'', ", "@);
    assert(render_values(k, values) =~= " ("@ + (body + ")"@));
    lemma_text_at_split(t, p, " ("@, body + ")"@);
    assert(" ("@[0] == ' ' && " ("@[1] == '(');
    assert(t[p + 0] == ' ' && t[p + 1] == '(');
    lemma_one_space(t, p);
    let first = quoted(values[0], '\'');
    assert(body.len() > 0 && body[0] == '\'') by {
        assert(first[0] == '\'');
        if values.len() == 1 {
            assert(body == first);
        } else {
            assert(body == first + ", "@ + join_quoted_from(values, 1, '\'', ", "@));
        }
    }
    assert((body + ")"@)[0] == '\'');
    assert(t[p + 2 + 0] == '\'');
    lemma_no_space(t, p + 2);
    lemma_items_at(t, p + 2, p + 2, values, 0, Seq::empty());
    assert(Seq::<Seq<char>>::empty() + values.skip(0) =~= values);
    lemma_text_at_split(t, p + 2, body, ")"@);
    let e = p + 2 + body.len();
    assert(")"@[0] == ')');
    assert(t[e + 0] == ')');
    lemma_no_space(t, e);
}

/// The keyword of every type is a keyword text.
pub proof fn lemma_kind_names(k: TypeKind)
    ensures
        is_keyword_text(k.spec_name()),
{
    reveal_strlit("TINYINT");
    reveal_strlit("SMALLINT");
    reveal_strlit("MEDIUMINT");
    reveal_strlit("INT");
    reveal_strlit("BIGINT");
    reveal_strlit("DECIMAL");
    reveal_strlit("FLOAT");
    reveal_strlit("DOUBLE");
    reveal_strlit("BIT");
    reveal_strlit("DATE");
    reveal_strlit("DATETIME");
    reveal_strlit("TIMESTAMP");
    reveal_strlit("TIME");
    reveal_strlit("YEAR");
    reveal_strlit("CHAR");
    reveal_strlit("VARCHAR");
    reveal_strlit("BINARY");
    reveal_strlit("VARBINARY");
    reveal_strlit("BLOB");
    reveal_strlit("TINYBLOB");
    reveal_strlit("MEDIUMBLOB");
    reveal_strlit("LONGBLOB");
    reveal_strlit("TEXT");
    reveal_strlit("TINYTEXT");
    reveal_strlit("MEDIUMTEXT");
    reveal_strlit("LONGTEXT");
    reveal_strlit("ENUM");
    reveal_strlit("SET");
    reveal_strlit("JSON");
    reveal_with_fuel(upper_from, 12);
}

proof fn lemma_kind_tiny_int(t: Seq<char>)
    requires
        text_at(t, 0, "TINYINT"@),
        stops(t, "TINYINT"@.len() as int, CharClass::Word),
    ensures
        keyword_kind(t, 0) == Some(TypeKind::TinyInt),
{
    reveal_strlit("TINYINT");
    reveal_with_fuel(upper_from, 12);
    reveal_with_fuel(matches_from, 12);
    lemma_keyword_at(t, 0, "TINYINT"@);
}

proof fn lemma_kind_small_int(t: Seq<char>)
    requires
        text_at(t, 0, "SMALLINT"@),
        stops(t, "SMALLINT"@.len() as int, CharClass::Word),
    ensures
        keyword_kind(t, 0) == Some(TypeKind::SmallInt),
{
    reveal_strlit("TINYINT");
    reveal_strlit("SMALLINT");
    reveal_with_fuel(upper_from, 12);
    reveal_with_fuel(matches_from, 12);
    lemma_keyword_at(t, 0, "SMALLINT"@);
}

proof fn lemma_kind_medium_int(t: Seq<char>)
    requires
        text_at(t, 0, "MEDIUMINT"@),
        stops(t, "MEDIUMINT"@.len() as int, CharClass::Word),
    ensures
        keyword_kind(t, 0) == Some(TypeKind::MediumInt),
{
    reveal_strlit("TINYINT");
    reveal_strlit("SMALLINT");
    reveal_strlit("MEDIUMINT");
    reveal_with_fuel(upper_from, 12);
    reveal_with_fuel(matches_from, 12);
    lemma_keyword_at(t, 0, "MEDIUMINT"@);
}

proof fn lemma_kind_int(t: Seq<char>)
    requires
        text_at(t, 0, "INT"@),
        stops(t, "INT"@.len() as int, CharClass::Word),
    ensures
        keyword_kind(t, 0) == Some(TypeKind::Int),
{
    reveal_strlit("TINYINT");
    reveal_strlit("SMALLINT");
    reveal_strlit("MEDIUMINT");
    reveal_strlit("INT");
    reveal_with_fuel(upper_from, 12);
    reveal_with_fuel(matches_from, 12);
    lemma_keyword_at(t, 0, "INT"@);
}

proof fn lemma_kind_big_int(t: Seq<char>)
    requires
        text_at(t, 0, "BIGINT"@),
        stops(t, "BIGINT"@.len() as int, CharClass::Word),
    ensures
        keyword_kind(t, 0) == Some(TypeKind::BigInt),
{
    reveal_strlit("TINYINT");
    reveal_strlit("SMALLINT");
    reveal_strlit("MEDIUMINT");
    reveal_strlit("INT");
    reveal_strlit("INTEGER");
    reveal_strlit("BIGINT");
    reveal_with_fuel(upper_from, 12);
    reveal_with_fuel(matches_from, 12);
    lemma_keyword_at(t, 0, "BIGINT"@);
}

proof fn lemma_kind_decimal(t: Seq<char>)
    requires
        text_at(t, 0, "DECIMAL"@),
        stops(t, "DECIMAL"@.len() as int, CharClass::Word),
    ensures
        keyword_kind(t, 0) == Some(TypeKind::Decimal),
{
    reveal_strlit("TINYINT");
    reveal_strlit("SMALLINT");
    reveal_strlit("MEDIUMINT");
    reveal_strlit("INT");
    reveal_strlit("INTEGER");
    reveal_strlit("BIGINT");
    reveal_strlit("DECIMAL");
    reveal_with_fuel(upper_from, 12);
    reveal_with_fuel(matches_from, 12);
    lemma_keyword_at(t, 0, "DECIMAL"@);
}

proof fn lemma_kind_float(t: Seq<char>)
    requires
        text_at(t, 0, "FLOAT"@),
        stops(t, "FLOAT"@.len() as int, CharClass::Word),
    ensures
        keyword_kind(t, 0) == Some(TypeKind::Float),
{
    reveal_strlit("TINYINT");
    reveal_strlit("SMALLINT");
    reveal_strlit("MEDIUMINT");
    reveal_strlit("INT");
    reveal_strlit("INTEGER");
    reveal_strlit("BIGINT");
    reveal_strlit("DECIMAL");
    reveal_strlit("NUMERIC");
    reveal_strlit("FLOAT");
    reveal_with_fuel(upper_from, 12);
    reveal_with_fuel(matches_from, 12);
    lemma_keyword_at(t, 0, "FLOAT"@);
}

proof fn lemma_kind_double(t: Seq<char>)
    requires
        text_at(t, 0, "DOUBLE"@),
        stops(t, "DOUBLE"@.len() as int, CharClass::Word),
    ensures
        keyword_kind(t, 0) == Some(TypeKind::Double),
{
    reveal_strlit("TINYINT");
    reveal_strlit("SMALLINT");
    reveal_strlit("MEDIUMINT");
    reveal_strlit("INT");
    reveal_strlit("INTEGER");
    reveal_strlit("BIGINT");
    reveal_strlit("DECIMAL");
    reveal_strlit("NUMERIC");
    reveal_strlit("FLOAT");
    reveal_strlit("DOUBLE");
    reveal_with_fuel(upper_from, 12);
    reveal_with_fuel(matches_from, 12);
    lemma_keyword_at(t, 0, "DOUBLE"@);
}

proof fn lemma_kind_bit(t: Seq<char>)
    requires
        text_at(t, 0, "BIT"@),
        stops(t, "BIT"@.len() as int, CharClass::Word),
    ensures
        keyword_kind(t, 0) == Some(TypeKind::Bit),
{
    reveal_strlit("TINYINT");
    reveal_strlit("SMALLINT");
    reveal_strlit("MEDIUMINT");
    reveal_strlit("INT");
    reveal_strlit("INTEGER");
    reveal_strlit("BIGINT");
    reveal_strlit("DECIMAL");
    reveal_strlit("NUMERIC");
    reveal_strlit("FLOAT");
    reveal_strlit("DOUBLE");
    reveal_strlit("BIT");
    reveal_with_fuel(upper_from, 12);
    reveal_with_fuel(matches_from, 12);
    lemma_keyword_at(t, 0, "BIT"@);
}

proof fn lemma_kind_date(t: Seq<char>)
    requires
        text_at(t, 0, "DATE"@),
        stops(t, "DATE"@.len() as int, CharClass::Word),
    ensures
        keyword_kind(t, 0) == Some(TypeKind::Date),
{
    reveal_strlit("TINYINT");
    reveal_strlit("SMALLINT");
    reveal_strlit("MEDIUMINT");
    reveal_strlit("INT");
    reveal_strlit("INTEGER");
    reveal_strlit("BIGINT");
    reveal_strlit("DECIMAL");
    reveal_strlit("NUMERIC");
    reveal_strlit("FLOAT");
    reveal_strlit("DOUBLE");
    reveal_strlit("BIT");
    reveal_strlit("DATE");
    reveal_with_fuel(upper_from, 12);
    reveal_with_fuel(matches_from, 12);
    lemma_keyword_at(t, 0, "DATE"@);
}

proof fn lemma_kind_date_time(t: Seq<char>)
    requires
        text_at(t, 0, "DATETIME"@),
        stops(t, "DATETIME"@.len() as int, CharClass::Word),
    ensures
        keyword_kind(t, 0) == Some(TypeKind::DateTime),
{
    reveal_strlit("TINYINT");
    reveal_strlit("SMALLINT");
    reveal_strlit("MEDIUMINT");
    reveal_strlit("INT");
    reveal_strlit("INTEGER");
    reveal_strlit("BIGINT");
    reveal_strlit("DECIMAL");
    reveal_strlit("NUMERIC");
    reveal_strlit("FLOAT");
    reveal_strlit("DOUBLE");
    reveal_strlit("BIT");
    reveal_strlit("DATE");
    reveal_strlit("DATETIME");
    reveal_with_fuel(upper_from, 12);
    reveal_with_fuel(matches_from, 12);
    lemma_keyword_at(t, 0, "DATETIME"@);
}

proof fn lemma_kind_timestamp(t: Seq<char>)
    requires
        text_at(t, 0, "TIMESTAMP"@),
        stops(t, "TIMESTAMP"@.len() as int, CharClass::Word),
    ensures
        keyword_kind(t, 0) == Some(TypeKind::Timestamp),
{
    reveal_strlit("TINYINT");
    reveal_strlit("SMALLINT");
    reveal_strlit("MEDIUMINT");
    reveal_strlit("INT");
    reveal_strlit("INTEGER");
    reveal_strlit("BIGINT");
    reveal_strlit("DECIMAL");
    reveal_strlit("NUMERIC");
    reveal_strlit("FLOAT");
    reveal_strlit("DOUBLE");
    reveal_strlit("BIT");
    reveal_strlit("DATE");
    reveal_strlit("DATETIME");
    reveal_strlit("TIMESTAMP");
    reveal_with_fuel(upper_from, 12);
    reveal_with_fuel(matches_from, 12);
    lemma_keyword_at(t, 0, "TIMESTAMP"@);
}

proof fn lemma_kind_time(t: Seq<char>)
    requires
        text_at(t, 0, "TIME"@),
        stops(t, "TIME"@.len() as int, CharClass::Word),
    ensures
        keyword_kind(t, 0) == Some(TypeKind::Time),
{
    reveal_strlit("TINYINT");
    reveal_strlit("SMALLINT");
    reveal_strlit("MEDIUMINT");
    reveal_strlit("INT");
    reveal_strlit("INTEGER");
    reveal_strlit("BIGINT");
    reveal_strlit("DECIMAL");
    reveal_strlit("NUMERIC");
    reveal_strlit("FLOAT");
    reveal_strlit("DOUBLE");
    reveal_strlit("BIT");
    reveal_strlit("DATE");
    reveal_strlit("DATETIME");
    reveal_strlit("TIMESTAMP");
    reveal_strlit("TIME");
    reveal_with_fuel(upper_from, 12);
    reveal_with_fuel(matches_from, 12);
    lemma_keyword_at(t, 0, "TIME"@);
}

proof fn lemma_kind_year(t: Seq<char>)
    requires
        text_at(t, 0, "YEAR"@),
        stops(t, "YEAR"@.len() as int, CharClass::Word),
    ensures
        keyword_kind(t, 0) == Some(TypeKind::Year),
{
    reveal_strlit("TINYINT");
    reveal_strlit("SMALLINT");
    reveal_strlit("MEDIUMINT");
    reveal_strlit("INT");
    reveal_strlit("INTEGER");
    reveal_strlit("BIGINT");
    reveal_strlit("DECIMAL");
    reveal_strlit("NUMERIC");
    reveal_strlit("FLOAT");
    reveal_strlit("DOUBLE");
    reveal_strlit("BIT");
    reveal_strlit("DATE");
    reveal_strlit("DATETIME");
    reveal_strlit("TIMESTAMP");
    reveal_strlit("TIME");
    reveal_strlit("YEAR");
    reveal_with_fuel(upper_from, 12);
    reveal_with_fuel(matches_from, 12);
    lemma_keyword_at(t, 0, "YEAR"@);
}

proof fn lemma_kind_char(t: Seq<char>)
    requires
        text_at(t, 0, "CHAR"@),
        stops(t, "CHAR"@.len() as int, CharClass::Word),
    ensures
        keyword_kind(t, 0) == Some(TypeKind::Char),
{
    reveal_strlit("TINYINT");
    reveal_strlit("SMALLINT");
    reveal_strlit("MEDIUMINT");
    reveal_strlit("INT");
    reveal_strlit("INTEGER");
    reveal_strlit("BIGINT");
    reveal_strlit("DECIMAL");
    reveal_strlit("NUMERIC");
    reveal_strlit("FLOAT");
    reveal_strlit("DOUBLE");
    reveal_strlit("BIT");
    reveal_strlit("DATE");
    reveal_strlit("DATETIME");
    reveal_strlit("TIMESTAMP");
    reveal_strlit("TIME");
    reveal_strlit("YEAR");
    reveal_strlit("CHAR");
    reveal_with_fuel(upper_from, 12);
    reveal_with_fuel(matches_from, 12);
    lemma_keyword_at(t, 0, "CHAR"@);
}

proof fn lemma_kind_varchar(t: Seq<char>)
    requires
        text_at(t, 0, "VARCHAR"@),
        stops(t, "VARCHAR"@.len() as int, CharClass::Word),
    ensures
        keyword_kind(t, 0) == Some(TypeKind::Varchar),
{
    reveal_strlit("TINYINT");
    reveal_strlit("SMALLINT");
    reveal_strlit("MEDIUMINT");
    reveal_strlit("INT");
    reveal_strlit("INTEGER");
    reveal_strlit("BIGINT");
    reveal_strlit("DECIMAL");
    reveal_strlit("NUMERIC");
    reveal_strlit("FLOAT");
    reveal_strlit("DOUBLE");
    reveal_strlit("BIT");
    reveal_strlit("DATE");
    reveal_strlit("DATETIME");
    reveal_strlit("TIMESTAMP");
    reveal_strlit("TIME");
    reveal_strlit("YEAR");
    reveal_strlit("CHAR");
    reveal_strlit("VARCHAR");
    reveal_with_fuel(upper_from, 12);
    reveal_with_fuel(matches_from, 12);
    lemma_keyword_at(t, 0, "VARCHAR"@);
}

proof fn lemma_kind_binary(t: Seq<char>)
    requires
        text_at(t, 0, "BINARY"@),
        stops(t, "BINARY"@.len() as int, CharClass::Word),
    ensures
        keyword_kind(t, 0) == Some(TypeKind::Binary),
{
    reveal_strlit("TINYINT");
    reveal_strlit("SMALLINT");
    reveal_strlit("MEDIUMINT");
    reveal_strlit("INT");
    reveal_strlit("INTEGER");
    reveal_strlit("BIGINT");
    reveal_strlit("DECIMAL");
    reveal_strlit("NUMERIC");
    reveal_strlit("FLOAT");
    reveal_strlit("DOUBLE");
    reveal_strlit("BIT");
    reveal_strlit("DATE");
    reveal_strlit("DATETIME");
    reveal_strlit("TIMESTAMP");
    reveal_strlit("TIME");
    reveal_strlit("YEAR");
    reveal_strlit("CHAR");
    reveal_strlit("VARCHAR");
    reveal_strlit("BINARY");
    reveal_with_fuel(upper_from, 12);
    reveal_with_fuel(matches_from, 12);
    lemma_keyword_at(t, 0, "BINARY"@);
}

proof fn lemma_kind_varbinary(t: Seq<char>)
    requires
        text_at(t, 0, "VARBINARY"@),
        stops(t, "VARBINARY"@.len() as int, CharClass::Word),
    ensures
        keyword_kind(t, 0) == Some(TypeKind::Varbinary),
{
    reveal_strlit("TINYINT");
    reveal_strlit("SMALLINT");
    reveal_strlit("MEDIUMINT");
    reveal_strlit("INT");
    reveal_strlit("INTEGER");
    reveal_strlit("BIGINT");
    reveal_strlit("DECIMAL");
    reveal_strlit("NUMERIC");
    reveal_strlit("FLOAT");
    reveal_strlit("DOUBLE");
    reveal_strlit("BIT");
    reveal_strlit("DATE");
    reveal_strlit("DATETIME");
    reveal_strlit("TIMESTAMP");
    reveal_strlit("TIME");
    reveal_strlit("YEAR");
    reveal_strlit("CHAR");
    reveal_strlit("VARCHAR");
    reveal_strlit("BINARY");
    reveal_strlit("VARBINARY");
    reveal_with_fuel(upper_from, 12);
    reveal_with_fuel(matches_from, 12);
    lemma_keyword_at(t, 0, "VARBINARY"@);
}

proof fn lemma_kind_blob(t: Seq<char>)
    requires
        text_at(t, 0, "BLOB"@),
        stops(t, "BLOB"@.len() as int, CharClass::Word),
    ensures
        keyword_kind(t, 0) == Some(TypeKind::Blob),
{
    reveal_strlit("TINYINT");
    reveal_strlit("SMALLINT");
    reveal_strlit("MEDIUMINT");
    reveal_strlit("INT");
    reveal_strlit("INTEGER");
    reveal_strlit("BIGINT");
    reveal_strlit("DECIMAL");
    reveal_strlit("NUMERIC");
    reveal_strlit("FLOAT");
    reveal_strlit("DOUBLE");
    reveal_strlit("BIT");
    reveal_strlit("DATE");
    reveal_strlit("DATETIME");
    reveal_strlit("TIMESTAMP");
    reveal_strlit("TIME");
    reveal_strlit("YEAR");
    reveal_strlit("CHAR");
    reveal_strlit("VARCHAR");
    reveal_strlit("BINARY");
    reveal_strlit("VARBINARY");
    reveal_strlit("BLOB");
    reveal_with_fuel(upper_from, 12);
    reveal_with_fuel(matches_from, 12);
    lemma_keyword_at(t, 0, "BLOB"@);
}

proof fn lemma_kind_tiny_blob(t: Seq<char>)
    requires
        text_at(t, 0, "TINYBLOB"@),
        stops(t, "TINYBLOB"@.len() as int, CharClass::Word),
    ensures
        keyword_kind(t, 0) == Some(TypeKind::TinyBlob),
{
    reveal_strlit("TINYINT");
    reveal_strlit("SMALLINT");
    reveal_strlit("MEDIUMINT");
    reveal_strlit("INT");
    reveal_strlit("INTEGER");
    reveal_strlit("BIGINT");
    reveal_strlit("DECIMAL");
    reveal_strlit("NUMERIC");
    reveal_strlit("FLOAT");
    reveal_strlit("DOUBLE");
    reveal_strlit("BIT");
    reveal_strlit("DATE");
    reveal_strlit("DATETIME");
    reveal_strlit("TIMESTAMP");
    reveal_strlit("TIME");
    reveal_strlit("YEAR");
    reveal_strlit("CHAR");
    reveal_strlit("VARCHAR");
    reveal_strlit("BINARY");
    reveal_strlit("VARBINARY");
    reveal_strlit("BLOB");
    reveal_strlit("TINYBLOB");
    reveal_with_fuel(upper_from, 12);
    reveal_with_fuel(matches_from, 12);
    lemma_keyword_at(t, 0, "TINYBLOB"@);
}

proof fn lemma_kind_medium_blob(t: Seq<char>)
    requires
        text_at(t, 0, "MEDIUMBLOB"@),
        stops(t, "MEDIUMBLOB"@.len() as int, CharClass::Word),
    ensures
        keyword_kind(t, 0) == Some(TypeKind::MediumBlob),
{
    reveal_strlit("TINYINT");
    reveal_strlit("SMALLINT");
    reveal_strlit("MEDIUMINT");
    reveal_strlit("INT");
    reveal_strlit("INTEGER");
    reveal_strlit("BIGINT");
    reveal_strlit("DECIMAL");
    reveal_strlit("NUMERIC");
    reveal_strlit("FLOAT");
    reveal_strlit("DOUBLE");
    reveal_strlit("BIT");
    reveal_strlit("DATE");
    reveal_strlit("DATETIME");
    reveal_strlit("TIMESTAMP");
    reveal_strlit("TIME");
    reveal_strlit("YEAR");
    reveal_strlit("CHAR");
    reveal_strlit("VARCHAR");
    reveal_strlit("BINARY");
    reveal_strlit("VARBINARY");
    reveal_strlit("BLOB");
    reveal_strlit("TINYBLOB");
    reveal_strlit("MEDIUMBLOB");
    reveal_with_fuel(upper_from, 12);
    reveal_with_fuel(matches_from, 12);
    lemma_keyword_at(t, 0, "MEDIUMBLOB"@);
}

proof fn lemma_kind_long_blob(t: Seq<char>)
    requires
        text_at(t, 0, "LONGBLOB"@),
        stops(t, "LONGBLOB"@.len() as int, CharClass::Word),
    ensures
        keyword_kind(t, 0) == Some(TypeKind::LongBlob),
{
    reveal_strlit("TINYINT");
    reveal_strlit("SMALLINT");
    reveal_strlit("MEDIUMINT");
    reveal_strlit("INT");
    reveal_strlit("INTEGER");
    reveal_strlit("BIGINT");
    reveal_strlit("DECIMAL");
    reveal_strlit("NUMERIC");
    reveal_strlit("FLOAT");
    reveal_strlit("DOUBLE");
    reveal_strlit("BIT");
    reveal_strlit("DATE");
    reveal_strlit("DATETIME");
    reveal_strlit("TIMESTAMP");
    reveal_strlit("TIME");
    reveal_strlit("YEAR");
    reveal_strlit("CHAR");
    reveal_strlit("VARCHAR");
    reveal_strlit("BINARY");
    reveal_strlit("VARBINARY");
    reveal_strlit("BLOB");
    reveal_strlit("TINYBLOB");
    reveal_strlit("MEDIUMBLOB");
    reveal_strlit("LONGBLOB");
    reveal_with_fuel(upper_from, 12);
    reveal_with_fuel(matches_from, 12);
    lemma_keyword_at(t, 0, "LONGBLOB"@);
}

proof fn lemma_kind_text(t: Seq<char>)
    requires
        text_at(t, 0, "TEXT"@),
        stops(t, "TEXT"@.len() as int, CharClass::Word),
    ensures
        keyword_kind(t, 0) == Some(TypeKind::Text),
{
    reveal_strlit("TINYINT");
    reveal_strlit("SMALLINT");
    reveal_strlit("MEDIUMINT");
    reveal_strlit("INT");
    reveal_strlit("INTEGER");
    reveal_strlit("BIGINT");
    reveal_strlit("DECIMAL");
    reveal_strlit("NUMERIC");
    reveal_strlit("FLOAT");
    reveal_strlit("DOUBLE");
    reveal_strlit("BIT");
    reveal_strlit("DATE");
    reveal_strlit("DATETIME");
    reveal_strlit("TIMESTAMP");
    reveal_strlit("TIME");
    reveal_strlit("YEAR");
    reveal_strlit("CHAR");
    reveal_strlit("VARCHAR");
    reveal_strlit("BINARY");
    reveal_strlit("VARBINARY");
    reveal_strlit("BLOB");
    reveal_strlit("TINYBLOB");
    reveal_strlit("MEDIUMBLOB");
    reveal_strlit("LONGBLOB");
    reveal_strlit("TEXT");
    reveal_with_fuel(upper_from, 12);
    reveal_with_fuel(matches_from, 12);
    lemma_keyword_at(t, 0, "TEXT"@);
}

proof fn lemma_kind_tiny_text(t: Seq<char>)
    requires
        text_at(t, 0, "TINYTEXT"@),
        stops(t, "TINYTEXT"@.len() as int, CharClass::Word),
    ensures
        keyword_kind(t, 0) == Some(TypeKind::TinyText),
{
    reveal_strlit("TINYINT");
    reveal_strlit("SMALLINT");
    reveal_strlit("MEDIUMINT");
    reveal_strlit("INT");
    reveal_strlit("INTEGER");
    reveal_strlit("BIGINT");
    reveal_strlit("DECIMAL");
    reveal_strlit("NUMERIC");
    reveal_strlit("FLOAT");
    reveal_strlit("DOUBLE");
    reveal_strlit("BIT");
    reveal_strlit("DATE");
    reveal_strlit("DATETIME");
    reveal_strlit("TIMESTAMP");
    reveal_strlit("TIME");
    reveal_strlit("YEAR");
    reveal_strlit("CHAR");
    reveal_strlit("VARCHAR");
    reveal_strlit("BINARY");
    reveal_strlit("VARBINARY");
    reveal_strlit("BLOB");
    reveal_strlit("TINYBLOB");
    reveal_strlit("MEDIUMBLOB");
    reveal_strlit("LONGBLOB");
    reveal_strlit("TEXT");
    reveal_strlit("TINYTEXT");
    reveal_with_fuel(upper_from, 12);
    reveal_with_fuel(matches_from, 12);
    lemma_keyword_at(t, 0, "TINYTEXT"@);
}

proof fn lemma_kind_medium_text(t: Seq<char>)
    requires
        text_at(t, 0, "MEDIUMTEXT"@),
        stops(t, "MEDIUMTEXT"@.len() as int, CharClass::Word),
    ensures
        keyword_kind(t, 0) == Some(TypeKind::MediumText),
{
    reveal_strlit("TINYINT");
    reveal_strlit("SMALLINT");
    reveal_strlit("MEDIUMINT");
    reveal_strlit("INT");
    reveal_strlit("INTEGER");
    reveal_strlit("BIGINT");
    reveal_strlit("DECIMAL");
    reveal_strlit("NUMERIC");
    reveal_strlit("FLOAT");
    reveal_strlit("DOUBLE");
    reveal_strlit("BIT");
    reveal_strlit("DATE");
    reveal_strlit("DATETIME");
    reveal_strlit("TIMESTAMP");
    reveal_strlit("TIME");
    reveal_strlit("YEAR");
    reveal_strlit("CHAR");
    reveal_strlit("VARCHAR");
    reveal_strlit("BINARY");
    reveal_strlit("VARBINARY");
    reveal_strlit("BLOB");
    reveal_strlit("TINYBLOB");
    reveal_strlit("MEDIUMBLOB");
    reveal_strlit("LONGBLOB");
    reveal_strlit("TEXT");
    reveal_strlit("TINYTEXT");
    reveal_strlit("MEDIUMTEXT");
    reveal_with_fuel(upper_from, 12);
    reveal_with_fuel(matches_from, 12);
    lemma_keyword_at(t, 0, "MEDIUMTEXT"@);
}

proof fn lemma_kind_long_text(t: Seq<char>)
    requires
        text_at(t, 0, "LONGTEXT"@),
        stops(t, "LONGTEXT"@.len() as int, CharClass::Word),
    ensures
        keyword_kind(t, 0) == Some(TypeKind::LongText),
{
    reveal_strlit("TINYINT");
    reveal_strlit("SMALLINT");
    reveal_strlit("MEDIUMINT");
    reveal_strlit("INT");
    reveal_strlit("INTEGER");
    reveal_strlit("BIGINT");
    reveal_strlit("DECIMAL");
    reveal_strlit("NUMERIC");
    reveal_strlit("FLOAT");
    reveal_strlit("DOUBLE");
    reveal_strlit("BIT");
    reveal_strlit("DATE");
    reveal_strlit("DATETIME");
    reveal_strlit("TIMESTAMP");
    reveal_strlit("TIME");
    reveal_strlit("YEAR");
    reveal_strlit("CHAR");
    reveal_strlit("VARCHAR");
    reveal_strlit("BINARY");
    reveal_strlit("VARBINARY");
    reveal_strlit("BLOB");
    reveal_strlit("TINYBLOB");
    reveal_strlit("MEDIUMBLOB");
    reveal_strlit("LONGBLOB");
    reveal_strlit("TEXT");
    reveal_strlit("TINYTEXT");
    reveal_strlit("MEDIUMTEXT");
    reveal_strlit("LONGTEXT");
    reveal_with_fuel(upper_from, 12);
    reveal_with_fuel(matches_from, 12);
    lemma_keyword_at(t, 0, "LONGTEXT"@);
}

proof fn lemma_kind_enum(t: Seq<char>)
    requires
        text_at(t, 0, "ENUM"@),
        stops(t, "ENUM"@.len() as int, CharClass::Word),
    ensures
        keyword_kind(t, 0) == Some(TypeKind::Enum),
{
    reveal_strlit("TINYINT");
    reveal_strlit("SMALLINT");
    reveal_strlit("MEDIUMINT");
    reveal_strlit("INT");
    reveal_strlit("INTEGER");
    reveal_strlit("BIGINT");
    reveal_strlit("DECIMAL");
    reveal_strlit("NUMERIC");
    reveal_strlit("FLOAT");
    reveal_strlit("DOUBLE");
    reveal_strlit("BIT");
    reveal_strlit("DATE");
    reveal_strlit("DATETIME");
    reveal_strlit("TIMESTAMP");
    reveal_strlit("TIME");
    reveal_strlit("YEAR");
    reveal_strlit("CHAR");
    reveal_strlit("VARCHAR");
    reveal_strlit("BINARY");
    reveal_strlit("VARBINARY");
    reveal_strlit("BLOB");
    reveal_strlit("TINYBLOB");
    reveal_strlit("MEDIUMBLOB");
    reveal_strlit("LONGBLOB");
    reveal_strlit("TEXT");
    reveal_strlit("TINYTEXT");
    reveal_strlit("MEDIUMTEXT");
    reveal_strlit("LONGTEXT");
    reveal_strlit("ENUM");
    reveal_with_fuel(upper_from, 12);
    reveal_with_fuel(matches_from, 12);
    lemma_keyword_at(t, 0, "ENUM"@);
}

proof fn lemma_kind_set_type(t: Seq<char>)
    requires
        text_at(t, 0, "SET"@),
        stops(t, "SET"@.len() as int, CharClass::Word),
    ensures
        keyword_kind(t, 0) == Some(TypeKind::SetType),
{
    reveal_strlit("TINYINT");
    reveal_strlit("SMALLINT");
    reveal_strlit("MEDIUMINT");
    reveal_strlit("INT");
    reveal_strlit("INTEGER");
    reveal_strlit("BIGINT");
    reveal_strlit("DECIMAL");
    reveal_strlit("NUMERIC");
    reveal_strlit("FLOAT");
    reveal_strlit("DOUBLE");
    reveal_strlit("BIT");
    reveal_strlit("DATE");
    reveal_strlit("DATETIME");
    reveal_strlit("TIMESTAMP");
    reveal_strlit("TIME");
    reveal_strlit("YEAR");
    reveal_strlit("CHAR");
    reveal_strlit("VARCHAR");
    reveal_strlit("BINARY");
    reveal_strlit("VARBINARY");
    reveal_strlit("BLOB");
    reveal_strlit("TINYBLOB");
    reveal_strlit("MEDIUMBLOB");
    reveal_strlit("LONGBLOB");
    reveal_strlit("TEXT");
    reveal_strlit("TINYTEXT");
    reveal_strlit("MEDIUMTEXT");
    reveal_strlit("LONGTEXT");
    reveal_strlit("ENUM");
    reveal_strlit("SET");
    reveal_with_fuel(upper_from, 12);
    reveal_with_fuel(matches_from, 12);
    lemma_keyword_at(t, 0, "SET"@);
}

proof fn lemma_kind_json(t: Seq<char>)
    requires
        text_at(t, 0, "JSON"@),
        stops(t, "JSON"@.len() as int, CharClass::Word),
    ensures
        keyword_kind(t, 0) == Some(TypeKind::Json),
{
    reveal_strlit("TINYINT");
    reveal_strlit("SMALLINT");
    reveal_strlit("MEDIUMINT");
    reveal_strlit("INT");
    reveal_strlit("INTEGER");
    reveal_strlit("BIGINT");
    reveal_strlit("DECIMAL");
    reveal_strlit("NUMERIC");
    reveal_strlit("FLOAT");
    reveal_strlit("DOUBLE");
    reveal_strlit("BIT");
    reveal_strlit("DATE");
    reveal_strlit("DATETIME");
    reveal_strlit("TIMESTAMP");
    reveal_strlit("TIME");
    reveal_strlit("YEAR");
    reveal_strlit("CHAR");
    reveal_strlit("VARCHAR");
    reveal_strlit("BINARY");
    reveal_strlit("VARBINARY");
    reveal_strlit("BLOB");
    reveal_strlit("TINYBLOB");
    reveal_strlit("MEDIUMBLOB");
    reveal_strlit("LONGBLOB");
    reveal_strlit("TEXT");
    reveal_strlit("TINYTEXT");
    reveal_strlit("MEDIUMTEXT");
    reveal_strlit("LONGTEXT");
    reveal_strlit("ENUM");
    reveal_strlit("SET");
    reveal_strlit("JSON");
    reveal_with_fuel(upper_from, 12);
    reveal_with_fuel(matches_from, 12);
    lemma_keyword_at(t, 0, "JSON"@);
}

/// Where the keyword of `k` stands at the start of a text and ends there,
/// it names `k`.
pub proof fn lemma_kind_at(t: Seq<char>, k: TypeKind)
    requires
        text_at(t, 0, k.spec_name()),
        stops(t, k.spec_name().len() as int, CharClass::Word),
    ensures
        keyword_kind(t, 0) == Some(k),
        run_end(t, 0, CharClass::Word) == k.spec_name().len(),
        k.spec_name().len() > 0,
        skip_ws(t, 0) == 0,
{
    lemma_kind_names(k);
    lemma_keyword_at(t, 0, k.spec_name());
    lemma_upper_from(k.spec_name(), 0, 0);
    assert(t[0int + 0] == k.spec_name()[0]);
    lemma_no_space(t, 0);
    match k {
        TypeKind::TinyInt => lemma_kind_tiny_int(t),
        TypeKind::SmallInt => lemma_kind_small_int(t),
        TypeKind::MediumInt => lemma_kind_medium_int(t),
        TypeKind::Int => lemma_kind_int(t),
        TypeKind::BigInt => lemma_kind_big_int(t),
        TypeKind::Decimal => lemma_kind_decimal(t),
        TypeKind::Float => lemma_kind_float(t),
        TypeKind::Double => lemma_kind_double(t),
        TypeKind::Bit => lemma_kind_bit(t),
        TypeKind::Date => lemma_kind_date(t),
        TypeKind::DateTime => lemma_kind_date_time(t),
        TypeKind::Timestamp => lemma_kind_timestamp(t),
        TypeKind::Time => lemma_kind_time(t),
        TypeKind::Year => lemma_kind_year(t),
        TypeKind::Char => lemma_kind_char(t),
        TypeKind::Varchar => lemma_kind_varchar(t),
        TypeKind::Binary => lemma_kind_binary(t),
        TypeKind::Varbinary => lemma_kind_varbinary(t),
        TypeKind::Blob => lemma_kind_blob(t),
        TypeKind::TinyBlob => lemma_kind_tiny_blob(t),
        TypeKind::MediumBlob => lemma_kind_medium_blob(t),
        TypeKind::LongBlob => lemma_kind_long_blob(t),
        TypeKind::Text => lemma_kind_text(t),
        TypeKind::TinyText => lemma_kind_tiny_text(t),
        TypeKind::MediumText => lemma_kind_medium_text(t),
        TypeKind::LongText => lemma_kind_long_text(t),
        TypeKind::Enum => lemma_kind_enum(t),
        TypeKind::SetType => lemma_kind_set_type(t),
        TypeKind::Json => lemma_kind_json(t),
    }
}

/// Whether a record is one that the text of a data type can express: each
/// parameter is present only where the keyword takes it, a required size
/// is there, a scale comes with a size, a list of values is not empty and
/// each value can stand between quotes as it is, and the names of
/// character set and collation are bare words.
pub open spec fn is_canonical(v: DataTypeView) -> bool {
    &&& has_values(v.kind) ==> v.values.len() > 0 && all_plain(v.values)
    &&& !has_values(v.kind) ==> v.values.len() == 0
    &&& size_mode(v.kind) == SizeMode::Absent ==> v.size is None
    &&& size_mode(v.kind) == SizeMode::Required ==> v.size is Some
    &&& v.scale is Some ==> has_scale(v.kind) && v.size is Some
    &&& (v.unsigned || v.zerofill) ==> has_sign(v.kind)
    &&& (v.charset is Some || v.collation is Some) ==> has_charset(v.kind)
    &&& v.charset is Some ==> is_bare_word(v.charset->0)
    &&& v.collation is Some ==> is_bare_word(v.collation->0)
}

/// The text of a data type from its collation on.
pub open spec fn tail_collation(v: DataTypeView) -> Seq<char> {
    render_collation(v.collation)
}

/// The text of a data type from its character set on.
pub open spec fn tail_charset(v: DataTypeView) -> Seq<char> {
    render_charset(v.charset) + tail_collation(v)
}

/// The text of a data type from `ZEROFILL` on.
pub open spec fn tail_zerofill(v: DataTypeView) -> Seq<char> {
    render_flag(v.zerofill, " ZEROFILL"@) + tail_charset(v)
}

/// The text of a data type from `UNSIGNED` on.
pub open spec fn tail_unsigned(v: DataTypeView) -> Seq<char> {
    render_flag(v.unsigned, " UNSIGNED"@) + tail_zerofill(v)
}

/// The text of a data type from its size on.
pub open spec fn tail_size(v: DataTypeView) -> Seq<char> {
    render_size(v.size, v.scale) + tail_unsigned(v)
}

/// The text of a data type after its keyword.
pub open spec fn tail_values(v: DataTypeView) -> Seq<char> {
    render_values(v.kind, v.values) + tail_size(v)
}

/// Whether a text starts with a blank and the two characters given.
pub open spec fn begins(tail: Seq<char>, first: char, second: char) -> bool {
    tail.len() >= 3 && tail[0] == ' ' && tail[1] == first && tail[2] == second
}

/// Whether a text is empty or starts with a collation.
pub open spec fn head_collation(tail: Seq<char>) -> bool {
    tail.len() == 0 || begins(tail, 'C', 'O')
}

/// Whether a text is empty or starts with a character set or a collation.
pub open spec fn head_charset(tail: Seq<char>) -> bool {
    head_collation(tail) || begins(tail, 'C', 'H')
}

/// Whether a text is empty or starts with `ZEROFILL` or with what may follow
/// it.
pub open spec fn head_zerofill(tail: Seq<char>) -> bool {
    head_charset(tail) || begins(tail, 'Z', 'E')
}

/// Whether a text is empty or starts with `UNSIGNED` or with what may follow
/// it.
pub open spec fn head_unsigned(tail: Seq<char>) -> bool {
    head_zerofill(tail) || begins(tail, 'U', 'N')
}

/// Whether a text is empty or starts with a parenthesis or with what may
/// follow a size.
pub open spec fn head_size(tail: Seq<char>) -> bool {
    head_unsigned(tail) || (tail.len() >= 3 && tail[0] == ' ' && tail[1] == '(')
}

/// Whether `tail` stands in `t` at `q` and ends the text.
pub open spec fn ends_with(t: Seq<char>, q: int, tail: Seq<char>) -> bool {
    text_at(t, q, tail) && q + tail.len() == t.len()
}

/// How each part of the text of a data type starts.
pub proof fn lemma_heads(v: DataTypeView)
    requires
        is_canonical(v),
    ensures
        head_collation(tail_collation(v)),
        head_charset(tail_charset(v)),
        head_zerofill(tail_zerofill(v)),
        head_unsigned(tail_unsigned(v)),
        head_size(tail_size(v)),
        head_size(tail_values(v)),
{
    reveal_strlit(" COLLATE ");
    reveal_strlit(" CHARACTER SET ");
    reveal_strlit(" ZEROFILL");
    reveal_strlit(" UNSIGNED");
    reveal_strlit(" (");
    reveal_strlit(")");
    let t5 = tail_collation(v);
    let t4 = tail_charset(v);
    let t3 = tail_zerofill(v);
    let t2 = tail_unsigned(v);
    let t1 = tail_size(v);
    let t0 = tail_values(v);
    assert(head_collation(t5)) by {
        if v.collation is Some {
            let n = v.collation->0;
            assert(t5 == " COLLATE "@ + n);
            assert(t5[0] == ' ' && t5[1] == 'C' && t5[2] == 'O');
        }
    }
    assert(head_charset(t4)) by {
        if v.charset is Some {
            let n = v.charset->0;
            assert(t4 == " CHARACTER SET "@ + n + t5);
            assert(t4[0] == ' ' && t4[1] == 'C' && t4[2] == 'H');
        } else {
            assert(t4 =~= t5);
        }
    }
    assert(head_zerofill(t3)) by {
        if v.zerofill {
            assert(t3 == " ZEROFILL"@ + t4);
            assert(t3[0] == ' ' && t3[1] == 'Z' && t3[2] == 'E');
        } else {
            assert(t3 =~= t4);
        }
    }
    assert(head_unsigned(t2)) by {
        if v.unsigned {
            assert(t2 == " UNSIGNED"@ + t3);
            assert(t2[0] == ' ' && t2[1] == 'U' && t2[2] == 'N');
        } else {
            assert(t2 =~= t3);
        }
    }
    assert(head_size(t1)) by {
        if v.size is Some {
            let part = render_size(v.size, v.scale);
            lemma_dec_digits(v.size->0 as nat);
            assert(part.len() >= 3 && part[0] == ' ' && part[1] == '(') by {
                if v.scale is Some {
                    assert(part == " ("@ + dec_digits(v.size->0 as nat) + ", "@ + dec_digits(
                        v.scale->0 as nat,
                    ) + ")"@);
                } else {
                    assert(part == " ("@ + dec_digits(v.size->0 as nat) + ")"@);
                }
            }
            assert(t1[0] == part[0] && t1[1] == part[1]);
        } else {
            assert(t1 =~= t2);
        }
    }
    assert(head_size(t0)) by {
        if has_values(v.kind) {
            let part = render_values(v.kind, v.values);
            assert(part == " ("@ + join_quoted(v.values, '\'', ", "@) + ")"@);
            assert(part.len() >= 3 && part[0] == ' ' && part[1] == '(');
            assert(t0[0] == part[0] && t0[1] == part[1]);
        } else {
            assert(t0 =~= t1);
        }
    }
}

/// A text that is empty or starts with a blank lets a word or a number
/// before it end.
pub proof fn lemma_tail_stops(t: Seq<char>, q: int, tail: Seq<char>)
    requires
        ends_with(t, q, tail),
        tail.len() == 0 || tail[0] == ' ',
    ensures
        stops(t, q, CharClass::Word),
        stops(t, q, CharClass::Digit),
{
    if tail.len() > 0 {
        assert(t[q + 0] == tail[0]);
    }
}

/// Where a tail stands at `q` as the end of the text, what follows its
/// first part stands after that part as the end of the text.
pub proof fn lemma_ends_split(t: Seq<char>, q: int, part: Seq<char>, rest: Seq<char>)
    requires
        ends_with(t, q, part + rest),
    ensures
        text_at(t, q, part),
        ends_with(t, q + part.len(), rest),
{
    lemma_text_at_split(t, q, part, rest);
}

/// Where the text ends with the collation of a canonical record, the
/// collation is read back.
pub proof fn lemma_step_collation(t: Seq<char>, q: int, v: DataTypeView)
    requires
        is_canonical(v),
        ends_with(t, q, tail_collation(v)),
    ensures
        spec_parse_opt_collation(t, q) == Ok::<(Option<Seq<char>>, int), ParseError>(
            (v.collation, t.len() as int),
        ),
{
    match v.collation {
        Some(n) => {
            lemma_collation_at(t, q, n);
        },
        None => {
            lemma_sees_nothing(t, q, "COLLATE"@);
        },
    }
}

/// Where the text ends with the character set and what follows it, the
/// character set is read back.
pub proof fn lemma_step_charset(t: Seq<char>, q: int, v: DataTypeView)
    requires
        is_canonical(v),
        ends_with(t, q, tail_charset(v)),
    ensures
        spec_parse_opt_charset(t, q) == Ok::<(Option<Seq<char>>, int), ParseError>(
            (v.charset, q + render_charset(v.charset).len()),
        ),
        ends_with(t, q + render_charset(v.charset).len(), tail_collation(v)),
{
    lemma_heads(v);
    lemma_ends_split(t, q, render_charset(v.charset), tail_collation(v));
    let next = q + render_charset(v.charset).len();
    match v.charset {
        Some(n) => {
            lemma_tail_stops(t, next, tail_collation(v));
            lemma_charset_at(t, q, n);
        },
        None => {
            let tail = tail_collation(v);
            reveal_strlit("CHARACTER");
            if tail.len() == 0 {
                lemma_sees_nothing(t, q, "CHARACTER"@);
            } else {
                assert(t[q + 0] == tail[0] && t[q + 1] == tail[1] && t[q + 2] == tail[2]);
                lemma_sees_other_second(t, q, "CHARACTER"@);
            }
        },
    }
}

/// What a flag's step yields: the flag is seen exactly where it is set,
/// and the rest of the text stands after it.
pub open spec fn flag_step(
    t: Seq<char>,
    q: int,
    on: bool,
    lit: Seq<char>,
    kw: Seq<char>,
    rest: Seq<char>,
) -> bool {
    &&& sees_keyword(t, q, kw) == on
    &&& on ==> after_word(t, q) == q + lit.len()
    &&& ends_with(t, q + render_flag(on, lit).len(), rest)
}

/// Where the text ends with `ZEROFILL` and what follows it, the flag is read
/// back.
pub proof fn lemma_step_zerofill(t: Seq<char>, q: int, v: DataTypeView)
    requires
        is_canonical(v),
        ends_with(t, q, tail_zerofill(v)),
    ensures
        flag_step(t, q, v.zerofill, " ZEROFILL"@, "ZEROFILL"@, tail_charset(v)),
{
    lemma_heads(v);
    lemma_clause_keywords();
    reveal_strlit(" ZEROFILL");
    reveal_strlit("ZEROFILL");
    let part = render_flag(v.zerofill, " ZEROFILL"@);
    let tail = tail_charset(v);
    lemma_ends_split(t, q, part, tail);
    if v.zerofill {
        assert(" ZEROFILL"@ =~= seq![' '] + "ZEROFILL"@);
        lemma_tail_stops(t, q + part.len(), tail);
        lemma_flag_at(t, q, " ZEROFILL"@, "ZEROFILL"@);
    } else {
        if tail.len() == 0 {
            lemma_sees_nothing(t, q, "ZEROFILL"@);
        } else {
            assert(t[q + 0] == tail[0] && t[q + 1] == tail[1]);
            lemma_sees_other(t, q, "ZEROFILL"@);
        }
    }
}

/// Where the text ends with `UNSIGNED` and what follows it, the flag is read
/// back.
pub proof fn lemma_step_unsigned(t: Seq<char>, q: int, v: DataTypeView)
    requires
        is_canonical(v),
        ends_with(t, q, tail_unsigned(v)),
    ensures
        flag_step(t, q, v.unsigned, " UNSIGNED"@, "UNSIGNED"@, tail_zerofill(v)),
{
    lemma_heads(v);
    lemma_clause_keywords();
    reveal_strlit(" UNSIGNED");
    reveal_strlit("UNSIGNED");
    let part = render_flag(v.unsigned, " UNSIGNED"@);
    let tail = tail_zerofill(v);
    lemma_ends_split(t, q, part, tail);
    if v.unsigned {
        assert(" UNSIGNED"@ =~= seq![' '] + "UNSIGNED"@);
        lemma_tail_stops(t, q + part.len(), tail);
        lemma_flag_at(t, q, " UNSIGNED"@, "UNSIGNED"@);
    } else {
        if tail.len() == 0 {
            lemma_sees_nothing(t, q, "UNSIGNED"@);
        } else {
            assert(t[q + 0] == tail[0] && t[q + 1] == tail[1]);
            lemma_sees_other(t, q, "UNSIGNED"@);
        }
    }
}

/// Where the text ends with the size and what follows it, size and scale are
/// read back.
pub proof fn lemma_step_size(t: Seq<char>, q: int, v: DataTypeView)
    requires
        is_canonical(v),
        ends_with(t, q, tail_size(v)),
    ensures
        spec_parse_sizes(t, q, has_scale(v.kind)) == Ok::<
            ((Option<u32>, Option<u32>), int),
            ParseError,
        >(((v.size, v.scale), q + render_size(v.size, v.scale).len())),
        ends_with(t, q + render_size(v.size, v.scale).len(), tail_unsigned(v)),
{
    lemma_heads(v);
    let part = render_size(v.size, v.scale);
    let tail = tail_unsigned(v);
    lemma_ends_split(t, q, part, tail);
    match v.size {
        Some(m) => {
            lemma_size_at(t, q, m, v.scale, has_scale(v.kind));
        },
        None => {
            if tail.len() == 0 {
                lemma_sees_nothing(t, q, "UNSIGNED"@);
            } else {
                assert(t[q + 0] == tail[0] && t[q + 1] == tail[1]);
                lemma_one_space(t, q);
            }
        },
    }
}

/// Where the text ends with the values and what follows them, the values are
/// read back.
pub proof fn lemma_step_values(t: Seq<char>, q: int, v: DataTypeView)
    requires
        is_canonical(v),
        ends_with(t, q, tail_values(v)),
    ensures
        has_values(v.kind) ==> spec_parse_item_list(t, q, ItemKind::Text) == Ok::<
            (Seq<Seq<char>>, int),
            ParseError,
        >((v.values, q + render_values(v.kind, v.values).len())),
        ends_with(t, q + render_values(v.kind, v.values).len(), tail_size(v)),
{
    let part = render_values(v.kind, v.values);
    lemma_ends_split(t, q, part, tail_size(v));
    if has_values(v.kind) {
        lemma_values_at(t, q, v.kind, v.values);
    }
}

/// Where the parameters of a canonical record stand after the keyword as
/// the end of the text, they are read back as the record.
pub proof fn lemma_params(t: Seq<char>, q: int, v: DataTypeView)
    requires
        is_canonical(v),
        ends_with(t, q, tail_values(v)),
    ensures
        spec_parse_type_params(t, q, v.kind) == Ok::<(DataTypeView, int), ParseError>(
            (v, t.len() as int),
        ),
{
    let k = v.kind;
    lemma_step_values(t, q, v);
    let pos1 = q + render_values(k, v.values).len();
    lemma_step_size(t, pos1, v);
    let pos2 = pos1 + render_size(v.size, v.scale).len();
    lemma_step_unsigned(t, pos2, v);
    let pos3 = pos2 + render_flag(v.unsigned, " UNSIGNED"@).len();
    lemma_step_zerofill(t, pos3, v);
    let pos4 = pos3 + render_flag(v.zerofill, " ZEROFILL"@).len();
    lemma_step_charset(t, pos4, v);
    let pos5 = pos4 + render_charset(v.charset).len();
    lemma_step_collation(t, pos5, v);
    if !has_values(k) {
        assert(v.values =~= Seq::<Seq<char>>::empty());
        assert(pos1 == q);
    }
    if size_mode(k) == SizeMode::Absent {
        assert(pos2 == pos1);
    }
    if !has_charset(k) {
        assert(pos5 == pos4);
        assert(pos5 == t.len());
    }
}

/// The text of a data type is its keyword and what follows the keyword.
pub proof fn lemma_render_shape(v: DataTypeView)
    ensures
        render_data_type(v) == v.kind.spec_name() + tail_values(v),
{
    let a0 = v.kind.spec_name();
    let a1 = render_values(v.kind, v.values);
    let a2 = render_size(v.size, v.scale);
    let a3 = render_flag(v.unsigned, " UNSIGNED"@);
    let a4 = render_flag(v.zerofill, " ZEROFILL"@);
    let a5 = render_charset(v.charset);
    let a6 = render_collation(v.collation);
    let r5 = a5 + a6;
    let r4 = a4 + r5;
    let r3 = a3 + r4;
    let r2 = a2 + r3;
    lemma_append(a0 + a1 + a2 + a3 + a4, a5, a6);
    lemma_append(a0 + a1 + a2 + a3, a4, r5);
    lemma_append(a0 + a1 + a2, a3, r4);
    lemma_append(a0 + a1, a2, r3);
    lemma_append(a0, a1, r2);
}

/// What stands in a text of two parts.
pub proof fn lemma_two_parts(a: Seq<char>, b: Seq<char>)
    ensures
        text_at(a + b, 0, a),
        ends_with(a + b, a.len() as int, b),
{
    let t = a + b;
    assert forall|i: int| 0 <= i < a.len() implies t[0 + i] == #[trigger] a[i] by {}
    assert forall|i: int| 0 <= i < b.len() implies t[a.len() + i] == #[trigger] b[i] by {}
}

/// The text of a canonical record is read back as that record, and to the
/// end of the text.
pub proof fn lemma_data_type_round_trip(v: DataTypeView)
    requires
        is_canonical(v),
    ensures
        spec_parse_data_type(render_data_type(v), 0) == Ok::<(DataTypeView, int), ParseError>(
            (v, render_data_type(v).len() as int),
        ),
{
    let t = render_data_type(v);
    let name = v.kind.spec_name();
    let tail = tail_values(v);
    lemma_render_shape(v);
    lemma_two_parts(name, tail);
    lemma_heads(v);
    lemma_tail_stops(t, name.len() as int, tail);
    lemma_kind_at(t, v.kind);
    lemma_params(t, name.len() as int, v);
}

/// The record with the scale left out where there is no size: the text
/// of a data type holds a scale only after a size.
pub open spec fn without_lone_scale(v: DataTypeView) -> DataTypeView {
    if v.size is None {
        DataTypeView { scale: None, ..v }
    } else {
        v
    }
}

/// A scale without a size is not written.
pub proof fn lemma_lone_scale_is_silent(v: DataTypeView)
    ensures
        render_data_type(without_lone_scale(v)) == render_data_type(v),
{
}

/// Written, read and written again, a data type gives the text that it
/// gave the first time: the text is stable after one round trip. This
/// holds of every record that is canonical once a scale without a size is
/// left out.
pub proof fn lemma_text_is_stable(v: DataTypeView)
    requires
        is_canonical(without_lone_scale(v)),
    ensures
        spec_parse_data_type(render_data_type(v), 0) is Ok,
        render_data_type(spec_parse_data_type(render_data_type(v), 0)->Ok_0.0) == render_data_type(
            v,
        ),
{
    lemma_lone_scale_is_silent(v);
    lemma_data_type_round_trip(without_lone_scale(v));
}

/// Whether a data type holds only what its text can express: a list of
/// values is not empty and each value can stand between quotes as it is,
/// and the names of character set and collation are bare words.
pub open spec fn is_printable(d: DataType) -> bool {
    let v = d.deep_view();
    &&& has_values(v.kind) ==> v.values.len() > 0 && all_plain(v.values)
    &&& v.charset is Some ==> is_bare_word(v.charset->0)
    &&& v.collation is Some ==> is_bare_word(v.collation->0)
}

/// The record of a printable data type is canonical, once a scale without
/// a size is left out: the variants see to it that no parameter stands
/// where the keyword takes none.
pub proof fn lemma_printable_is_canonical(d: DataType)
    requires
        is_printable(d),
    ensures
        is_canonical(without_lone_scale(d.deep_view())),
        (d.deep_view().scale is Some ==> d.deep_view().size is Some) ==> is_canonical(
            d.deep_view(),
        ),
{
}

/// The text of a printable data type is read back as a data type with the
/// same text; where no scale stands without a size, it is read back as
/// the same record.
pub proof fn lemma_printable_round_trip(d: DataType)
    requires
        is_printable(d),
    ensures
        spec_parse_data_type(render_data_type(d.deep_view()), 0) is Ok,
        render_data_type(
            spec_parse_data_type(render_data_type(d.deep_view()), 0)->Ok_0.0,
        ) == render_data_type(d.deep_view()),
        (d.deep_view().scale is Some ==> d.deep_view().size is Some) ==> spec_parse_data_type(
            render_data_type(d.deep_view()),
            0,
        )->Ok_0.0 == d.deep_view(),
{
    lemma_printable_is_canonical(d);
    lemma_text_is_stable(d.deep_view());
    if d.deep_view().scale is Some ==> d.deep_view().size is Some {
        assert(without_lone_scale(d.deep_view()) == d.deep_view());
        lemma_data_type_round_trip(d.deep_view());
    }
}

} // verus!
