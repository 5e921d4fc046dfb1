use vstd::prelude::*;
use vstd::string::*;
use crate::error::ParseError;
use crate::text::string_of;

verus! {

/// The character classes that the scanner tells apart.
#[derive(Debug, Clone, Copy, PartialEq, Eq, Structural)]
pub enum CharClass {
    /// Blank, tab, line feed, carriage return.
    Space,
    /// `0` to `9`.
    Digit,
    /// ASCII letters, digits and the underscore.
    Word,
    /// Anything but a backtick.
    Quoted,
    /// Anything but a line feed.
    Line,
    /// The characters of a comparison operator: `=`, `<`, `>`, `!`.
    Operator,
}

/// Whether `c` is white space: a blank, a tab, a line feed or a carriage
/// return.
pub open spec fn is_space(c: char) -> bool {
    c == ' ' || c == '\t' || c == '\n' || c == '\r'
}

/// Whether `c` is a decimal digit.
pub open spec fn is_digit(c: char) -> bool {
    '0' <= c && c <= '9'
}

/// Whether `c` is an ASCII letter, a digit or the underscore.
pub open spec fn is_word_char(c: char) -> bool {
    ('a' <= c && c <= 'z') || ('A' <= c && c <= 'Z') || is_digit(c) || c == '_'
}

/// Whether `c` belongs to class `k`.
pub open spec fn in_class(k: CharClass, c: char) -> bool {
    match k {
        CharClass::Space => is_space(c),
        CharClass::Digit => is_digit(c),
        CharClass::Word => is_word_char(c),
        CharClass::Quoted => c != '`',
        CharClass::Line => c != '\n',
        CharClass::Operator => c == '=' || c == '<' || c == '>' || c == '!',
    }
}

/// Whether `c` belongs to class `k`.
pub fn class_has(k: CharClass, c: char) -> (b: bool)
    ensures
        b == in_class(k, c),
{
    match k {
        CharClass::Space => c == ' ' || c == '\t' || c == '\n' || c == '\r',
        CharClass::Digit => '0' <= c && c <= '9',
        CharClass::Word => ('a' <= c && c <= 'z') || ('A' <= c && c <= 'Z') || ('0' <= c && c
            <= '9') || c == '_',
        CharClass::Quoted => c != '`',
        CharClass::Line => c != '\n',
        CharClass::Operator => c == '=' || c == '<' || c == '>' || c == '!',
    }
}

/// End of the longest run of characters of class `k` that starts at `pos`.
pub open spec fn run_end(s: Seq<char>, pos: int, k: CharClass) -> int
    decreases s.len() - pos,
{
    if 0 <= pos < s.len() && in_class(k, s[pos]) {
        run_end(s, pos + 1, k)
    } else {
        pos
    }
}

/// Every character of a run is of its class, and the one after it is not.
pub proof fn lemma_run_end_content(s: Seq<char>, pos: int, k: CharClass)
    requires
        0 <= pos <= s.len(),
    ensures
        forall|i: int| pos <= i < run_end(s, pos, k) ==> in_class(k, #[trigger] s[i]),
        run_end(s, pos, k) < s.len() ==> !in_class(k, s[run_end(s, pos, k)]),
    decreases s.len() - pos,
{
    if pos < s.len() && in_class(k, s[pos]) {
        lemma_run_end_content(s, pos + 1, k);
    }
}

/// End of the longest run of characters of class `k` that starts at `pos`.
pub fn scan_run(s: &Vec<char>, pos: usize, k: CharClass) -> (end: usize)
    requires
        pos <= s@.len(),
    ensures
        end == run_end(s@, pos as int, k),
        pos <= end <= s@.len(),
{
    let mut i: usize = pos;
    while i < s.len() && class_has(k, s[i])
        invariant
            pos <= i <= s@.len(),
            run_end(s@, i as int, k) == run_end(s@, pos as int, k),
        decreases s@.len() - i,
    {
        i += 1;
    }
    i
}

/// Position after the white space that starts at `pos`.
pub open spec fn skip_ws(s: Seq<char>, pos: int) -> int {
    run_end(s, pos, CharClass::Space)
}

/// ASCII upper case of `c`.
pub open spec fn upper(c: char) -> char {
    if 'a' <= c && c <= 'z' {
        ((c as u8 - 32) as u8) as char
    } else {
        c
    }
}

/// ASCII upper case of `c`.
pub fn to_upper(c: char) -> (u: char)
    ensures
        u == upper(c),
{
    if 'a' <= c && c <= 'z' {
        let b: u8 = c as u8;
        (b - 32) as char
    } else {
        c
    }
}

/// Whether the characters of `s` from `pos + i` on are, letter case aside,
/// those of `kw` from `i` on.
pub open spec fn matches_from(s: Seq<char>, pos: int, kw: Seq<char>, i: int) -> bool
    decreases kw.len() - i,
{
    if i < 0 || i >= kw.len() {
        true
    } else {
        0 <= pos + i < s.len() && upper(s[pos + i]) == kw[i] && matches_from(s, pos, kw, i + 1)
    }
}

/// Whether the word that starts at `pos` is `kw`, letter case aside. The
/// word is the whole run of word characters there, so `DATE` is not found at
/// the start of `DATETIME`.
pub open spec fn at_keyword(s: Seq<char>, pos: int, kw: Seq<char>) -> bool {
    &&& kw.len() > 0
    &&& run_end(s, pos, CharClass::Word) - pos == kw.len()
    &&& matches_from(s, pos, kw, 0)
}

/// Whether the word that starts at `pos` is `kw`, letter case aside.
pub fn is_keyword(s: &Vec<char>, pos: usize, kw: &str) -> (b: bool)
    requires
        pos <= s@.len(),
    ensures
        b == at_keyword(s@, pos as int, kw@),
{
    let end: usize = scan_run(s, pos, CharClass::Word);
    let n: usize = kw.unicode_len();
    if n == 0 || end - pos != n {
        return false;
    }
    let mut i: usize = 0;
    while i < n
        invariant
            pos <= end <= s@.len(),
            end - pos == n,
            n == kw@.len(),
            i <= n,
            matches_from(s@, pos as int, kw@, i as int) == matches_from(s@, pos as int, kw@, 0),
        decreases n - i,
    {
        if to_upper(s[pos + i]) != kw.get_char(i) {
            return false;
        }
        i += 1;
    }
    true
}

/// Whether the character at `pos` is `c`.
pub open spec fn at_char(s: Seq<char>, pos: int, c: char) -> bool {
    0 <= pos < s.len() && s[pos] == c
}

/// Whether the character at `pos` is `c`.
pub fn is_char(s: &Vec<char>, pos: usize, c: char) -> (b: bool)
    ensures
        b == at_char(s@, pos as int, c),
        b ==> pos < usize::MAX,
{
    pos < s.len() && s[pos] == c
}

/// Value of a sequence of decimal digits.
pub open spec fn digits_value(d: Seq<char>) -> nat
    decreases d.len(),
{
    if d.len() == 0 {
        0
    } else {
        digits_value(d.drop_last()) * 10 + (d.last() as nat - '0' as nat) as nat
    }
}

/// An unsigned decimal number at `pos`: a grammar error where no digit
/// stands, a conversion error where the digits exceed 32 bits.
pub open spec fn spec_parse_u32(s: Seq<char>, pos: int) -> Result<(u32, int), ParseError> {
    let e: int = run_end(s, pos, CharClass::Digit);
    if e == pos {
        Err(ParseError::Grammar { position: pos as usize })
    } else if digits_value(s.subrange(pos, e)) > u32::MAX {
        Err(ParseError::Conversion { position: pos as usize })
    } else {
        Ok((digits_value(s.subrange(pos, e)) as u32, e))
    }
}

/// Reads at `pos` what `spec_parse_u32` describes.
pub fn parse_u32(s: &Vec<char>, pos: usize) -> (r: Result<(u32, usize), ParseError>)
    requires
        pos <= s@.len(),
    ensures
        agrees(r, spec_parse_u32(s@, pos as int), pos, s@.len()),
{
    let end: usize = scan_run(s, pos, CharClass::Digit);
    if end == pos {
        return Err(ParseError::Grammar { position: pos });
    }
    proof {
        lemma_run_end_content(s@, pos as int, CharClass::Digit);
    }
    let mut acc: u64 = 0;
    let mut over: bool = false;
    let mut i: usize = pos;
    while i < end
        invariant
            pos <= i <= end <= s@.len(),
            forall|j: int| pos <= j < end ==> is_digit(#[trigger] s@[j]),
            !over ==> acc == digits_value(s@.subrange(pos as int, i as int)) && acc <= u32::MAX,
            over ==> digits_value(s@.subrange(pos as int, i as int)) > u32::MAX,
        decreases end - i,
    {
        let c: char = s[i];
        assert(is_digit(s@[i as int]));
        let d: u64 = (c as u32 - '0' as u32) as u64;
        proof {
            let next = s@.subrange(pos as int, i + 1);
            assert(next.drop_last() =~= s@.subrange(pos as int, i as int));
            assert(next.last() == c);
        }
        if !over {
            acc = acc * 10 + d;
            if acc > u32::MAX as u64 {
                over = true;
            }
        }
        i += 1;
    }
    if over {
        Err(ParseError::Conversion { position: pos })
    } else {
        Ok((acc as u32, end))
    }
}

/// An unsigned decimal number at `pos` that fits the machine word: a
/// grammar error where no digit stands, a conversion error where the digits
/// exceed the word.
pub open spec fn spec_parse_usize(s: Seq<char>, pos: int) -> Result<(usize, int), ParseError> {
    let e: int = run_end(s, pos, CharClass::Digit);
    if e == pos {
        Err(ParseError::Grammar { position: pos as usize })
    } else if digits_value(s.subrange(pos, e)) > usize::MAX {
        Err(ParseError::Conversion { position: pos as usize })
    } else {
        Ok((digits_value(s.subrange(pos, e)) as usize, e))
    }
}

/// Reads at `pos` what `spec_parse_usize` describes.
pub fn parse_usize(s: &Vec<char>, pos: usize) -> (r: Result<(usize, usize), ParseError>)
    requires
        pos <= s@.len(),
    ensures
        agrees(r, spec_parse_usize(s@, pos as int), pos, s@.len()),
{
    let end: usize = scan_run(s, pos, CharClass::Digit);
    if end == pos {
        return Err(ParseError::Grammar { position: pos });
    }
    proof {
        lemma_run_end_content(s@, pos as int, CharClass::Digit);
    }
    let mut acc: u128 = 0;
    let mut over: bool = false;
    let mut i: usize = pos;
    while i < end
        invariant
            pos <= i <= end <= s@.len(),
            forall|j: int| pos <= j < end ==> is_digit(#[trigger] s@[j]),
            !over ==> acc == digits_value(s@.subrange(pos as int, i as int)) && acc <= usize::MAX,
            over ==> digits_value(s@.subrange(pos as int, i as int)) > usize::MAX,
        decreases end - i,
    {
        let c: char = s[i];
        assert(is_digit(s@[i as int]));
        let d: u128 = (c as u32 - '0' as u32) as u128;
        proof {
            let next = s@.subrange(pos as int, i + 1);
            assert(next.drop_last() =~= s@.subrange(pos as int, i as int));
            assert(next.last() == c);
        }
        if !over {
            acc = acc * 10 + d;
            if acc > usize::MAX as u128 {
                over = true;
            }
        }
        i += 1;
    }
    if over {
        Err(ParseError::Conversion { position: pos })
    } else {
        Ok((acc as usize, end))
    }
}

/// A name at `pos`, kept as it was written, backticks included.
pub open spec fn spec_parse_raw_name(s: Seq<char>, pos: int) -> Result<
    (Seq<char>, int),
    ParseError,
> {
    match spec_parse_name(s, pos) {
        Err(e) => Err(e),
        Ok((_, end)) => Ok((s.subrange(pos, end), end)),
    }
}

/// Reads at `pos` what `spec_parse_raw_name` describes.
pub fn parse_raw_name(s: &Vec<char>, pos: usize) -> (r: Result<(String, usize), ParseError>)
    requires
        pos <= s@.len(),
    ensures
        agrees(r, spec_parse_raw_name(s@, pos as int), pos, s@.len()),
{
    match parse_name(s, pos) {
        Err(e) => Err(e),
        Ok((_, end)) => Ok((string_of(s, pos, end), end)),
    }
}

/// A value at `pos`, kept as it was written: a string literal with its
/// quotes, a numeric literal, or a bare word.
pub open spec fn spec_parse_raw_value(s: Seq<char>, pos: int) -> Result<
    (Seq<char>, int),
    ParseError,
> {
    if at_char(s, pos, '\'') {
        match spec_parse_string(s, pos) {
            Err(e) => Err(e),
            Ok((_, end)) => Ok((s.subrange(pos, end), end)),
        }
    } else if number_end(s, pos) != pos {
        spec_parse_number(s, pos)
    } else {
        spec_parse_word(s, pos)
    }
}

/// Reads at `pos` what `spec_parse_raw_value` describes.
pub fn parse_raw_value(s: &Vec<char>, pos: usize) -> (r: Result<(String, usize), ParseError>)
    requires
        pos <= s@.len(),
    ensures
        agrees(r, spec_parse_raw_value(s@, pos as int), pos, s@.len()),
{
    if is_char(s, pos, '\'') {
        match parse_string(s, pos) {
            Err(e) => Err(e),
            Ok((_, end)) => Ok((string_of(s, pos, end), end)),
        }
    } else if scan_number(s, pos) != pos {
        parse_number(s, pos)
    } else {
        parse_word(s, pos)
    }
}

/// A name between backticks at `pos`; the value is the text between them.
pub open spec fn spec_parse_quoted(s: Seq<char>, pos: int) -> Result<(Seq<char>, int), ParseError> {
    if !at_char(s, pos, '`') {
        Err(ParseError::Grammar { position: pos as usize })
    } else {
        let e: int = run_end(s, pos + 1, CharClass::Quoted);
        if at_char(s, e, '`') {
            Ok((s.subrange(pos + 1, e), e + 1))
        } else {
            Err(ParseError::Grammar { position: e as usize })
        }
    }
}

/// Reads at `pos` what `spec_parse_quoted` describes.
pub fn parse_quoted(s: &Vec<char>, pos: usize) -> (r: Result<(String, usize), ParseError>)
    requires
        pos <= s@.len(),
    ensures
        agrees(r, spec_parse_quoted(s@, pos as int), pos, s@.len()),
{
    if !is_char(s, pos, '`') {
        return Err(ParseError::Grammar { position: pos });
    }
    let end: usize = scan_run(s, pos + 1, CharClass::Quoted);
    if is_char(s, end, '`') {
        Ok((string_of(s, pos + 1, end), end + 1))
    } else {
        Err(ParseError::Grammar { position: end })
    }
}

/// A bare word at `pos`: a non-empty run of word characters.
pub open spec fn spec_parse_word(s: Seq<char>, pos: int) -> Result<(Seq<char>, int), ParseError> {
    let e: int = run_end(s, pos, CharClass::Word);
    if e == pos {
        Err(ParseError::Grammar { position: pos as usize })
    } else {
        Ok((s.subrange(pos, e), e))
    }
}

/// Reads at `pos` what `spec_parse_word` describes.
pub fn parse_word(s: &Vec<char>, pos: usize) -> (r: Result<(String, usize), ParseError>)
    requires
        pos <= s@.len(),
    ensures
        agrees(r, spec_parse_word(s@, pos as int), pos, s@.len()),
{
    let end: usize = scan_run(s, pos, CharClass::Word);
    if end == pos {
        Err(ParseError::Grammar { position: pos })
    } else {
        Ok((string_of(s, pos, end), end))
    }
}

/// A name at `pos`, between backticks or bare. The backticks are not part
/// of the value.
pub open spec fn spec_parse_name(s: Seq<char>, pos: int) -> Result<(Seq<char>, int), ParseError> {
    if at_char(s, pos, '`') {
        spec_parse_quoted(s, pos)
    } else {
        spec_parse_word(s, pos)
    }
}

/// Reads at `pos` what `spec_parse_name` describes.
pub fn parse_name(s: &Vec<char>, pos: usize) -> (r: Result<(String, usize), ParseError>)
    requires
        pos <= s@.len(),
    ensures
        agrees(r, spec_parse_name(s@, pos as int), pos, s@.len()),
{
    if is_char(s, pos, '`') {
        parse_quoted(s, pos)
    } else {
        parse_word(s, pos)
    }
}

/// End of the body of a string literal whose first body character stands at
/// `pos`: the first single quote that no backslash precedes, or the end of
/// the text.
pub open spec fn literal_end(s: Seq<char>, pos: int) -> int
    decreases s.len() - pos,
{
    if pos < 0 || pos >= s.len() {
        pos
    } else if s[pos] == '\'' {
        pos
    } else if s[pos] == '\\' && pos + 1 < s.len() {
        literal_end(s, pos + 2)
    } else {
        literal_end(s, pos + 1)
    }
}

/// End of the body of a string literal whose first body character stands at
/// `pos`.
pub fn scan_literal(s: &Vec<char>, pos: usize) -> (end: usize)
    requires
        pos <= s@.len(),
    ensures
        end == literal_end(s@, pos as int),
        pos <= end <= s@.len(),
{
    let mut i: usize = pos;
    while i < s.len() && s[i] != '\''
        invariant
            pos <= i <= s@.len(),
            literal_end(s@, i as int) == literal_end(s@, pos as int),
        decreases s@.len() - i,
    {
        if s[i] == '\\' && i + 1 < s.len() {
            i += 2;
        } else {
            i += 1;
        }
    }
    i
}

/// A string literal between single quotes at `pos`; the value is the text
/// between them, escapes untouched.
pub open spec fn spec_parse_string(s: Seq<char>, pos: int) -> Result<(Seq<char>, int), ParseError> {
    if !at_char(s, pos, '\'') {
        Err(ParseError::Grammar { position: pos as usize })
    } else {
        let e: int = literal_end(s, pos + 1);
        if at_char(s, e, '\'') {
            Ok((s.subrange(pos + 1, e), e + 1))
        } else {
            Err(ParseError::Grammar { position: e as usize })
        }
    }
}

/// Reads at `pos` what `spec_parse_string` describes.
pub fn parse_string(s: &Vec<char>, pos: usize) -> (r: Result<(String, usize), ParseError>)
    requires
        pos <= s@.len(),
    ensures
        agrees(r, spec_parse_string(s@, pos as int), pos, s@.len()),
{
    if !is_char(s, pos, '\'') {
        return Err(ParseError::Grammar { position: pos });
    }
    let end: usize = scan_literal(s, pos + 1);
    if is_char(s, end, '\'') {
        Ok((string_of(s, pos + 1, end), end + 1))
    } else {
        Err(ParseError::Grammar { position: end })
    }
}

/// End of the numeric literal at `pos`: an optional minus sign, digits, and
/// an optional fraction. Equal to `pos` where no number stands.
pub open spec fn number_end(s: Seq<char>, pos: int) -> int {
    let start: int = if at_char(s, pos, '-') {
        pos + 1
    } else {
        pos
    };
    let whole: int = run_end(s, start, CharClass::Digit);
    if whole == start {
        pos
    } else if at_char(s, whole, '.') && run_end(s, whole + 1, CharClass::Digit) > whole + 1 {
        run_end(s, whole + 1, CharClass::Digit)
    } else {
        whole
    }
}

/// End of the numeric literal at `pos`; `pos` itself where no number stands.
pub fn scan_number(s: &Vec<char>, pos: usize) -> (end: usize)
    requires
        pos <= s@.len(),
    ensures
        end == number_end(s@, pos as int),
        pos <= end <= s@.len(),
{
    let start: usize = if is_char(s, pos, '-') {
        pos + 1
    } else {
        pos
    };
    let whole: usize = scan_run(s, start, CharClass::Digit);
    if whole == start {
        return pos;
    }
    if is_char(s, whole, '.') {
        let frac: usize = scan_run(s, whole + 1, CharClass::Digit);
        if frac > whole + 1 {
            return frac;
        }
    }
    whole
}

/// A numeric literal at `pos`, kept as its text.
pub open spec fn spec_parse_number(s: Seq<char>, pos: int) -> Result<(Seq<char>, int), ParseError> {
    if number_end(s, pos) == pos {
        Err(ParseError::Grammar { position: pos as usize })
    } else {
        Ok((s.subrange(pos, number_end(s, pos)), number_end(s, pos)))
    }
}

/// Reads at `pos` what `spec_parse_number` describes.
pub fn parse_number(s: &Vec<char>, pos: usize) -> (r: Result<(String, usize), ParseError>)
    requires
        pos <= s@.len(),
    ensures
        agrees(r, spec_parse_number(s@, pos as int), pos, s@.len()),
{
    let end: usize = scan_number(s, pos);
    if end == pos {
        Err(ParseError::Grammar { position: pos })
    } else {
        Ok((string_of(s, pos, end), end))
    }
}

/// White space is skipped, then the character `c` is required.
pub open spec fn spec_expect_char(s: Seq<char>, pos: int, c: char) -> Result<int, ParseError> {
    let p: int = skip_ws(s, pos);
    if at_char(s, p, c) {
        Ok(p + 1)
    } else {
        Err(ParseError::Grammar { position: p as usize })
    }
}

/// How a position that an executable scanner returns stands to the
/// grammar's.
pub open spec fn agrees_pos(
    r: Result<usize, ParseError>,
    e: Result<int, ParseError>,
    from: usize,
    len: nat,
) -> bool {
    match (r, e) {
        (Ok(p), Ok(ep)) => p as int == ep && from <= p <= len,
        (Err(a), Err(b)) => a == b,
        _ => false,
    }
}

/// Skips white space, then requires the character `c`.
pub fn expect_char(s: &Vec<char>, pos: usize, c: char) -> (r: Result<usize, ParseError>)
    requires
        pos <= s@.len(),
    ensures
        agrees_pos(r, spec_expect_char(s@, pos as int, c), pos, s@.len()),
{
    let p: usize = scan_run(s, pos, CharClass::Space);
    if is_char(s, p, c) {
        Ok(p + 1)
    } else {
        Err(ParseError::Grammar { position: p })
    }
}

/// Whether, after white space, the keyword `kw` stands at `pos`.
pub open spec fn sees_keyword(s: Seq<char>, pos: int, kw: Seq<char>) -> bool {
    at_keyword(s, skip_ws(s, pos), kw)
}

/// Position after the word that follows the white space at `pos`.
pub open spec fn after_word(s: Seq<char>, pos: int) -> int {
    run_end(s, skip_ws(s, pos), CharClass::Word)
}

/// The position after the keyword `kw` where it stands at `pos`, white space
/// aside; `None` where it does not.
pub fn accept_keyword(s: &Vec<char>, pos: usize, kw: &str) -> (r: Option<usize>)
    requires
        pos <= s@.len(),
    ensures
        r is Some == sees_keyword(s@, pos as int, kw@),
        r matches Some(p) ==> p == after_word(s@, pos as int) && pos < p <= s@.len(),
{
    let p: usize = scan_run(s, pos, CharClass::Space);
    if is_keyword(s, p, kw) {
        Some(scan_run(s, p, CharClass::Word))
    } else {
        None
    }
}

/// White space is skipped, then the keyword `kw` is required.
pub open spec fn spec_expect_keyword(s: Seq<char>, pos: int, kw: Seq<char>) -> Result<int, ParseError> {
    if sees_keyword(s, pos, kw) {
        Ok(after_word(s, pos))
    } else {
        Err(ParseError::Grammar { position: skip_ws(s, pos) as usize })
    }
}

/// Skips white space, then requires the keyword `kw`.
pub fn expect_keyword(s: &Vec<char>, pos: usize, kw: &str) -> (r: Result<usize, ParseError>)
    requires
        pos <= s@.len(),
    ensures
        agrees_pos(r, spec_expect_keyword(s@, pos as int, kw@), pos, s@.len()),
{
    match accept_keyword(s, pos, kw) {
        Some(p) => Ok(p),
        None => Err(ParseError::Grammar { position: scan_run(s, pos, CharClass::Space) }),
    }
}

/// An optional size between parentheses: `(n)`. Where no opening
/// parenthesis follows, nothing is consumed.
pub open spec fn spec_parse_opt_size(s: Seq<char>, pos: int) -> Result<(Option<u32>, int), ParseError> {
    let p: int = skip_ws(s, pos);
    if !at_char(s, p, '(') {
        Ok((None, pos))
    } else {
        match spec_parse_u32(s, skip_ws(s, p + 1)) {
            Err(e) => Err(e),
            Ok((n, q)) => match spec_expect_char(s, q, ')') {
                Err(e) => Err(e),
                Ok(end) => Ok((Some(n), end)),
            },
        }
    }
}

/// Reads at `pos` what `spec_parse_opt_size` describes.
pub fn parse_opt_size(s: &Vec<char>, pos: usize) -> (r: Result<(Option<u32>, usize), ParseError>)
    requires
        pos <= s@.len(),
    ensures
        agrees(r, spec_parse_opt_size(s@, pos as int), pos, s@.len()),
{
    let p: usize = scan_run(s, pos, CharClass::Space);
    if !is_char(s, p, '(') {
        return Ok((None, pos));
    }
    let q: usize = scan_run(s, p + 1, CharClass::Space);
    match parse_u32(s, q) {
        Err(e) => Err(e),
        Ok((n, after)) => match expect_char(s, after, ')') {
            Err(e) => Err(e),
            Ok(end) => Ok((Some(n), end)),
        },
    }
}

/// How an executable parser's result stands to the result that the grammar
/// gives: the same error, or a value with the grammar's view and the
/// grammar's end position, which lies between the start `from` and the end
/// of the text.
pub open spec fn agrees<T: DeepView>(
    r: Result<(T, usize), ParseError>,
    e: Result<(T::V, int), ParseError>,
    from: usize,
    len: nat,
) -> bool {
    match (r, e) {
        (Ok((v, p)), Ok((ev, ep))) => v.deep_view() == ev && p as int == ep && from <= p <= len,
        (Err(a), Err(b)) => a == b,
        _ => false,
    }
}

/// Position after an optional equals sign, white space before it included.
/// Where none stands, nothing is consumed.
pub open spec fn skip_equals(s: Seq<char>, pos: int) -> int {
    if at_char(s, skip_ws(s, pos), '=') {
        skip_ws(s, pos) + 1
    } else {
        pos
    }
}

/// Position after an optional equals sign, white space before it included.
pub fn scan_equals(s: &Vec<char>, pos: usize) -> (end: usize)
    requires
        pos <= s@.len(),
    ensures
        end == skip_equals(s@, pos as int),
        pos <= end <= s@.len(),
{
    let p: usize = scan_run(s, pos, CharClass::Space);
    if is_char(s, p, '=') {
        p + 1
    } else {
        pos
    }
}

/// What the items of a list are.
#[derive(Debug, Clone, Copy, PartialEq, Eq, Structural)]
pub enum ItemKind {
    /// Names, between backticks or bare.
    Name,
    /// String literals between single quotes.
    Text,
}

/// One item of kind `kind` at `pos`.
pub open spec fn spec_parse_item(s: Seq<char>, pos: int, kind: ItemKind) -> Result<
    (Seq<char>, int),
    ParseError,
> {
    match kind {
        ItemKind::Name => spec_parse_name(s, pos),
        ItemKind::Text => spec_parse_string(s, pos),
    }
}

/// Reads at `pos` what `spec_parse_item` describes.
pub fn parse_item(s: &Vec<char>, pos: usize, kind: ItemKind) -> (r: Result<
    (String, usize),
    ParseError,
>)
    requires
        pos <= s@.len(),
    ensures
        agrees(r, spec_parse_item(s@, pos as int, kind), pos, s@.len()),
{
    match kind {
        ItemKind::Name => parse_name(s, pos),
        ItemKind::Text => parse_string(s, pos),
    }
}

/// Items separated by commas, the first of them at `pos`, added to `acc` in
/// their order. White space may stand before an item and before a comma.
pub open spec fn spec_parse_items_from(
    s: Seq<char>,
    pos: int,
    kind: ItemKind,
    acc: Seq<Seq<char>>,
) -> Result<(Seq<Seq<char>>, int), ParseError>
    decreases s.len() - pos,
{
    match spec_parse_item(s, skip_ws(s, pos), kind) {
        Err(e) => Err(e),
        Ok((v, p)) => {
            let q: int = skip_ws(s, p);
            if at_char(s, q, ',') && q >= pos {
                spec_parse_items_from(s, q + 1, kind, acc.push(v))
            } else {
                Ok((acc.push(v), p))
            }
        },
    }
}

/// One or more items separated by commas.
pub open spec fn spec_parse_items(s: Seq<char>, pos: int, kind: ItemKind) -> Result<
    (Seq<Seq<char>>, int),
    ParseError,
> {
    spec_parse_items_from(s, pos, kind, Seq::empty())
}

/// Reads at `pos` what `spec_parse_items` describes.
pub fn parse_items(s: &Vec<char>, pos: usize, kind: ItemKind) -> (r: Result<
    (Vec<String>, usize),
    ParseError,
>)
    requires
        pos <= s@.len(),
    ensures
        agrees(r, spec_parse_items(s@, pos as int, kind), pos, s@.len()),
{
    let mut acc: Vec<String> = Vec::new();
    let mut cur: usize = pos;
    assert(acc.deep_view() =~= Seq::<Seq<char>>::empty());
    loop
        invariant
            pos <= cur <= s@.len(),
            spec_parse_items_from(s@, cur as int, kind, acc.deep_view()) == spec_parse_items(
                s@,
                pos as int,
                kind,
            ),
        decreases s@.len() - cur,
    {
        let start: usize = scan_run(s, cur, CharClass::Space);
        match parse_item(s, start, kind) {
            Err(e) => {
                return Err(e);
            },
            Ok((v, p)) => {
                proof {
                    lemma_push_view::<String>(acc@, acc@.push(v), v);
                }
                acc.push(v);
                let q: usize = scan_run(s, p, CharClass::Space);
                if is_char(s, q, ',') {
                    cur = q + 1;
                } else {
                    return Ok((acc, p));
                }
            },
        }
    }
}

/// One or more items separated by commas, between parentheses.
pub open spec fn spec_parse_item_list(s: Seq<char>, pos: int, kind: ItemKind) -> Result<
    (Seq<Seq<char>>, int),
    ParseError,
> {
    match spec_expect_char(s, pos, '(') {
        Err(e) => Err(e),
        Ok(p) => match spec_parse_items(s, p, kind) {
            Err(e) => Err(e),
            Ok((items, q)) => match spec_expect_char(s, q, ')') {
                Err(e) => Err(e),
                Ok(end) => Ok((items, end)),
            },
        },
    }
}

/// Reads at `pos` what `spec_parse_item_list` describes.
pub fn parse_item_list(s: &Vec<char>, pos: usize, kind: ItemKind) -> (r: Result<
    (Vec<String>, usize),
    ParseError,
>)
    requires
        pos <= s@.len(),
    ensures
        agrees(r, spec_parse_item_list(s@, pos as int, kind), pos, s@.len()),
{
    match expect_char(s, pos, '(') {
        Err(e) => Err(e),
        Ok(p) => match parse_items(s, p, kind) {
            Err(e) => Err(e),
            Ok((items, q)) => match expect_char(s, q, ')') {
                Err(e) => Err(e),
                Ok(end) => Ok((items, end)),
            },
        },
    }
}

/// How the result of parsing a whole construct stands to the grammar's: the
/// same error, or a value with the grammar's view. The end position is
/// dropped: what follows the construct is not looked at.
pub open spec fn parsed<T: DeepView>(
    r: Result<T, ParseError>,
    e: Result<(T::V, int), ParseError>,
) -> bool {
    match (r, e) {
        (Ok(v), Ok((ev, _))) => v.deep_view() == ev,
        (Err(a), Err(b)) => a == b,
        _ => false,
    }
}

/// Drops the end position of a parser's result.
pub fn finish<T: DeepView>(r: Result<(T, usize), ParseError>) -> (out: Result<T, ParseError>)
    ensures
        forall|e: Result<(T::V, int), ParseError>, from: usize, len: nat|
            agrees(r, e, from, len) ==> parsed(out, e),
{
    match r {
        Ok((v, _)) => Ok(v),
        Err(e) => Err(e),
    }
}

/// The view of a vector grows with the vector.
pub proof fn lemma_push_view<T: DeepView>(before: Seq<T>, after: Seq<T>, v: T)
    requires
        after == before.push(v),
    ensures
        Seq::new(after.len(), |i: int| after[i].deep_view()) == Seq::new(
            before.len(),
            |i: int| before[i].deep_view(),
        ).push(v.deep_view()),
{
    assert(Seq::new(after.len(), |i: int| after[i].deep_view()) =~= Seq::new(
        before.len(),
        |i: int| before[i].deep_view(),
    ).push(v.deep_view()));
}

/// The view of a concatenation is the concatenation of the views.
pub proof fn lemma_concat_view<T: DeepView>(a: Seq<T>, b: Seq<T>)
    ensures
        Seq::new((a + b).len(), |i: int| (a + b)[i].deep_view()) == Seq::new(
            a.len(),
            |i: int| a[i].deep_view(),
        ) + Seq::new(b.len(), |i: int| b[i].deep_view()),
{
    assert(Seq::new((a + b).len(), |i: int| (a + b)[i].deep_view()) =~= Seq::new(
        a.len(),
        |i: int| a[i].deep_view(),
    ) + Seq::new(b.len(), |i: int| b[i].deep_view()));
}

/// The view of a vector without one element is the view without it.
pub proof fn lemma_remove_view<T: DeepView>(before: Seq<T>, i: int)
    requires
        0 <= i < before.len(),
    ensures
        Seq::new(before.remove(i).len(), |k: int| before.remove(i)[k].deep_view()) == Seq::new(
            before.len(),
            |k: int| before[k].deep_view(),
        ).remove(i),
{
    assert(Seq::new(before.remove(i).len(), |k: int| before.remove(i)[k].deep_view())
        =~= Seq::new(before.len(), |k: int| before[k].deep_view()).remove(i));
}

/// The view of a vector with one element replaced is the view with that
/// element's view in its place.
pub proof fn lemma_update_view<T: DeepView>(before: Seq<T>, i: int, v: T)
    requires
        0 <= i < before.len(),
    ensures
        Seq::new(before.update(i, v).len(), |k: int| before.update(i, v)[k].deep_view())
            == Seq::new(before.len(), |k: int| before[k].deep_view()).update(i, v.deep_view()),
{
    assert(Seq::new(before.update(i, v).len(), |k: int| before.update(i, v)[k].deep_view())
        =~= Seq::new(before.len(), |k: int| before[k].deep_view()).update(i, v.deep_view()));
}

/// How the outcome of an executable parser for an optional construct stands
/// to the grammar's: the same error, nothing found on both sides, or a value
/// with the grammar's view and end position, which lies after the start
/// `from` and inside the text.
pub open spec fn agrees_opt<T: DeepView>(
    r: Result<Option<(T, usize)>, ParseError>,
    e: Result<Option<(T::V, int)>, ParseError>,
    from: usize,
    len: nat,
) -> bool {
    match (r, e) {
        (Ok(Some((v, p))), Ok(Some((ev, ep)))) => v.deep_view() == ev && p as int == ep && from
            < p <= len,
        (Ok(None), Ok(None)) => true,
        (Err(a), Err(b)) => a == b,
        _ => false,
    }
}

/// The value of an option: an optional equals sign, then a bare word.
pub open spec fn spec_value_word(s: Seq<char>, pos: int) -> Result<(Seq<char>, int), ParseError> {
    spec_parse_word(s, skip_ws(s, skip_equals(s, pos)))
}

/// The value of an option: an optional equals sign, then a bare word.
pub fn value_word(s: &Vec<char>, pos: usize) -> (r: Result<(String, usize), ParseError>)
    requires
        pos <= s@.len(),
    ensures
        agrees(r, spec_value_word(s@, pos as int), pos, s@.len()),
{
    let e: usize = scan_equals(s, pos);
    let p: usize = scan_run(s, e, CharClass::Space);
    parse_word(s, p)
}

/// The value of an option: an optional equals sign, then a string literal.
pub open spec fn spec_value_string(s: Seq<char>, pos: int) -> Result<(Seq<char>, int), ParseError> {
    spec_parse_string(s, skip_ws(s, skip_equals(s, pos)))
}

/// The value of an option: an optional equals sign, then a string literal.
pub fn value_string(s: &Vec<char>, pos: usize) -> (r: Result<(String, usize), ParseError>)
    requires
        pos <= s@.len(),
    ensures
        agrees(r, spec_value_string(s@, pos as int), pos, s@.len()),
{
    let e: usize = scan_equals(s, pos);
    let p: usize = scan_run(s, e, CharClass::Space);
    parse_string(s, p)
}

/// The value of an option: an optional equals sign, then a number.
pub open spec fn spec_value_u32(s: Seq<char>, pos: int) -> Result<(u32, int), ParseError> {
    spec_parse_u32(s, skip_ws(s, skip_equals(s, pos)))
}

/// The value of an option: an optional equals sign, then a number.
pub fn value_u32(s: &Vec<char>, pos: usize) -> (r: Result<(u32, usize), ParseError>)
    requires
        pos <= s@.len(),
    ensures
        agrees(r, spec_value_u32(s@, pos as int), pos, s@.len()),
{
    let e: usize = scan_equals(s, pos);
    let p: usize = scan_run(s, e, CharClass::Space);
    parse_u32(s, p)
}

} // verus!
