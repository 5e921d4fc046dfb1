use vstd::prelude::*;
use vstd::std_specs::iter::IteratorSpec;
use vstd::string::*;

verus! {

/// `String::push` appends one character to the end of the string.
pub assume_specification[ std::string::String::push ](s: &mut std::string::String, c: char)
    ensures
        final(s)@ == old(s)@.push(c),
;

/// The characters of a string slice, in order.
pub fn chars_of(s: &str) -> (v: Vec<char>)
    ensures
        v@ == s@,
{
    broadcast use vstd::string::group_string_axioms;

    let mut v: Vec<char> = Vec::new();
    let mut it = s.chars();
    loop
        invariant
            it.obeys_prophetic_iter_laws(),
            it.decrease() is Some,
            v@ + it.remaining() == s@,
        decreases it.decrease()->0,
    {
        let ghost before = it.remaining();
        match it.next() {
            Some(c) => {
                v.push(c);
                assert(v@ + it.remaining() =~= s@) by {
                    assert(before =~= seq![c] + before.drop_first());
                }
            },
            None => {
                assert(v@ =~= s@);
                return v;
            },
        }
    }
}

/// A string holding the characters of `v[from..to]`.
pub fn string_of(v: &Vec<char>, from: usize, to: usize) -> (s: String)
    requires
        from <= to <= v@.len(),
    ensures
        s@ == v@.subrange(from as int, to as int),
{
    let mut s = String::new();
    let mut i: usize = from;
    while i < to
        invariant
            from <= i <= to <= v@.len(),
            s@ == v@.subrange(from as int, i as int),
        decreases to - i,
    {
        s.push(v[i]);
        i += 1;
        assert(s@ =~= v@.subrange(from as int, i as int));
    }
    s
}

/// The decimal digit for `d`, which is below ten.
pub open spec fn digit_char(d: nat) -> char
    recommends
        d < 10,
{
    (('0' as u8) + (d as u8)) as char
}

/// Decimal notation of `n`, without leading zeros.
pub open spec fn dec_digits(n: nat) -> Seq<char>
    decreases n,
{
    if n < 10 {
        seq![digit_char(n)]
    } else {
        dec_digits(n / 10).push(digit_char(n % 10))
    }
}

/// Appends the decimal notation of `n`.
pub fn push_number(out: &mut String, n: u64)
    ensures
        final(out)@ == old(out)@ + dec_digits(n as nat),
    decreases n,
{
    if n >= 10 {
        push_number(out, n / 10);
    }
    let d: u8 = (n % 10) as u8;
    out.push((48u8 + d) as char);
    proof {
        if n >= 10 {
            assert(final(out)@ =~= old(out)@ + dec_digits(n as nat));
        } else {
            assert(final(out)@ =~= old(out)@ + dec_digits(n as nat));
        }
    }
}

/// Appends the characters of `v`.
pub fn push_text(out: &mut String, v: &String)
    ensures
        final(out)@ == old(out)@ + v@,
{
    out.append(v.as_str());
}

/// `v` between two quote characters `q`.
pub open spec fn quoted(v: Seq<char>, q: char) -> Seq<char> {
    seq![q] + v + seq![q]
}

/// Appends `v` between two quote characters `q`.
pub fn push_quoted(out: &mut String, v: &String, q: char)
    ensures
        final(out)@ == old(out)@ + quoted(v@, q),
{
    out.push(q);
    out.append(v.as_str());
    out.push(q);
    assert(final(out)@ =~= old(out)@ + quoted(v@, q));
}

/// The items from index `from` on, each between quote characters `q`, with
/// `sep` between neighbours.
pub open spec fn join_quoted_from(items: Seq<Seq<char>>, from: int, q: char, sep: Seq<char>) -> Seq<char>
    decreases items.len() - from,
{
    if from < 0 || from >= items.len() {
        Seq::empty()
    } else if from + 1 == items.len() {
        quoted(items[from], q)
    } else {
        quoted(items[from], q) + sep + join_quoted_from(items, from + 1, q, sep)
    }
}

/// All items, each between quote characters `q`, with `sep` between
/// neighbours.
pub open spec fn join_quoted(items: Seq<Seq<char>>, q: char, sep: Seq<char>) -> Seq<char> {
    join_quoted_from(items, 0, q, sep)
}

/// Appends the items, each between quote characters `q`, with `sep` between
/// neighbours.
pub fn push_join_quoted(out: &mut String, items: &Vec<String>, q: char, sep: &str)
    ensures
        final(out)@ == old(out)@ + join_quoted(items.deep_view(), q, sep@),
{
    let ghost views = items.deep_view();
    let n: usize = items.len();
    let mut i: usize = 0;
    assert(out@ + join_quoted_from(views, 0, q, sep@) == old(out)@ + join_quoted(views, q, sep@));
    while i < n
        invariant
            i <= n,
            n == items@.len(),
            views == items.deep_view(),
            out@ + join_quoted_from(views, i as int, q, sep@) == old(out)@ + join_quoted(
                views,
                q,
                sep@,
            ),
        decreases n - i,
    {
        let ghost before = out@;
        assert(views[i as int] == items@[i as int]@);
        push_quoted(out, &items[i], q);
        if i + 1 < n {
            out.append(sep);
        }
        assert(out@ + join_quoted_from(views, i + 1, q, sep@) =~= before + join_quoted_from(
            views,
            i as int,
            q,
            sep@,
        ));
        i += 1;
    }
    assert(out@ + join_quoted_from(views, n as int, q, sep@) =~= out@);
}

/// The items with `sep` between neighbours.
pub open spec fn join(items: Seq<Seq<char>>, sep: Seq<char>) -> Seq<char>
    decreases items.len(),
{
    if items.len() == 0 {
        Seq::empty()
    } else if items.len() == 1 {
        items[0]
    } else {
        join(items.drop_last(), sep) + sep + items.last()
    }
}

/// Appends the items with `sep` between neighbours.
pub fn push_join(out: &mut String, items: &Vec<String>, sep: &str)
    ensures
        final(out)@ == old(out)@ + join(items.deep_view(), sep@),
{
    let ghost views = items.deep_view();
    let n: usize = items.len();
    let mut i: usize = 0;
    assert(out@ =~= old(out)@ + join(views.take(0), sep@));
    while i < n
        invariant
            i <= n,
            n == items@.len(),
            views == items.deep_view(),
            out@ == old(out)@ + join(views.take(i as int), sep@),
        decreases n - i,
    {
        if i > 0 {
            out.append(sep);
        }
        out.append(items[i].as_str());
        proof {
            let next = views.take(i + 1);
            assert(next.drop_last() =~= views.take(i as int));
            assert(next.last() == items@[i as int]@);
            assert(out@ =~= old(out)@ + join(next, sep@));
        }
        i += 1;
    }
    assert(views.take(n as int) =~= views);
}

/// Appending in two steps is appending the two parts joined.
pub proof fn lemma_append(base: Seq<char>, a: Seq<char>, b: Seq<char>)
    ensures
        (base + a) + b == base + (a + b),
{
    assert((base + a) + b =~= base + (a + b));
}

/// The items joined, with `sep` before the first of them too; nothing
/// where there is no item.
pub open spec fn join_after(items: Seq<Seq<char>>, sep: Seq<char>) -> Seq<char> {
    if items.len() == 0 {
        Seq::empty()
    } else {
        sep + join(items, sep)
    }
}

/// Joining two lists, the first of which is not empty, gives the first
/// list joined, a separator, and the second list joined.
pub proof fn lemma_join_concat(a: Seq<Seq<char>>, b: Seq<Seq<char>>, sep: Seq<char>)
    requires
        a.len() > 0,
    ensures
        join(a + b, sep) == join(a, sep) + join_after(b, sep),
    decreases b.len(),
{
    if b.len() == 0 {
        assert(a + b =~= a);
        assert(join(a, sep) + join_after(b, sep) =~= join(a, sep));
    } else {
        let ab = a + b;
        assert(ab.drop_last() =~= a + b.drop_last());
        assert(ab.last() == b.last());
        lemma_join_concat(a, b.drop_last(), sep);
        if b.len() == 1 {
            assert(b[0] == b.last());
            assert(join(ab, sep) =~= join(a, sep) + join_after(b, sep));
        } else {
            assert(join(ab, sep) =~= join(a, sep) + join_after(b, sep));
        }
    }
}

/// The lower case of a text, as Unicode defines it.
pub uninterp spec fn lowercase(s: Seq<char>) -> Seq<char>;

/// The lower case of `s`, by `str::to_lowercase`. The contract only names
/// the result.
#[verifier::external_body]
pub(crate) fn to_lowercase(s: &str) -> (r: String)
    ensures
        r@ == lowercase(s@),
{
    s.to_lowercase()
}

} // verus!
