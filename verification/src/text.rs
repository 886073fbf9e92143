//! Character-level helpers shared by the parsers and formatters.
//!
//! Strings are handled as sequences of characters: a `&str` is unpacked into a
//! `Vec<char>` once, worked on by verified loops, and packed again at the end.

use vstd::prelude::*;

verus! {

/// What `str::to_lowercase` returns for a string with these characters.
pub uninterp spec fn lowercase(s: Seq<char>) -> Seq<char>;

/// Whether a character is white space: one of the characters with the
/// Unicode property `White_Space`. These are the controls from tab to
/// carriage return, the space, next line, the no-break space, the ogham
/// space mark, the spaces from en quad to hair space, the line and the
/// paragraph separator, the narrow no-break space, the medium mathematical
/// space and the ideographic space.
pub open spec fn is_white(c: char) -> bool {
    let code = c as u32;
    ||| 0x09 <= code <= 0x0d
    ||| code == 0x20
    ||| code == 0x85
    ||| code == 0xa0
    ||| code == 0x1680
    ||| 0x2000 <= code <= 0x200a
    ||| code == 0x2028
    ||| code == 0x2029
    ||| code == 0x202f
    ||| code == 0x205f
    ||| code == 0x3000
}

/// The first position from `from` on that holds no white space; the length
/// of `s` where there is none.
pub open spec fn first_black(s: Seq<char>, from: int) -> int
    decreases s.len() - from,
{
    if from < 0 || from >= s.len() || !is_white(s[from]) {
        from
    } else {
        first_black(s, from + 1)
    }
}

/// The first position from `from` on that holds white space; the length of
/// `s` where there is none.
pub open spec fn first_white(s: Seq<char>, from: int) -> int
    decreases s.len() - from,
{
    if from < 0 || from >= s.len() || is_white(s[from]) {
        from
    } else {
        first_white(s, from + 1)
    }
}

/// The end of the text before `to` once the white space at its end is
/// taken off.
pub open spec fn black_end(s: Seq<char>, to: int) -> int
    decreases to,
{
    if to <= 0 || to > s.len() || !is_white(s[to - 1]) {
        to
    } else {
        black_end(s, to - 1)
    }
}

/// The text without the white space at its beginning and at its end.
pub open spec fn trimmed(s: Seq<char>) -> Seq<char> {
    let from = first_black(s, 0);
    let to = black_end(s, s.len() as int);
    if from < to {
        s.subrange(from, to)
    } else {
        Seq::empty()
    }
}

/// The parts of `s` from `from` on that stand between runs of white space,
/// in order.
pub open spec fn fields_from(s: Seq<char>, from: int) -> Seq<Seq<char>>
    decreases s.len() - from,
{
    if from < 0 || from >= s.len() {
        Seq::empty()
    } else if is_white(s[from]) {
        fields_from(s, from + 1)
    } else if from < first_white(s, from) <= s.len() {
        seq![s.subrange(from, first_white(s, from))] + fields_from(s, first_white(s, from))
    } else {
        Seq::empty()
    }
}

/// The parts of a text that stand between runs of white space, in order.
/// White space at the beginning and at the end of the text makes no part.
pub open spec fn whitespace_fields(s: Seq<char>) -> Seq<Seq<char>> {
    fields_from(s, 0)
}

/// The texts of a list of strings.
pub open spec fn texts(items: Seq<String>) -> Seq<Seq<char>> {
    items.map_values(|item: String| item@)
}

/// `pat` stands in `s` at offset `i`.
pub open spec fn occurs_at(s: Seq<char>, i: int, pat: Seq<char>) -> bool {
    0 <= i && i + pat.len() <= s.len() && s.subrange(i, i + pat.len()) == pat
}

/// `pat` stands somewhere in `s`. The empty pattern stands in every string.
pub open spec fn contains_seq(s: Seq<char>, pat: Seq<char>) -> bool {
    exists|i: int| occurs_at(s, i, pat)
}

/// `s` begins with `pat`.
pub open spec fn starts_with_seq(s: Seq<char>, pat: Seq<char>) -> bool {
    occurs_at(s, 0, pat)
}

/// `s` with every occurrence of `from` replaced by `to`, scanning from the
/// left and never revisiting replaced text. `from` is meant to be non-empty;
/// with an empty `from` the text is left as it is.
pub open spec fn replaced(s: Seq<char>, from: Seq<char>, to: Seq<char>) -> Seq<char>
    decreases s.len(),
{
    if from.len() == 0 || s.len() < from.len() {
        s
    } else if s.subrange(0, from.len() as int) == from {
        to + replaced(s.subrange(from.len() as int, s.len() as int), from, to)
    } else {
        seq![s[0]] + replaced(s.subrange(1, s.len() as int), from, to)
    }
}

/// A part begins where white space ends and is never empty: from a position
/// that holds no white space the next white space lies further on, within
/// the text or at its end.
pub proof fn part_is_not_empty(s: Seq<char>, from: int)
    requires
        0 <= from < s.len(),
        !is_white(s[from]),
    ensures
        from < first_white(s, from) <= s.len(),
{
    first_white_lies_ahead(s, from + 1);
}

/// The next white space from a position on lies at or after that position,
/// at the end of the text at the latest.
pub proof fn first_white_lies_ahead(s: Seq<char>, from: int)
    requires
        0 <= from <= s.len(),
    ensures
        from <= first_white(s, from) <= s.len(),
    decreases s.len() - from,
{
    if from < s.len() && !is_white(s[from]) {
        first_white_lies_ahead(s, from + 1);
    }
}

/// The character for a decimal digit.
pub open spec fn digit_char(d: nat) -> char
    recommends
        d < 10,
{
    (48 + d) as u8 as char
}

/// The decimal numeral of `n`, without leading zeros.
pub open spec fn decimal(n: nat) -> Seq<char>
    decreases n,
{
    if n < 10 {
        seq![digit_char(n)]
    } else {
        decimal(n / 10).push(digit_char(n % 10))
    }
}

/// Calls `String::from_iter` on the characters: the string made of exactly
/// these characters, in order.
#[verifier::external_body]
pub(crate) fn string_of(v: Vec<char>) -> (s: String)
    ensures
        s@ == v@,
{
    String::from_iter(v)
}

/// Calls `str::to_lowercase`; the result is known only by name.
#[verifier::external_body]
pub(crate) fn to_lowercase(s: &str) -> (r: String)
    ensures
        r@ == lowercase(s@),
{
    s.to_lowercase()
}

/// Whether a character is white space.
pub fn is_whitespace(c: char) -> (r: bool)
    ensures
        r == is_white(c),
{
    let code: u32 = c as u32;
    (0x09 <= code && code <= 0x0d) || code == 0x20 || code == 0x85 || code == 0xa0 || code
        == 0x1680 || (0x2000 <= code && code <= 0x200a) || code == 0x2028 || code == 0x2029 || code
        == 0x202f || code == 0x205f || code == 0x3000
}

/// The characters of `s`, in order.
pub fn chars_of(s: &str) -> (v: Vec<char>)
    ensures
        v@ == s@,
{
    let mut v: Vec<char> = Vec::new();
    for c in it: s.chars()
        invariant
            v@ == it.seq().take(it.index()),
            it.seq() == s@,
    {
        v.push(c);
    }
    v
}

/// Appends the characters of `tail` to `buf`.
pub fn push_str(buf: &mut Vec<char>, tail: &str)
    ensures
        final(buf)@ == old(buf)@ + tail@,
{
    let ghost before = buf@;
    for c in it: tail.chars()
        invariant
            buf@ == before + it.seq().take(it.index()),
            it.seq() == tail@,
    {
        buf.push(c);
    }
}

/// Appends the characters of `tail` to `buf`.
pub fn push_chars(buf: &mut Vec<char>, tail: &Vec<char>)
    ensures
        final(buf)@ == old(buf)@ + tail@,
{
    let ghost before = buf@;
    let mut i: usize = 0;
    while i < tail.len()
        invariant
            i <= tail.len(),
            buf@ == before + tail@.take(i as int),
        decreases tail.len() - i,
    {
        buf.push(tail[i]);
        i += 1;
    }
}

/// The characters of `s` from `from` up to `to`.
pub fn part(s: &Vec<char>, from: usize, to: usize) -> (r: Vec<char>)
    ensures
        from <= to <= s.len() ==> r@ == s@.subrange(from as int, to as int),
        !(from <= to <= s.len()) ==> r@ == Seq::<char>::empty(),
{
    let mut out: Vec<char> = Vec::new();
    if from > to || to > s.len() {
        return out;
    }
    let mut i: usize = from;
    while i < to
        invariant
            from <= i <= to <= s.len(),
            out@ == s@.subrange(from as int, i as int),
        decreases to - i,
    {
        out.push(s[i]);
        i += 1;
        assert(out@ =~= s@.subrange(from as int, i as int));
    }
    out
}

/// The text without the white space at its beginning and at its end.
pub fn trim(s: &str) -> (r: String)
    ensures
        r@ == trimmed(s@),
{
    let c = chars_of(s);
    let mut from: usize = 0;
    while from < c.len() && is_whitespace(c[from])
        invariant
            from <= c.len(),
            first_black(c@, 0) == first_black(c@, from as int),
        decreases c.len() - from,
    {
        from += 1;
    }
    let mut to: usize = c.len();
    while to > 0 && is_whitespace(c[to - 1])
        invariant
            to <= c.len(),
            black_end(c@, c@.len() as int) == black_end(c@, to as int),
        decreases to,
    {
        to -= 1;
    }
    if from < to {
        string_of(part(&c, from, to))
    } else {
        String::new()
    }
}

/// The parts of a text that stand between runs of white space.
pub fn split_fields(s: &str) -> (fields: Vec<String>)
    ensures
        texts(fields@) == whitespace_fields(s@),
{
    let c = chars_of(s);
    let mut fields: Vec<String> = Vec::new();
    let mut i: usize = 0;
    assert(texts(fields@) =~= Seq::<Seq<char>>::empty());
    while i < c.len()
        invariant
            i <= c.len(),
            texts(fields@) + fields_from(c@, i as int) == fields_from(c@, 0),
        decreases c.len() - i,
    {
        if is_whitespace(c[i]) {
            i += 1;
        } else {
            let ghost before = texts(fields@);
            let from = i;
            i += 1;
            while i < c.len() && !is_whitespace(c[i])
                invariant
                    from < i <= c.len(),
                    first_white(c@, from as int) == first_white(c@, i as int),
                decreases c.len() - i,
            {
                i += 1;
            }
            let field = string_of(part(&c, from, i));
            fields.push(field);
            assert(texts(fields@) =~= before + seq![c@.subrange(from as int, i as int)]);
            assert(texts(fields@) + fields_from(c@, i as int) =~= before + fields_from(
                c@,
                from as int,
            ));
        }
    }
    assert(texts(fields@) + Seq::<Seq<char>>::empty() =~= texts(fields@));
    fields
}

/// Whether `pat` stands in `s` at offset `i`.
pub fn matches_at(s: &Vec<char>, i: usize, pat: &Vec<char>) -> (r: bool)
    ensures
        r == occurs_at(s@, i as int, pat@),
{
    if pat.len() > s.len() || i > s.len() - pat.len() {
        return false;
    }
    let mut j: usize = 0;
    while j < pat.len()
        invariant
            j <= pat.len(),
            i + pat.len() <= s.len(),
            forall|k: int| 0 <= k < j ==> s@[i + k] == pat@[k],
        decreases pat.len() - j,
    {
        if s[i + j] != pat[j] {
            proof {
                let window = s@.subrange(i as int, i + pat.len());
                assert(window[j as int] == s@[i + j]);
            }
            return false;
        }
        j += 1;
    }
    assert(s@.subrange(i as int, i + pat.len()) =~= pat@);
    true
}

/// Whether `pat` stands somewhere in `s`.
pub fn contains(s: &Vec<char>, pat: &Vec<char>) -> (r: bool)
    ensures
        r == contains_seq(s@, pat@),
{
    if pat.len() > s.len() {
        return false;
    }
    let last: usize = s.len() - pat.len();
    let mut i: usize = 0;
    loop
        invariant
            last == s.len() - pat.len(),
            i <= last,
            forall|k: int| 0 <= k < i ==> !occurs_at(s@, k, pat@),
        decreases last - i,
    {
        if matches_at(s, i, pat) {
            return true;
        }
        if i == last {
            return false;
        }
        i += 1;
    }
}

/// Whether the text `pat` stands somewhere in `s`.
pub fn contains_str(s: &Vec<char>, pat: &str) -> (r: bool)
    ensures
        r == contains_seq(s@, pat@),
{
    let p = chars_of(pat);
    contains(s, &p)
}

/// Whether `s` begins with the text `pat`.
pub fn starts_with_str(s: &Vec<char>, pat: &str) -> (r: bool)
    ensures
        r == starts_with_seq(s@, pat@),
{
    let p = chars_of(pat);
    matches_at(s, 0, &p)
}

/// `s` with every occurrence of `from` replaced by `to`. With an empty
/// `from` the result is `s` as it is.
pub fn replace(s: &Vec<char>, from: &Vec<char>, to: &Vec<char>) -> (r: Vec<char>)
    ensures
        r@ == replaced(s@, from@, to@),
{
    let mut out: Vec<char> = Vec::new();
    if from.len() == 0 {
        push_chars(&mut out, s);
        assert(out@ =~= s@);
        return out;
    }
    let mut i: usize = 0;
    assert(s@.subrange(0, s@.len() as int) =~= s@);
    while i < s.len()
        invariant
            i <= s.len(),
            from@.len() > 0,
            out@ + replaced(s@.subrange(i as int, s@.len() as int), from@, to@) == replaced(
                s@,
                from@,
                to@,
            ),
        decreases s.len() - i,
    {
        let ghost rest = s@.subrange(i as int, s@.len() as int);
        let ghost done = out@;
        if matches_at(s, i, from) {
            proof {
                assert(rest.subrange(0, from@.len() as int) =~= s@.subrange(
                    i as int,
                    i + from@.len(),
                ));
                assert(rest.subrange(from@.len() as int, rest.len() as int) =~= s@.subrange(
                    i + from@.len(),
                    s@.len() as int,
                ));
            }
            push_chars(&mut out, to);
            i += from.len();
            assert(out@ + replaced(s@.subrange(i as int, s@.len() as int), from@, to@) =~= done
                + replaced(rest, from@, to@));
        } else {
            proof {
                if rest.len() >= from@.len() {
                    assert(rest.subrange(0, from@.len() as int) =~= s@.subrange(
                        i as int,
                        i + from@.len(),
                    ));
                }
                assert(rest.subrange(1, rest.len() as int) =~= s@.subrange(
                    i + 1,
                    s@.len() as int,
                ));
            }
            if s.len() - i < from.len() {
                assert(replaced(rest, from@, to@) == rest);
                let ghost start = i;
                while i < s.len()
                    invariant
                        start <= i <= s.len(),
                        out@ == done + s@.subrange(start as int, i as int),
                    decreases s.len() - i,
                {
                    out.push(s[i]);
                    i += 1;
                    assert(s@.subrange(start as int, i as int) =~= s@.subrange(
                        start as int,
                        i - 1,
                    ).push(s@[i - 1]));
                }
                assert(s@.subrange(i as int, s@.len() as int) =~= Seq::<char>::empty());
                assert(out@ + replaced(s@.subrange(i as int, s@.len() as int), from@, to@) =~= done
                    + rest);
            } else {
                out.push(s[i]);
                i += 1;
                assert(out@ + replaced(s@.subrange(i as int, s@.len() as int), from@, to@) =~= done
                    + replaced(rest, from@, to@));
            }
        }
    }
    assert(s@.subrange(i as int, s@.len() as int) =~= Seq::<char>::empty());
    assert(out@ + Seq::<char>::empty() =~= out@);
    out
}

/// Appends the decimal numeral of `n` to `buf`.
pub fn push_decimal(buf: &mut Vec<char>, n: u64)
    ensures
        final(buf)@ == old(buf)@ + decimal(n as nat),
    decreases n,
{
    let ghost before = buf@;
    if n >= 10 {
        push_decimal(buf, n / 10);
    }
    let d: u8 = (n % 10) as u8;
    buf.push((48 + d) as char);
    assert(buf@ =~= before + decimal(n as nat));
}

/// Whether two texts are the same.
pub fn same_text(a: &str, b: &str) -> (r: bool)
    ensures
        r == (a@ == b@),
{
    let x = chars_of(a);
    let y = chars_of(b);
    if x.len() != y.len() {
        return false;
    }
    let mut i: usize = 0;
    while i < x.len()
        invariant
            i <= x.len(),
            x.len() == y.len(),
            x@ == a@,
            y@ == b@,
            forall|k: int| 0 <= k < i ==> x@[k] == y@[k],
        decreases x.len() - i,
    {
        if x[i] != y[i] {
            return false;
        }
        i += 1;
    }
    assert(x@ =~= y@);
    true
}

/// `s` with every occurrence of the text `from` replaced by the text `to`.
pub fn replace_str(s: &Vec<char>, from: &str, to: &str) -> (r: Vec<char>)
    ensures
        r@ == replaced(s@, from@, to@),
{
    let f = chars_of(from);
    let t = chars_of(to);
    replace(s, &f, &t)
}

} // verus!
