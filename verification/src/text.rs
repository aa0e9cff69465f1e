//! Text helpers: decimal numbers, field splitting and the few `str` and
//! `String` operations of std that the bar's texts are built with.
use vstd::prelude::*;
use vstd::string::StringExecFns;

verus! {

/// The decimal digit for `d < 10`.
pub open spec fn digit(d: nat) -> char {
    if d == 0 { '0' }
    else if d == 1 { '1' }
    else if d == 2 { '2' }
    else if d == 3 { '3' }
    else if d == 4 { '4' }
    else if d == 5 { '5' }
    else if d == 6 { '6' }
    else if d == 7 { '7' }
    else if d == 8 { '8' }
    else { '9' }
}

/// `n` written in decimal, without leading zeros (`0` is written `0`).
pub open spec fn decimal(n: nat) -> Seq<char>
    decreases n,
{
    if n < 10 {
        seq![digit(n)]
    } else {
        decimal(n / 10) + seq![digit(n % 10)]
    }
}

proof fn lemma_digit_injective(a: nat, b: nat)
    requires
        a < 10,
        b < 10,
        digit(a) == digit(b),
    ensures
        a == b,
{
}

proof fn lemma_decimal_len(n: nat)
    ensures
        decimal(n).len() >= 1,
        n >= 10 ==> decimal(n).len() >= 2,
    decreases n,
{
    if n >= 10 {
        lemma_decimal_len(n / 10);
    }
}

/// Different numbers are written differently.
pub proof fn lemma_decimal_injective(a: nat, b: nat)
    requires
        decimal(a) == decimal(b),
    ensures
        a == b,
    decreases a,
{
    lemma_decimal_len(a);
    lemma_decimal_len(b);
    if a < 10 && b < 10 {
        assert(decimal(a)[0] == digit(a));
        assert(decimal(b)[0] == digit(b));
        lemma_digit_injective(a, b);
    } else if a >= 10 && b >= 10 {
        let da = decimal(a);
        let db = decimal(b);
        assert(da.drop_last() == decimal(a / 10));
        assert(db.drop_last() == decimal(b / 10));
        lemma_decimal_injective(a / 10, b / 10);
        assert(da.last() == digit(a % 10));
        assert(db.last() == digit(b % 10));
        lemma_digit_injective(a % 10, b % 10);
    } else {
        assert(decimal(a).len() != decimal(b).len());
    }
}

/// `n` in decimal, padded with zeros to at least two digits.
pub open spec fn decimal2(n: nat) -> Seq<char> {
    if n < 10 {
        seq!['0'] + decimal(n)
    } else {
        decimal(n)
    }
}

/// The pieces of `s` between occurrences of `sep`, empty pieces included:
/// what `str::split` with a `char` pattern yields. There is always at least
/// one piece.
pub open spec fn split_on(s: Seq<char>, sep: char) -> Seq<Seq<char>>
    decreases s.len(),
{
    if s.len() == 0 {
        seq![Seq::<char>::empty()]
    } else {
        let rest = split_on(s.drop_first(), sep);
        if s[0] == sep {
            seq![Seq::<char>::empty()] + rest
        } else {
            rest.update(0, seq![s[0]] + rest[0])
        }
    }
}

pub proof fn lemma_split_on_nonempty(s: Seq<char>, sep: char)
    ensures
        split_on(s, sep).len() >= 1,
    decreases s.len(),
{
    if s.len() > 0 {
        lemma_split_on_nonempty(s.drop_first(), sep);
    }
}

/// The pieces joined back together, `sep` between each two.
pub open spec fn join(pieces: Seq<Seq<char>>, sep: char) -> Seq<char>
    decreases pieces.len(),
{
    if pieces.len() == 0 {
        Seq::empty()
    } else if pieces.len() == 1 {
        pieces[0]
    } else {
        pieces[0] + seq![sep] + join(pieces.drop_first(), sep)
    }
}

/// Splitting at a separator loses nothing: joining the pieces with the
/// separator gives back the text.
pub proof fn law_split_join(s: Seq<char>, sep: char)
    ensures
        join(split_on(s, sep), sep) == s,
    decreases s.len(),
{
    if s.len() > 0 {
        let rest = split_on(s.drop_first(), sep);
        law_split_join(s.drop_first(), sep);
        lemma_split_on_nonempty(s.drop_first(), sep);
        let whole = split_on(s, sep);
        if s[0] == sep {
            assert(whole.drop_first() == rest);
            assert(whole[0] == Seq::<char>::empty());
            assert(join(whole, sep) == whole[0] + seq![sep] + join(rest, sep));
            assert(join(whole, sep) =~= s);
        } else {
            assert(whole.len() == rest.len());
            assert(whole[0] == seq![s[0]] + rest[0]);
            if rest.len() == 1 {
                assert(join(whole, sep) == whole[0]);
                assert(join(rest, sep) == rest[0]);
                assert(join(whole, sep) =~= seq![s[0]] + join(rest, sep));
            } else {
                assert(whole.drop_first() =~= rest.drop_first());
                assert(join(whole, sep) == whole[0] + seq![sep] + join(rest.drop_first(), sep));
                assert(join(rest, sep) == rest[0] + seq![sep] + join(rest.drop_first(), sep));
                assert(join(whole, sep) =~= seq![s[0]] + join(rest, sep));
            }
            assert(seq![s[0]] + s.drop_first() =~= s);
        }
    }
}

/// The views of a sequence of strings.
pub open spec fn views(v: Seq<String>) -> Seq<Seq<char>> {
    v.map_values(|p: String| p@)
}

/// Whether `needle` occurs in `haystack` at some position.
pub open spec fn occurs_in(needle: Seq<char>, haystack: Seq<char>) -> bool {
    exists|i: int|
        0 <= i && i + needle.len() <= haystack.len() && #[trigger] haystack.subrange(
            i,
            i + needle.len(),
        ) == needle
}

/// Whether `c` has the Unicode property White_Space, as `char::is_whitespace`
/// tests it.
pub open spec fn is_white_space(c: char) -> bool {
    ('\u{9}' <= c && c <= '\u{D}') || c == ' ' || c == '\u{85}' || c == '\u{A0}' || c
        == '\u{1680}' || ('\u{2000}' <= c && c <= '\u{200A}') || c == '\u{2028}' || c
        == '\u{2029}' || c == '\u{202F}' || c == '\u{205F}' || c == '\u{3000}'
}

/// `s` without its leading white space.
pub open spec fn trimmed_start(s: Seq<char>) -> Seq<char>
    decreases s.len(),
{
    if s.len() > 0 && is_white_space(s[0]) {
        trimmed_start(s.drop_first())
    } else {
        s
    }
}

/// `s` without its trailing white space.
pub open spec fn trimmed_end(s: Seq<char>) -> Seq<char>
    decreases s.len(),
{
    if s.len() > 0 && is_white_space(s.last()) {
        trimmed_end(s.drop_last())
    } else {
        s
    }
}

/// What `str::trim` gives back for `s`: `s` without its leading and
/// trailing white space.
pub open spec fn trimmed(s: Seq<char>) -> Seq<char> {
    trimmed_end(trimmed_start(s))
}

/// Calls `String::push`, which appends one character.
#[verifier::external_body]
pub(crate) fn push_char(s: &mut String, c: char)
    ensures
        final(s)@ == old(s)@.push(c),
{
    s.push(c);
}

/// Calls `<str as PartialEq>::eq`, which compares two string slices
/// character by character.
#[verifier::external_body]
pub(crate) fn str_eq(a: &str, b: &str) -> (r: bool)
    ensures
        r == (a@ == b@),
{
    a == b
}

/// Calls `str::starts_with` with a `&str` pattern: whether `s` begins with
/// `prefix`.
#[verifier::external_body]
pub(crate) fn starts_with(s: &str, prefix: &str) -> (r: bool)
    ensures
        r == (prefix@.len() <= s@.len() && s@.take(prefix@.len() as int) == prefix@),
{
    s.starts_with(prefix)
}

/// Calls `str::contains` with a `&str` pattern: whether `needle` occurs in
/// `haystack`.
#[verifier::external_body]
pub(crate) fn contains(haystack: &str, needle: &str) -> (r: bool)
    ensures
        r == occurs_in(needle@, haystack@),
{
    haystack.contains(needle)
}

/// Calls `str::trim`, which removes leading and trailing white space, white
/// space being the characters with the Unicode property White_Space (as
/// [`is_white_space`] lists them).
#[verifier::external_body]
pub(crate) fn trim(s: &str) -> (r: &str)
    ensures
        r@ == trimmed(s@),
{
    s.trim()
}

/// A string holding the text of `s`.
pub fn owned(s: &str) -> (r: String)
    ensures
        r@ == s@,
{
    String::from_str(s)
}

/// The decimal digit for `d`.
pub fn digit_char(d: u64) -> (c: char)
    requires
        d < 10,
    ensures
        c == digit(d as nat),
{
    match d {
        0 => '0',
        1 => '1',
        2 => '2',
        3 => '3',
        4 => '4',
        5 => '5',
        6 => '6',
        7 => '7',
        8 => '8',
        _ => '9',
    }
}

/// Appends `n` in decimal to `s`.
pub fn push_decimal(s: &mut String, n: u64)
    ensures
        final(s)@ == old(s)@ + decimal(n as nat),
    decreases n,
{
    if n >= 10 {
        push_decimal(s, n / 10);
    }
    push_char(s, digit_char(n % 10));
    assert(final(s)@ == old(s)@ + decimal(n as nat)) by {
        if n >= 10 {
            assert(decimal(n as nat) == decimal((n / 10) as nat) + seq![digit((n % 10) as nat)]);
        }
    }
}

/// Appends `n` in decimal, zero-padded to two digits, to `s`.
pub fn push_decimal2(s: &mut String, n: u64)
    ensures
        final(s)@ == old(s)@ + decimal2(n as nat),
{
    if n < 10 {
        push_char(s, '0');
    }
    push_decimal(s, n);
}

/// Splits `s` at every `sep`, as `str::split` with a `char` pattern does.
pub fn split(s: &str, sep: char) -> (pieces: Vec<String>)
    ensures
        views(pieces@) == split_on(s@, sep),
{
    let n = s.unicode_len();
    let mut pieces: Vec<String> = Vec::new();
    let mut cur = String::new();
    let mut i: usize = 0;
    proof {
        lemma_split_on_nonempty(s@, sep);
        let whole = split_on(s@, sep);
        assert(s@.skip(0) == s@);
        assert(views(pieces@) == Seq::<Seq<char>>::empty());
        assert(cur@ + whole[0] == whole[0]);
        assert(whole == seq![whole[0]] + whole.drop_first());
    }
    while i < n
        invariant
            n == s@.len(),
            i <= n,
            split_on(s@, sep) == views(pieces@) + seq![cur@ + split_on(s@.skip(i as int), sep)[0]]
                + split_on(s@.skip(i as int), sep).drop_first(),
        decreases n - i,
    {
        let c = s.get_char(i);
        let ghost rest = s@.skip(i as int);
        let ghost rest2 = s@.skip(i + 1);
        proof {
            assert(rest.drop_first() == rest2);
            assert(rest[0] == c);
            lemma_split_on_nonempty(rest2, sep);
        }
        if c == sep {
            let ghost old_pieces = pieces@;
            pieces.push(cur);
            cur = String::new();
            proof {
                assert(views(pieces@) == views(old_pieces).push(views(pieces@).last()));
                assert(split_on(rest, sep) == seq![Seq::<char>::empty()] + split_on(rest2, sep));
                assert(split_on(s@, sep) == views(pieces@) + seq![cur@ + split_on(rest2, sep)[0]]
                    + split_on(rest2, sep).drop_first());
            }
        } else {
            let ghost old_cur = cur@;
            push_char(&mut cur, c);
            proof {
                let r2 = split_on(rest2, sep);
                assert(split_on(rest, sep) == r2.update(0, seq![c] + r2[0]));
                assert(split_on(rest, sep).drop_first() == r2.drop_first());
                assert(old_cur + split_on(rest, sep)[0] == cur@ + r2[0]);
            }
        }
        i = i + 1;
    }
    proof {
        assert(s@.skip(n as int) == Seq::<char>::empty());
    }
    let ghost old_pieces = pieces@;
    pieces.push(cur);
    proof {
        assert(views(pieces@) == views(old_pieces).push(views(pieces@).last()));
    }
    pieces
}

/// Whether `c` is an ASCII decimal digit.
pub open spec fn is_digit(c: char) -> bool {
    '0' <= c && c <= '9'
}

/// The value of the decimal digits `s`.
pub open spec fn digits_value(s: Seq<char>) -> nat
    decreases s.len(),
{
    if s.len() == 0 {
        0
    } else {
        digits_value(s.drop_last()) * 10 + ((s.last() as u32) - ('0' as u32)) as nat
    }
}

/// What `str::parse::<u32>` gives for `s`: an optional `+`, then one or
/// more decimal digits whose value fits in a `u32`; `None` for anything
/// else.
pub open spec fn parsed_u32(s: Seq<char>) -> Option<u32> {
    let d = unsigned_part(s);
    if d.len() > 0 && all_digits(d) && digits_value(d) <= u32::MAX {
        Some(digits_value(d) as u32)
    } else {
        None
    }
}

/// `s` without a leading `+`.
pub open spec fn unsigned_part(s: Seq<char>) -> Seq<char> {
    if s.len() > 0 && s[0] == '+' {
        s.drop_first()
    } else {
        s
    }
}

/// Whether every character of `d` is a decimal digit.
pub open spec fn all_digits(d: Seq<char>) -> bool {
    forall|i: int| 0 <= i < d.len() ==> is_digit(#[trigger] d[i])
}

/// Reads a decimal number as `str::parse::<u32>` does.
pub fn parse_u32(s: &str) -> (r: Option<u32>)
    ensures
        r == parsed_u32(s@),
{
    let n = s.unicode_len();
    let mut start: usize = 0;
    if n > 0 && s.get_char(0) == '+' {
        start = 1;
    }
    let ghost d = unsigned_part(s@);
    proof {
        assert(d == s@.skip(start as int));
    }
    if start == n {
        return None;
    }
    let mut acc: u64 = 0;
    let mut overflow = false;
    let mut i: usize = start;
    while i < n
        invariant
            n == s@.len(),
            start <= i <= n,
            start < n,
            d == s@.skip(start as int),
            d == unsigned_part(s@),
            forall|j: int| 0 <= j < i - start ==> is_digit(#[trigger] d[j]),
            !overflow ==> acc == digits_value(d.take(i - start)) && acc <= u32::MAX,
            overflow ==> digits_value(d.take(i - start)) > u32::MAX,
        decreases n - i,
    {
        let c = s.get_char(i);
        proof {
            assert(d[i - start] == c);
            assert(d.take(i - start + 1).drop_last() == d.take(i - start));
            assert(d.take(i - start + 1).last() == c);
        }
        if !('0' <= c && c <= '9') {
            proof {
                assert(!is_digit(d[i - start]));
                assert(!all_digits(d));
            }
            return None;
        }
        let v = (c as u32 - '0' as u32) as u64;
        if !overflow {
            acc = acc * 10 + v;
            if acc > 4294967295 {
                overflow = true;
            }
        }
        i = i + 1;
    }
    proof {
        assert(d.take(n - start) == d);
    }
    if overflow {
        None
    } else {
        Some(acc as u32)
    }
}

proof fn lemma_digit_value(d: nat)
    requires
        d < 10,
    ensures
        is_digit(digit(d)),
        ((digit(d) as u32) - ('0' as u32)) as nat == d,
{
}

proof fn lemma_decimal_digits(n: nat)
    ensures
        all_digits(decimal(n)),
        digits_value(decimal(n)) == n,
        decimal(n).len() >= 1,
    decreases n,
{
    let d = decimal(n);
    lemma_digit_value(n % 10);
    if n < 10 {
        assert(d[0] == digit(n));
        assert(d.last() == digit(n));
        assert(d.drop_last() =~= Seq::<char>::empty());
        assert(digits_value(d) == digits_value(d.drop_last()) * 10 + ((d.last() as u32) - ('0' as u32)) as nat);
        assert(digits_value(Seq::<char>::empty()) == 0);
    } else {
        lemma_decimal_digits(n / 10);
        assert(d.drop_last() == decimal(n / 10));
        assert(d.last() == digit(n % 10));
        assert(digits_value(d) == digits_value(d.drop_last()) * 10 + ((d.last() as u32) - ('0' as u32)) as nat);
        assert((n / 10) * 10 + n % 10 == n);
        assert forall|i: int| 0 <= i < d.len() implies is_digit(#[trigger] d[i]) by {
            if i < d.len() - 1 {
                assert(d[i] == decimal(n / 10)[i]);
            }
        }
    }
}

/// Reading back a number that was written in decimal gives the number.
pub proof fn law_decimal_parse(n: u32)
    ensures
        parsed_u32(decimal(n as nat)) == Some(n),
{
    lemma_decimal_digits(n as nat);
    let d = decimal(n as nat);
    assert(is_digit(d[0]));
    assert(unsigned_part(d) == d);
}

proof fn lemma_trim_start_skips(w: Seq<char>, d: Seq<char>)
    requires
        forall|i: int| 0 <= i < w.len() ==> is_white_space(#[trigger] w[i]),
        d.len() > 0,
        !is_white_space(d[0]),
    ensures
        trimmed_start(w + d) == d,
    decreases w.len(),
{
    if w.len() == 0 {
        assert(w + d =~= d);
    } else {
        assert((w + d).drop_first() =~= w.drop_first() + d);
        assert((w + d)[0] == w[0]);
        lemma_trim_start_skips(w.drop_first(), d);
    }
}

proof fn lemma_trim_end_skips(d: Seq<char>, w: Seq<char>)
    requires
        forall|i: int| 0 <= i < w.len() ==> is_white_space(#[trigger] w[i]),
        d.len() > 0,
        !is_white_space(d.last()),
    ensures
        trimmed_end(d + w) == d,
    decreases w.len(),
{
    if w.len() == 0 {
        assert(d + w =~= d);
    } else {
        assert((d + w).drop_last() =~= d + w.drop_last());
        assert((d + w).last() == w.last());
        assert(w.last() == w[w.len() - 1]);
        lemma_trim_end_skips(d, w.drop_last());
    }
}

/// White space around a number written in decimal is ignored: reading the
/// padded text gives the number back.
pub proof fn law_padded_number(n: u32, lead: Seq<char>, trail: Seq<char>)
    requires
        forall|i: int| 0 <= i < lead.len() ==> is_white_space(#[trigger] lead[i]),
        forall|i: int| 0 <= i < trail.len() ==> is_white_space(#[trigger] trail[i]),
    ensures
        parsed_u32(trimmed(lead + decimal(n as nat) + trail)) == Some(n),
{
    let d = decimal(n as nat);
    lemma_decimal_digits(n as nat);
    assert(is_digit(d[0]));
    assert(is_digit(d[d.len() - 1]));
    assert(lead + d + trail =~= lead + (d + trail));
    assert((d + trail)[0] == d[0]);
    lemma_trim_start_skips(lead, d + trail);
    lemma_trim_end_skips(d, trail);
    law_decimal_parse(n);
}

/// Reads the number that a line of text holds, white space around it
/// ignored.
pub fn read_number(s: &str) -> (r: Option<u32>)
    ensures
        r == parsed_u32(trimmed(s@)),
{
    parse_u32(trim(s))
}

} // verus!
