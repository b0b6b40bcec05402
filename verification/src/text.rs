//! Character-level helpers: conversion between `str` and `Vec<char>`,
//! lowercase hexadecimal and decimal rendering.

use vstd::prelude::*;

verus! {

/// Appends one character to a `String` (std `String::push`).
/// Trusted: the string afterwards holds its old characters followed by `c`.
#[verifier::external_body]
pub(crate) fn push_char(s: &mut String, c: char)
    ensures
        final(s)@ == old(s)@.push(c),
{
    s.push(c);
}

/// The characters of `s`, in order.
pub fn chars_of(s: &str) -> (v: Vec<char>)
    ensures
        v@ == s@,
{
    let mut v: Vec<char> = Vec::new();
    for c in it: s.chars()
        invariant
            it.seq() == s@,
            v@ == it.seq().take(it.index() as int),
    {
        v.push(c);
    }
    v
}

/// The string made of the characters `v[from..to]`.
pub fn string_of(v: &Vec<char>, from: usize, to: usize) -> (s: String)
    requires
        from <= to <= v@.len(),
    ensures
        s@ == v@.subrange(from as int, to as int),
{
    let mut s = String::new();
    let mut i = from;
    while i < to
        invariant
            from <= i <= to <= v@.len(),
            s@ == v@.subrange(from as int, i as int),
        decreases to - i,
    {
        push_char(&mut s, v[i]);
        assert(v@.subrange(from as int, i + 1) == v@.subrange(from as int, i as int).push(v@[i as int]));
        i = i + 1;
    }
    s
}

/// Lowercase hexadecimal digit of a value below 16.
pub open spec fn lower_hex_digit(n: u8) -> char {
    if n < 10 {
        (n + 48) as char
    } else {
        (n + 87) as char
    }
}

/// Lowercase hexadecimal rendering: two digits per byte, high nibble first.
pub open spec fn lower_hex(bytes: Seq<u8>) -> Seq<char>
    decreases bytes.len(),
{
    if bytes.len() == 0 {
        Seq::empty()
    } else {
        let b = bytes.last();
        lower_hex(bytes.drop_last()).push(lower_hex_digit(b >> 4)).push(lower_hex_digit(b & 15))
    }
}

/// A lowercase hexadecimal digit character.
pub open spec fn is_lower_hex_char(c: char) -> bool {
    ('0' <= c && c <= '9') || ('a' <= c && c <= 'f')
}

/// The value of a lowercase hexadecimal digit character.
pub open spec fn lower_hex_value(c: char) -> int {
    if c <= '9' {
        c as int - 48
    } else {
        c as int - 87
    }
}

/// Position by position: byte `i` is rendered at `2i` (high nibble) and `2i + 1` (low nibble).
pub proof fn lemma_lower_hex_positions(bytes: Seq<u8>)
    ensures
        lower_hex(bytes).len() == 2 * bytes.len(),
        forall|i: int|
            0 <= i < bytes.len() ==> lower_hex(bytes)[2 * i] == lower_hex_digit(#[trigger] bytes[i] >> 4)
                && lower_hex(bytes)[2 * i + 1] == lower_hex_digit(bytes[i] & 15),
    decreases bytes.len(),
{
    if bytes.len() > 0 {
        let prev = bytes.drop_last();
        lemma_lower_hex_positions(prev);
        assert forall|i: int| 0 <= i < bytes.len() implies lower_hex(bytes)[2 * i] == lower_hex_digit(
            #[trigger] bytes[i] >> 4,
        ) && lower_hex(bytes)[2 * i + 1] == lower_hex_digit(bytes[i] & 15) by {
            if i < prev.len() {
                assert(prev[i] == bytes[i]);
            }
        }
    }
}

/// Hex rendering can be read back: every character is a lowercase hex digit,
/// and the two digits at `2i`, `2i + 1` give byte `i` back.
pub proof fn lower_hex_decodes(bytes: Seq<u8>)
    ensures
        lower_hex(bytes).len() == 2 * bytes.len(),
        forall|k: int| 0 <= k < lower_hex(bytes).len() ==> is_lower_hex_char(#[trigger] lower_hex(bytes)[k]),
        forall|i: int|
            0 <= i < bytes.len() ==> lower_hex_value(lower_hex(bytes)[2 * i]) * 16 + lower_hex_value(
                lower_hex(bytes)[2 * i + 1],
            ) == #[trigger] bytes[i],
{
    lemma_lower_hex_positions(bytes);
    assert forall|i: int| 0 <= i < bytes.len() implies lower_hex_value(lower_hex(bytes)[2 * i]) * 16
        + lower_hex_value(lower_hex(bytes)[2 * i + 1]) == #[trigger] bytes[i] by {
        let b = bytes[i];
        assert(b >> 4 < 16 && b & 15 < 16 && (b >> 4) * 16 + (b & 15) == b) by (bit_vector);
    }
    assert forall|k: int| 0 <= k < lower_hex(bytes).len() implies is_lower_hex_char(
        #[trigger] lower_hex(bytes)[k],
    ) by {
        let i = k / 2;
        assert(0 <= i < bytes.len());
        let b = bytes[i];
        assert(b >> 4 < 16 && b & 15 < 16) by (bit_vector);
        if k % 2 == 0 {
            assert(k == 2 * i);
        } else {
            assert(k == 2 * i + 1);
        }
    }
}

/// Hex rendering is injective: different byte strings render differently.
pub proof fn lower_hex_injective(a: Seq<u8>, b: Seq<u8>)
    ensures
        lower_hex(a) == lower_hex(b) ==> a == b,
{
    if lower_hex(a) == lower_hex(b) {
        lower_hex_decodes(a);
        lower_hex_decodes(b);
        assert forall|i: int| 0 <= i < a.len() implies a[i] == b[i] by {
            assert(a[i] == lower_hex_value(lower_hex(a)[2 * i]) * 16 + lower_hex_value(lower_hex(a)[2 * i + 1]));
            assert(b[i] == lower_hex_value(lower_hex(b)[2 * i]) * 16 + lower_hex_value(lower_hex(b)[2 * i + 1]));
        }
        assert(a =~= b);
    }
}

fn hex_digit(n: u8) -> (c: char)
    requires
        n < 16,
    ensures
        c == lower_hex_digit(n),
{
    match n {
        0 => '0',
        1 => '1',
        2 => '2',
        3 => '3',
        4 => '4',
        5 => '5',
        6 => '6',
        7 => '7',
        8 => '8',
        9 => '9',
        10 => 'a',
        11 => 'b',
        12 => 'c',
        13 => 'd',
        14 => 'e',
        _ => 'f',
    }
}

/// Lowercase hex encoding of `bytes`.
pub fn hex_encode(bytes: &[u8]) -> (s: String)
    ensures
        s@ == lower_hex(bytes@),
        s@.len() == 2 * bytes@.len(),
{
    let mut s = String::new();
    let n = bytes.len();
    let mut i: usize = 0;
    while i < n
        invariant
            n == bytes@.len(),
            i <= n,
            s@ == lower_hex(bytes@.take(i as int)),
            s@.len() == 2 * i,
        decreases n - i,
    {
        let b = bytes[i];
        assert(b >> 4 < 16 && b & 15 < 16) by (bit_vector);
        push_char(&mut s, hex_digit(b >> 4));
        push_char(&mut s, hex_digit(b & 15));
        assert(bytes@.take(i + 1).drop_last() == bytes@.take(i as int));
        i = i + 1;
    }
    assert(bytes@.take(n as int) == bytes@);
    s
}

/// Decimal digit character of a value below 10.
pub open spec fn decimal_digit(n: nat) -> char {
    (n + 48) as char
}

/// Decimal rendering of a natural number, without sign or leading zeros.
pub open spec fn decimal(n: nat) -> Seq<char>
    decreases n,
{
    if n < 10 {
        seq![decimal_digit(n)]
    } else {
        decimal(n / 10).push(decimal_digit(n % 10))
    }
}

fn decimal_digit_char(n: u64) -> (c: char)
    requires
        n < 10,
    ensures
        c == decimal_digit(n as nat),
{
    match n {
        0 => '0',
        1 => '1',
        2 => '2',
        3 => '3',
        4 => '4',
        5 => '5',
        6 => '6',
        7 => '7',
        8 => '8',
        _ => '9',
    }
}

/// Appends the decimal rendering of `n` to `s`.
pub fn push_decimal(s: &mut String, n: u64)
    ensures
        final(s)@ == old(s)@ + decimal(n as nat),
    decreases n,
{
    if n < 10 {
        push_char(s, decimal_digit_char(n));
    } else {
        push_decimal(s, n / 10);
        push_char(s, decimal_digit_char(n % 10));
    }
}


/// An ASCII decimal digit.
pub open spec fn is_decimal_digit(c: char) -> bool {
    '0' <= c && c <= '9'
}

/// Value of a run of decimal digits, most significant first.
pub open spec fn digits_value(d: Seq<char>) -> int
    decreases d.len(),
{
    if d.len() == 0 {
        0
    } else {
        digits_value(d.drop_last()) * 10 + (d.last() as int - 48)
    }
}

/// What `str::parse::<i64>` yields: an optional `+` or `-` sign followed by
/// one or more ASCII digits, whose value fits in `i64`; anything else fails.
pub open spec fn std_parse_i64(s: Seq<char>) -> Option<i64> {
    let signed = s.len() > 0 && (s[0] == '-' || s[0] == '+');
    let digits = if signed { s.drop_first() } else { s };
    let magnitude = digits_value(digits);
    let v = if s.len() > 0 && s[0] == '-' { -magnitude } else { magnitude };
    if digits.len() == 0 || !(forall|i: int| 0 <= i < digits.len() ==> is_decimal_digit(digits[i])) {
        None
    } else if i64::MIN <= v && v <= i64::MAX {
        Some(v as i64)
    } else {
        None
    }
}

/// Parses a decimal `i64` (std `<i64 as FromStr>::from_str`).
/// Trusted: the result is `Some` exactly when std's documented grammar (optional
/// sign, then digits, value in range) accepts `s`, and then holds its value.
#[verifier::external_body]
pub(crate) fn parse_i64(s: &str) -> (r: Option<i64>)
    ensures
        r == std_parse_i64(s@),
{
    s.parse::<i64>().ok()
}


/// The decimal rendering of `n` is a non-empty run of ASCII digits whose value is `n`.
pub proof fn lemma_decimal_digits(n: nat)
    ensures
        decimal(n).len() > 0,
        forall|i: int| 0 <= i < decimal(n).len() ==> is_decimal_digit(#[trigger] decimal(n)[i]),
        digits_value(decimal(n)) == n,
    decreases n,
{
    let d = n % 10;
    assert((d + 48) as char as int == d + 48);
    if n >= 10 {
        lemma_decimal_digits(n / 10);
        let prev = decimal(n / 10);
        assert(decimal(n).drop_last() =~= prev);
        assert(decimal(n).last() == decimal_digit(d));
        assert(digits_value(decimal(n)) == digits_value(prev) * 10 + (decimal(n).last() as int - 48));
        assert(n == (n / 10) * 10 + d);
        assert forall|i: int| 0 <= i < decimal(n).len() implies is_decimal_digit(#[trigger] decimal(n)[i]) by {
            if i < prev.len() {
                assert(decimal(n)[i] == prev[i]);
            }
        }
    } else {
        assert(decimal(n).drop_last() =~= Seq::<char>::empty());
        assert(digits_value(decimal(n)) == digits_value(Seq::<char>::empty()) * 10 + (decimal(n).last() as int - 48));
    }
}

/// Index of the first `c` in `s` at or after `i`, or `s.len()` when there is none.
pub open spec fn find_from(s: Seq<char>, c: char, i: int) -> int
    decreases s.len() - i,
{
    if i >= s.len() {
        s.len() as int
    } else if s[i] == c {
        i
    } else {
        find_from(s, c, i + 1)
    }
}

/// Index of the first character other than `c` in `s` at or after `i`, or `s.len()`.
pub open spec fn skip_from(s: Seq<char>, c: char, i: int) -> int
    decreases s.len() - i,
{
    if i >= s.len() {
        s.len() as int
    } else if s[i] != c {
        i
    } else {
        skip_from(s, c, i + 1)
    }
}

/// The pieces of `s` between occurrences of `c` (as `str::split` yields them):
/// always at least one piece, empty pieces included.
pub open spec fn split_on(s: Seq<char>, c: char) -> Seq<Seq<char>>
    decreases s.len(),
{
    if s.len() == 0 {
        seq![Seq::empty()]
    } else {
        let prev = split_on(s.drop_last(), c);
        if s.last() == c {
            prev.push(Seq::empty())
        } else {
            prev.update(prev.len() - 1, prev.last().push(s.last()))
        }
    }
}

pub proof fn lemma_find_from_bounds(s: Seq<char>, c: char, i: int)
    requires
        0 <= i <= s.len(),
    ensures
        i <= find_from(s, c, i) <= s.len(),
        find_from(s, c, i) < s.len() ==> s[find_from(s, c, i)] == c,
        forall|k: int| i <= k < find_from(s, c, i) ==> s[k] != c,
    decreases s.len() - i,
{
    if i < s.len() && s[i] != c {
        lemma_find_from_bounds(s, c, i + 1);
    }
}

pub proof fn lemma_split_on_nonempty(s: Seq<char>, c: char)
    ensures
        split_on(s, c).len() >= 1,
    decreases s.len(),
{
    if s.len() > 0 {
        lemma_split_on_nonempty(s.drop_last(), c);
    }
}

/// A run without `c` is a single piece.
pub proof fn lemma_split_on_without_separator(s: Seq<char>, c: char)
    requires
        forall|i: int| 0 <= i < s.len() ==> s[i] != c,
    ensures
        split_on(s, c) == seq![s],
    decreases s.len(),
{
    if s.len() == 0 {
        assert(s =~= Seq::<char>::empty());
    } else {
        lemma_split_on_without_separator(s.drop_last(), c);
        assert(s.last() != c);
        assert(s.drop_last().push(s.last()) =~= s);
        assert(seq![s.drop_last()].update(0, s.drop_last().push(s.last())) =~= seq![s]);
    }
}

/// Splitting `a`, a separator, then `b` gives the pieces of `a` followed by those of `b`.
pub proof fn lemma_split_on_concat(a: Seq<char>, b: Seq<char>, c: char)
    ensures
        split_on(a.push(c) + b, c) == split_on(a, c) + split_on(b, c),
    decreases b.len(),
{
    let s = a.push(c) + b;
    lemma_split_on_nonempty(a, c);
    if b.len() == 0 {
        assert(s =~= a.push(c));
        assert(s.drop_last() =~= a);
        assert(split_on(a, c).push(Seq::empty()) =~= split_on(a, c) + seq![Seq::<char>::empty()]);
    } else {
        lemma_split_on_concat(a, b.drop_last(), c);
        lemma_split_on_nonempty(b.drop_last(), c);
        assert(s.drop_last() =~= a.push(c) + b.drop_last());
        assert(s.last() == b.last());
        let x = split_on(a, c);
        let y = split_on(b.drop_last(), c);
        if b.last() == c {
            assert((x + y).push(Seq::empty()) =~= x + y.push(Seq::empty()));
        } else {
            assert((x + y).update((x + y).len() - 1, (x + y).last().push(b.last())) =~= x + y.update(
                y.len() - 1,
                y.last().push(b.last()),
            ));
        }
    }
}

/// Index of the first `c` in `v[from..to]`, or `to`.
pub fn find_char(v: &Vec<char>, c: char, from: usize, to: usize) -> (j: usize)
    requires
        from <= to <= v@.len(),
    ensures
        j == from + find_from(v@.subrange(from as int, to as int), c, 0),
        from <= j <= to,
{
    let ghost p = v@.subrange(from as int, to as int);
    let mut j = from;
    while j < to && v[j] != c
        invariant
            from <= j <= to <= v@.len(),
            p == v@.subrange(from as int, to as int),
            find_from(p, c, 0) == find_from(p, c, j - from),
        decreases to - j,
    {
        j = j + 1;
    }
    j
}

/// Index of the first character other than `c` in `v[from..]`, or `v.len()`.
pub fn skip_char(v: &Vec<char>, c: char, from: usize) -> (j: usize)
    requires
        from <= v@.len(),
    ensures
        j == skip_from(v@, c, from as int),
        from <= j <= v@.len(),
{
    let mut j = from;
    while j < v.len() && v[j] == c
        invariant
            from <= j <= v@.len(),
            skip_from(v@, c, from as int) == skip_from(v@, c, j as int),
        decreases v@.len() - j,
    {
        j = j + 1;
    }
    j
}

/// Whether `v[from..to]` is exactly the characters of `lit`.
pub fn range_eq_str(v: &Vec<char>, from: usize, to: usize, lit: &str) -> (r: bool)
    requires
        from <= to <= v@.len(),
    ensures
        r == (v@.subrange(from as int, to as int) == lit@),
{
    let n = lit.unicode_len();
    if to - from != n {
        return false;
    }
    let mut k: usize = 0;
    while k < n
        invariant
            to - from == n == lit@.len(),
            from <= to <= v@.len(),
            k <= n,
            forall|m: int| 0 <= m < k ==> v@[from + m] == lit@[m],
        decreases n - k,
    {
        if v[from + k] != lit.get_char(k) {
            assert(v@.subrange(from as int, to as int)[k as int] != lit@[k as int]);
            return false;
        }
        k = k + 1;
    }
    assert(v@.subrange(from as int, to as int) =~= lit@);
    true
}


/// Whether two strings hold the same characters.
pub fn str_equals(a: &str, b: &str) -> (r: bool)
    ensures
        r == (a@ == b@),
{
    let v = chars_of(a);
    let n = v.len();
    assert(v@.subrange(0, n as int) == v@);
    range_eq_str(&v, 0, n, b)
}

/// The first `n` characters of `s` (all of `s` when it is shorter).
pub fn take_chars(s: &str, n: usize) -> (r: String)
    ensures
        r@ == s@.take(if n < s@.len() { n as int } else { s@.len() as int }),
{
    let v = chars_of(s);
    let end = if n < v.len() { n } else { v.len() };
    string_of(&v, 0, end)
}


/// The characters of an optional string.
pub open spec fn opt_chars(o: Option<String>) -> Option<Seq<char>> {
    match o {
        Some(s) => Some(s@),
        None => None,
    }
}

} // verus!
