//! Helpers for reading fragments of the vendor key-mapping description.
//!
//! The record table is compiled offline from a vendor-supplied mapping
//! description whose entries carry hexadecimal code literals and quoted
//! name strings. These helpers turn such fragments into plain values: a
//! `0x`-prefixed hexadecimal literal into a number, and a double-quoted
//! literal into the bare string between the quotes. Both are forgiving in
//! small ways: a repeated `0x` prefix is swallowed whole and a plus sign
//! may precede the digits, and a quoted literal loses its entire opening
//! and closing runs of quote characters, not just one from each side.

use vstd::prelude::*;

verus! {

/// Whether `c` is a hexadecimal digit, in either case.
pub open spec fn is_hex_digit(c: char) -> bool {
    hex_digit_value(c) < 16
}

/// The value of a hexadecimal digit; 16 for characters that are none.
pub open spec fn hex_digit_value(c: char) -> nat {
    match c {
        '0' => 0,
        '1' => 1,
        '2' => 2,
        '3' => 3,
        '4' => 4,
        '5' => 5,
        '6' => 6,
        '7' => 7,
        '8' => 8,
        '9' => 9,
        'a' => 10,
        'b' => 11,
        'c' => 12,
        'd' => 13,
        'e' => 14,
        'f' => 15,
        'A' => 10,
        'B' => 11,
        'C' => 12,
        'D' => 13,
        'E' => 14,
        'F' => 15,
        _ => 16,
    }
}

/// The number a sequence of hexadecimal digits denotes, most significant
/// digit first.
pub open spec fn hex_value(s: Seq<char>) -> nat
    decreases s.len(),
{
    if s.len() == 0 {
        0
    } else {
        hex_value(s.drop_last()) * 16 + hex_digit_value(s.last())
    }
}

/// What remains of a literal after every leading `0x` is removed.
pub open spec fn hex_prefix_stripped(s: Seq<char>) -> Seq<char>
    decreases s.len(),
{
    if s.len() >= 2 && s[0] == '0' && s[1] == 'x' {
        hex_prefix_stripped(s.skip(2))
    } else {
        s
    }
}

/// The digit part of a hexadecimal literal: what follows the `0x`
/// prefixes and an optional plus sign.
pub open spec fn hex_digits(s: Seq<char>) -> Seq<char> {
    let d = hex_prefix_stripped(s);
    if d.len() > 0 && d[0] == '+' {
        d.skip(1)
    } else {
        d
    }
}

/// Whether a character sequence is an acceptable hexadecimal literal: a
/// `0x` prefix, then — once every leading `0x` and an optional plus sign
/// are gone — at least one digit, and digits only.
pub open spec fn hex_literal_ok(s: Seq<char>) -> bool {
    &&& s.len() >= 2
    &&& s[0] == '0'
    &&& s[1] == 'x'
    &&& hex_digits(s).len() > 0
    &&& forall|j: int| 0 <= j < hex_digits(s).len() ==> is_hex_digit(#[trigger] hex_digits(s)[j])
}

/// A prefix of a digit sequence denotes at most what the whole denotes.
proof fn lemma_hex_value_take_le(s: Seq<char>, j: int)
    requires
        0 <= j <= s.len(),
    ensures
        hex_value(s.take(j)) <= hex_value(s),
    decreases s.len(),
{
    if j == s.len() {
        assert(s.take(j) =~= s);
    } else {
        let rest = s.drop_last();
        assert(rest.take(j) =~= s.take(j));
        lemma_hex_value_take_le(rest, j);
    }
}

/// The value of one hexadecimal digit character; 16 marks the rest.
fn hex_digit(c: char) -> (d: u32)
    ensures
        d == hex_digit_value(c),
{
    match c {
        '0' => 0,
        '1' => 1,
        '2' => 2,
        '3' => 3,
        '4' => 4,
        '5' => 5,
        '6' => 6,
        '7' => 7,
        '8' => 8,
        '9' => 9,
        'a' => 10,
        'b' => 11,
        'c' => 12,
        'd' => 13,
        'e' => 14,
        'f' => 15,
        'A' => 10,
        'B' => 11,
        'C' => 12,
        'D' => 13,
        'E' => 14,
        'F' => 15,
        _ => 16,
    }
}

/// Read a `0x`-prefixed hexadecimal literal.
///
/// Succeeds exactly on acceptable literals whose value fits; the result is
/// then the number the digit part denotes.
pub fn parse_hex(hex_string: String) -> (r: Result<u32, ()>)
    ensures
        r is Ok <==> hex_literal_ok(hex_string@) && hex_value(hex_digits(hex_string@))
            <= u32::MAX,
        (r matches Ok(v) ==> v == hex_value(hex_digits(hex_string@))),
{
    let s: &str = hex_string.as_str();
    let n: usize = s.unicode_len();
    if n < 2 {
        return Err(());
    }
    if s.get_char(0) != '0' {
        return Err(());
    }
    if s.get_char(1) != 'x' {
        return Err(());
    }
    proof {
        assert(s@.skip(0) =~= s@);
    }
    let mut i: usize = 0;
    while i < n - 1 && s.get_char(i) == '0' && s.get_char(i + 1) == 'x'
        invariant
            0 <= i <= n,
            n == s@.len(),
            2 <= n,
            s@ == hex_string@,
            hex_prefix_stripped(s@) == hex_prefix_stripped(s@.skip(i as int)),
        decreases n - i,
    {
        proof {
            assert(s@.skip(i as int).skip(2) =~= s@.skip(i + 2));
        }
        i = i + 2;
    }
    let ghost stripped: Seq<char> = s@.skip(i as int);
    proof {
        assert(hex_prefix_stripped(s@) == stripped);
    }
    let mut start: usize = i;
    if start < n && s.get_char(start) == '+' {
        start = start + 1;
    }
    let ghost digits: Seq<char> = hex_digits(hex_string@);
    proof {
        if i < n && s@[i as int] == '+' {
            assert(stripped.skip(1) =~= s@.skip(start as int));
        }
        assert(digits =~= s@.skip(start as int));
    }
    if start == n {
        return Err(());
    }
    let mut acc: u32 = 0;
    let mut j: usize = start;
    while j < n
        invariant
            start <= j <= n,
            start < n,
            n == s@.len(),
            s@ == hex_string@,
            digits == hex_digits(hex_string@),
            digits == s@.skip(start as int),
            forall|k: int| start <= k < j ==> is_hex_digit(#[trigger] s@[k]),
            acc == hex_value(digits.take(j - start)),
        decreases n - j,
    {
        let c: char = s.get_char(j);
        let dgt: u32 = hex_digit(c);
        if dgt >= 16 {
            proof {
                assert(digits[j - start] == s@[j as int]);
                assert(!is_hex_digit(digits[j - start]));
            }
            return Err(());
        }
        proof {
            assert(digits.take(j + 1 - start).drop_last() =~= digits.take(j - start));
            assert(digits.take(j + 1 - start).last() == c);
            assert(hex_value(digits.take(j + 1 - start)) == acc * 16 + dgt);
        }
        if acc > (u32::MAX - dgt) / 16 {
            proof {
                let q: int = ((u32::MAX - dgt) / 16) as int;
                assert(16 * q + 16 > u32::MAX - dgt);
                assert(acc * 16 + dgt > u32::MAX);
                lemma_hex_value_take_le(digits, j + 1 - start);
            }
            return Err(());
        }
        proof {
            let q: int = ((u32::MAX - dgt) / 16) as int;
            assert(16 * q <= u32::MAX - dgt);
            assert(acc * 16 + dgt <= u32::MAX);
        }
        acc = acc * 16 + dgt;
        j = j + 1;
    }
    proof {
        assert(digits.take(n - start) =~= digits);
        assert forall|m: int| 0 <= m < digits.len() implies is_hex_digit(#[trigger] digits[m]) by {
            assert(digits[m] == s@[m + start]);
        }
    }
    Ok(acc)
}

/// The length of the run of double quotes that opens a string.
pub open spec fn leading_quote_run(s: Seq<char>) -> int
    decreases s.len(),
{
    if s.len() > 0 && s[0] == '"' {
        1 + leading_quote_run(s.skip(1))
    } else {
        0
    }
}

/// The length of the run of double quotes that closes a string.
pub open spec fn trailing_quote_run(s: Seq<char>) -> int
    decreases s.len(),
{
    if s.len() > 0 && s.last() == '"' {
        1 + trailing_quote_run(s.drop_last())
    } else {
        0
    }
}

/// A quoted literal with its quote runs removed: every leading double
/// quote goes, then every trailing double quote of what remains.
pub open spec fn quote_stripped(s: Seq<char>) -> Seq<char> {
    let rem = s.skip(leading_quote_run(s));
    rem.take(rem.len() - trailing_quote_run(rem))
}

/// The opening quote run is a run: all quotes, stopped by a non-quote.
proof fn lemma_leading_quote_run(s: Seq<char>)
    ensures
        0 <= leading_quote_run(s) <= s.len(),
        forall|j: int| 0 <= j < leading_quote_run(s) ==> s[j] == '"',
        leading_quote_run(s) < s.len() ==> s[leading_quote_run(s)] != '"',
    decreases s.len(),
{
    if s.len() > 0 && s[0] == '"' {
        let t = s.skip(1);
        lemma_leading_quote_run(t);
        assert forall|j: int| 0 <= j < leading_quote_run(s) implies s[j] == '"' by {
            if j > 0 {
                assert(t[j - 1] == s[j]);
            }
        }
        if leading_quote_run(s) < s.len() {
            assert(t[leading_quote_run(s) - 1] == s[leading_quote_run(s)]);
        }
    }
}

/// The closing quote run is a run: all quotes, preceded by a non-quote.
proof fn lemma_trailing_quote_run(s: Seq<char>)
    ensures
        0 <= trailing_quote_run(s) <= s.len(),
        forall|j: int| s.len() - trailing_quote_run(s) <= j < s.len() ==> s[j] == '"',
        trailing_quote_run(s) < s.len() ==> s[s.len() - trailing_quote_run(s) - 1] != '"',
    decreases s.len(),
{
    if s.len() > 0 && s.last() == '"' {
        let t = s.drop_last();
        lemma_trailing_quote_run(t);
        assert forall|j: int| s.len() - trailing_quote_run(s) <= j < s.len() implies s[j]
            == '"' by {
            if j < s.len() - 1 {
                assert(t[j] == s[j]);
            }
        }
        if trailing_quote_run(s) < s.len() {
            assert(t[t.len() - trailing_quote_run(t) - 1] == s[s.len() - trailing_quote_run(s)
                - 1]);
        }
    }
}

/// Read a double-quoted string literal.
///
/// Succeeds exactly on strings that begin and end with a double quote —
/// a lone quote counts as both — and returns what stands between the
/// opening and closing runs of quotes.
pub fn parse_literal_string_to_ident_string(literal_string: String) -> (r: Result<String, ()>)
    ensures
        r is Ok <==> (literal_string@.len() >= 1 && literal_string@.first() == '"'
            && literal_string@.last() == '"'),
        (r matches Ok(t) ==> t@ == quote_stripped(literal_string@)),
{
    let s: &str = literal_string.as_str();
    let n: usize = s.unicode_len();
    if n == 0 {
        return Err(());
    }
    if s.get_char(0) != '"' {
        return Err(());
    }
    if s.get_char(n - 1) != '"' {
        return Err(());
    }
    let mut a: usize = 0;
    while a < n && s.get_char(a) == '"'
        invariant
            0 <= a <= n,
            n == s@.len(),
            s@ == literal_string@,
            forall|j: int| 0 <= j < a ==> s@[j] == '"',
        decreases n - a,
    {
        a = a + 1;
    }
    proof {
        lemma_leading_quote_run(s@);
        assert(a == leading_quote_run(s@));
    }
    let mut e: usize = n;
    while e > a && s.get_char(e - 1) == '"'
        invariant
            a <= e <= n,
            n == s@.len(),
            s@ == literal_string@,
            forall|j: int| e <= j < n ==> s@[j] == '"',
        decreases e,
    {
        e = e - 1;
    }
    let ghost rem: Seq<char> = s@.skip(a as int);
    proof {
        lemma_trailing_quote_run(rem);
        let rlen: int = rem.len() as int;
        let t: int = trailing_quote_run(rem);
        if n - e < t {
            assert(e > a);
            assert(rem[e - 1 - a] == s@[e - 1]);
            assert(rem[e - 1 - a] == '"');
        }
        if n - e > t {
            assert(t < rlen);
            assert(rem[rlen - t - 1] == s@[n - t - 1]);
            assert(s@[n - t - 1] == '"');
        }
        assert(n - e == t);
    }
    let inner: &str = s.substring_char(a, e);
    proof {
        assert(rem.take(e - a) =~= s@.subrange(a as int, e as int));
        assert(inner@ == quote_stripped(literal_string@));
    }
    Ok(inner.to_owned())
}

} // verus!
