//! Reading and writing plain text: decimal numbers, lines, prefixes.

use vstd::prelude::*;
use vstd::utf8::{encode_utf8, encode_utf8_decode_utf8};

use crate::outside::{
    ct_ne, hex_bytes, hex_digit, hex_text, hex_value, is_hex, is_hex_digit, opt_text,
};

verus! {

/// The decimal digit of a value below ten.
pub open spec fn digit(n: int) -> char {
    (48 + n) as char
}

/// A number in decimal, without leading zeros.
pub open spec fn decimal_text(n: nat) -> Seq<char>
    decreases n,
{
    if n < 10 {
        seq![digit(n as int)]
    } else {
        decimal_text(n / 10).push(digit((n % 10) as int))
    }
}

/// A signed number in decimal.
pub open spec fn signed_text(n: int) -> Seq<char> {
    if n < 0 {
        seq!['-'] + decimal_text((-n) as nat)
    } else {
        decimal_text(n as nat)
    }
}

/// Writes a number in decimal.
pub fn decimal(n: u64) -> (r: String)
    ensures
        r@ == decimal_text(n as nat),
    decreases n,
{
    if n < 10 {
        let mut s = String::new();
        s.push((48 + n as u8) as char);
        assert(s@ =~= seq![digit(n as int)]);
        s
    } else {
        let mut s = decimal(n / 10);
        s.push((48 + (n % 10) as u8) as char);
        s
    }
}

/// Writes a signed number in decimal.
pub fn signed_decimal(n: i64) -> (r: String)
    ensures
        r@ == signed_text(n as int),
{
    if n < 0 {
        let mut s = String::new();
        s.push('-');
        let magnitude: u64 = (-(n as i128)) as u64;
        let tail = decimal(magnitude);
        s.push_str(tail.as_str());
        assert(s@ =~= seq!['-'] + decimal_text((-n) as nat));
        s
    } else {
        decimal(n as u64)
    }
}

/// Whether a character is a decimal digit.
pub open spec fn is_digit(c: char) -> bool {
    '0' <= c <= '9'
}

/// The number that a row of decimal digits stands for.
pub open spec fn digits_value(s: Seq<char>) -> nat
    decreases s.len(),
{
    if s.len() == 0 {
        0
    } else {
        10 * digits_value(s.drop_last()) + (s.last() as nat - 48) as nat
    }
}

/// Whether a text is at least one digit and nothing else.
pub open spec fn all_digits(s: Seq<char>) -> bool {
    &&& s.len() > 0
    &&& forall|i: int| 0 <= i < s.len() ==> is_digit(#[trigger] s[i])
}

/// A text without one leading plus sign.
pub open spec fn without_plus(s: Seq<char>) -> Seq<char> {
    if s.len() > 0 && s[0] == '+' {
        s.skip(1)
    } else {
        s
    }
}

/// Whether a row of digits starts with a zero only where that is all of it.
pub open spec fn no_leading_zero(s: Seq<char>) -> bool {
    s.len() > 1 ==> s[0] != '0'
}

/// The decimal text of a number is made of digits, starts with no needless zero
/// and is worth that number.
pub proof fn lemma_decimal(n: nat)
    ensures
        all_digits(decimal_text(n)),
        no_leading_zero(decimal_text(n)),
        n > 0 ==> decimal_text(n)[0] != '0',
        digits_value(decimal_text(n)) == n,
    decreases n,
{
    reveal_with_fuel(digits_value, 2);
    if n < 10 {
        assert(decimal_text(n).drop_last() =~= Seq::<char>::empty());
    } else {
        lemma_decimal(n / 10);
        assert(decimal_text(n).drop_last() =~= decimal_text(n / 10));
        assert forall|i: int| 0 <= i < decimal_text(n).len() implies is_digit(
            #[trigger] decimal_text(n)[i],
        ) by {
            if i < decimal_text(n / 10).len() {
                assert(decimal_text(n)[i] == decimal_text(n / 10)[i]);
            }
        }
        assert(decimal_text(n)[0] == decimal_text(n / 10)[0]);
    }
}

/// A row of digits without needless zeros is the decimal text of what it is
/// worth.
pub proof fn lemma_canonical(s: Seq<char>)
    requires
        all_digits(s),
        no_leading_zero(s),
    ensures
        s == decimal_text(digits_value(s)),
        s[0] != '0' ==> digits_value(s) > 0,
    decreases s.len(),
{
    reveal_with_fuel(digits_value, 2);
    let head = s.drop_last();
    assert(is_digit(s.last()));
    if s.len() == 1 {
        assert(head =~= Seq::<char>::empty());
        assert(s =~= seq![digit(digits_value(s) as int)]);
    } else {
        assert(forall|i: int| 0 <= i < head.len() ==> head[i] == s[i]);
        assert(is_digit(s[0]));
        lemma_canonical(head);
        assert(digits_value(head) > 0);
        assert(digits_value(s) / 10 == digits_value(head));
        assert(s =~= head.push(s.last()));
    }
}

/// The unsigned number that a text writes down, if it is one and no larger than
/// `max`: an optional plus sign, then digits only.
pub open spec fn unsigned_value(s: Seq<char>, max: nat) -> Option<nat> {
    let d = without_plus(s);
    if all_digits(d) && digits_value(d) <= max {
        Some(digits_value(d))
    } else {
        None
    }
}

/// The characters of a text.
pub fn chars_of(s: &str) -> (r: Vec<char>)
    ensures
        r@ == s@,
{
    let mut out: Vec<char> = Vec::new();
    for c in it: s.chars()
        invariant
            it.seq() == s@,
            out@ == s@.take(it.index()),
    {
        out.push(c);
        assert(s@.take(it.index() + 1) =~= s@.take(it.index()).push(c));
    }
    assert(s@.take(s@.len() as int) =~= s@);
    out
}

/// The text between two positions of a row of characters.
pub fn text_between(chars: &Vec<char>, from: usize, to: usize) -> (r: String)
    requires
        from <= to <= chars@.len(),
    ensures
        r@ == chars@.subrange(from as int, to as int),
{
    let mut s = String::new();
    let mut i: usize = from;
    assert(chars@.subrange(from as int, from as int) =~= Seq::<char>::empty());
    while i < to
        invariant
            from <= i <= to <= chars@.len(),
            s@ == chars@.subrange(from as int, i as int),
        decreases to - i,
    {
        s.push(chars[i]);
        assert(chars@.subrange(from as int, i + 1) =~= chars@.subrange(from as int, i as int).push(
            chars@[i as int],
        ));
        i += 1;
    }
    s
}

/// A larger prefix of digits is worth at least as much.
proof fn lemma_digits_grow(s: Seq<char>, n: int)
    requires
        0 <= n <= s.len(),
        forall|i: int| 0 <= i < s.len() ==> is_digit(#[trigger] s[i]),
    ensures
        digits_value(s.take(n)) <= digits_value(s),
    decreases s.len() - n,
{
    if n < s.len() {
        lemma_digits_grow(s, n + 1);
        assert(s.take(n + 1).drop_last() =~= s.take(n));
    } else {
        assert(s.take(n) =~= s);
    }
}

/// Reads the digits between two positions, if there is at least one, there is
/// nothing else, and the number is no larger than `max`.
pub fn parse_digits(chars: &Vec<char>, from: usize, to: usize, max: u32) -> (r: Option<u32>)
    requires
        from <= to <= chars@.len(),
    ensures
        r is Some <==> all_digits(chars@.subrange(from as int, to as int)) && digits_value(
            chars@.subrange(from as int, to as int),
        ) <= max,
        r matches Some(v) ==> v == digits_value(chars@.subrange(from as int, to as int)),
{
    let ghost part = chars@.subrange(from as int, to as int);
    if from == to {
        return None;
    }
    let mut value: u64 = 0;
    let mut i: usize = from;
    assert(part.take(0) =~= Seq::<char>::empty());
    while i < to
        invariant
            from <= i <= to <= chars@.len(),
            part == chars@.subrange(from as int, to as int),
            value == digits_value(part.take(i - from)),
            value <= max,
            forall|k: int| 0 <= k < i - from ==> is_digit(#[trigger] part[k]),
        decreases to - i,
    {
        let c = chars[i];
        assert(part[i - from] == c);
        if c < '0' || c > '9' {
            return None;
        }
        assert(part.take(i + 1 - from).drop_last() =~= part.take(i - from));
        value = value * 10 + (c as u32 - 48) as u64;
        i += 1;
        if value > max as u64 {
            proof {
                if all_digits(part) {
                    lemma_digits_grow(part, i - from);
                }
            }
            return None;
        }
    }
    assert(part.take(to - from) =~= part);
    Some(value as u32)
}

/// Reads an unsigned number no larger than `max`: an optional plus sign, then
/// digits only.
pub fn parse_unsigned(s: &str, max: u32) -> (r: Option<u32>)
    ensures
        r is Some <==> unsigned_value(s@, max as nat) is Some,
        r matches Some(v) ==> Some(v as nat) == unsigned_value(s@, max as nat),
{
    let chars = chars_of(s);
    let from: usize = if chars.len() > 0 && chars[0] == '+' { 1 } else { 0 };
    assert(chars@.subrange(from as int, chars@.len() as int) =~= without_plus(s@));
    parse_digits(&chars, from, chars.len(), max)
}

/// Whether a character first occurs, from some position on, at a given one.
pub open spec fn first_from(s: Seq<char>, from: int, c: char, at: int) -> bool {
    &&& 0 <= from <= at < s.len()
    &&& s[at] == c
    &&& forall|i: int| from <= i < at ==> #[trigger] s[i] != c
}

/// Where a character first occurs from some position on.
pub fn find_from(chars: &Vec<char>, from: usize, c: char) -> (r: Option<usize>)
    requires
        from <= chars@.len(),
    ensures
        match r {
            Some(at) => first_from(chars@, from as int, c, at as int),
            None => forall|i: int| from <= i < chars@.len() ==> #[trigger] chars@[i] != c,
        },
{
    let mut i: usize = from;
    while i < chars.len()
        invariant
            from <= i <= chars@.len(),
            forall|j: int| from <= j < i ==> #[trigger] chars@[j] != c,
        decreases chars@.len() - i,
    {
        if chars[i] == c {
            return Some(i);
        }
        i += 1;
    }
    None
}

/// A text before and behind the first occurrence of a character.
pub open spec fn parted(s: Seq<char>, c: char) -> Option<(Seq<char>, Seq<char>)> {
    match s.index_of_first(c) {
        Some(at) => Some((s.take(at), s.skip(at + 1))),
        None => None,
    }
}

/// Splits a text at the first occurrence of a character.
pub fn split_once(s: &str, c: char) -> (r: Option<(String, String)>)
    ensures
        match r {
            Some(parts) => parted(s@, c) == Some((parts.0@, parts.1@)),
            None => parted(s@, c) is None,
        },
{
    let chars = chars_of(s);
    let end: usize = chars.len();
    proof {
        s@.index_of_first_ensures(c);
    }
    match find_from(&chars, 0, c) {
        Some(at) => {
            assert(s@[at as int] == c);
            let ghost first = s@.index_of_first(c)->0;
            assert(s@[first] == c);
            assert(first == at);
            let head = text_between(&chars, 0, at);
            let tail = text_between(&chars, at + 1, end);
            assert(head@ =~= s@.take(first));
            assert(tail@ =~= s@.skip(first + 1));
            Some((head, tail))
        },
        None => None,
    }
}

/// Two texts of which the bytes agree are the same.
pub proof fn lemma_same_bytes(a: Seq<char>, b: Seq<char>)
    ensures
        encode_utf8(a) == encode_utf8(b) <==> a == b,
{
    encode_utf8_decode_utf8(a);
    encode_utf8_decode_utf8(b);
}

/// Whether two texts differ, told in a time that does not depend on where they
/// do.
pub fn secrets_differ(a: &str, b: &str) -> (r: bool)
    ensures
        r == (a@ != b@),
{
    proof {
        lemma_same_bytes(a@, b@);
    }
    ct_ne(a.as_bytes(), b.as_bytes())
}

/// The digits of a byte string stand for that byte string.
pub proof fn law_hex_round_trip(data: Seq<u8>)
    ensures
        is_hex(hex_text(data)),
        hex_bytes(hex_text(data)) == data,
{
    let s = hex_text(data);
    assert forall|i: int| 0 <= i < s.len() implies is_hex_digit(#[trigger] s[i]) by {
        let byte = data[i / 2] as int;
        assert(0 <= byte / 16 < 16 && 0 <= byte % 16 < 16);
    }
    assert forall|i: int| 0 <= i < data.len() implies #[trigger] hex_bytes(s)[i] == data[i] by {
        let byte = data[i] as int;
        assert((2 * i) / 2 == i && (2 * i + 1) / 2 == i);
        assert((2 * i) % 2 == 0 && (2 * i + 1) % 2 == 1);
        assert(s[2 * i] == hex_digit(byte / 16));
        assert(s[2 * i + 1] == hex_digit(byte % 16));
        assert(hex_value(hex_digit(byte / 16)) == byte / 16);
        assert(hex_value(hex_digit(byte % 16)) == byte % 16);
        assert(16 * (byte / 16) + byte % 16 == byte);
    }
    assert(hex_bytes(s) =~= data);
}

/// Whether two texts are the same.
pub fn same_text(a: &str, b: &str) -> (r: bool)
    ensures
        r == (a@ == b@),
{
    a.to_string() == b.to_string()
}

// ---------------------------------------------------------------------------
// Lines
// ---------------------------------------------------------------------------

/// A line without the carriage return that its line feed may follow.
pub open spec fn chomped(line: Seq<char>) -> Seq<char> {
    if line.len() > 0 && line.last() == '\r' {
        line.drop_last()
    } else {
        line
    }
}

/// The lines of a text. Each ends in a line feed, or in a carriage return and a
/// line feed; the last one need not.
pub open spec fn lines_of(s: Seq<char>) -> Seq<Seq<char>>
    decreases s.len(),
{
    if s.len() == 0 {
        Seq::empty()
    } else {
        match parted(s, '\n') {
            None => seq![s],
            Some((line, rest)) => if rest.len() < s.len() {
                seq![chomped(line)] + lines_of(rest)
            } else {
                Seq::empty()
            },
        }
    }
}

/// The values of texts.
pub open spec fn texts(v: Seq<String>) -> Seq<Seq<char>> {
    v.map_values(|s: String| s@)
}

/// Splits a text into its lines.
pub fn lines(s: &str) -> (r: Vec<String>)
    ensures
        texts(r@) == lines_of(s@),
{
    let chars = chars_of(s);
    let end: usize = chars.len();
    let mut out: Vec<String> = Vec::new();
    let mut from: usize = 0;
    assert(s@.skip(0) =~= s@);
    assert(texts(out@) + lines_of(s@) =~= lines_of(s@));
    while from < end
        invariant
            from <= end,
            end == chars@.len(),
            chars@ == s@,
            texts(out@) + lines_of(s@.skip(from as int)) == lines_of(s@),
        decreases end - from,
    {
        let ghost rest = s@.skip(from as int);
        let ghost before = texts(out@);
        proof {
            rest.index_of_first_ensures('\n');
        }
        match find_from(&chars, from, '\n') {
            Some(at) => {
                let ghost i = rest.index_of_first('\n')->0;
                assert(rest[at - from] == '\n');
                assert(rest[i] == '\n');
                assert(s@[from + i] == '\n');
                assert(i == at - from);
                let to: usize = if at > from && chars[at - 1] == '\r' {
                    at - 1
                } else {
                    at
                };
                let line = text_between(&chars, from, to);
                assert(line@ =~= chomped(rest.take(i)));
                out.push(line);
                from = at + 1;
                assert(rest.skip(i + 1) =~= s@.skip(from as int));
                assert(texts(out@) =~= before.push(line@));
                assert(before + lines_of(rest) =~= texts(out@) + lines_of(s@.skip(from as int)));
            },
            None => {
                assert forall|i: int| 0 <= i < rest.len() implies rest[i] != '\n' by {
                    assert(rest[i] == s@[from + i]);
                }
                let line = text_between(&chars, from, end);
                assert(line@ =~= rest);
                out.push(line);
                from = end;
                assert(texts(out@) =~= before.push(line@));
                assert(s@.skip(from as int) =~= Seq::<char>::empty());
                assert(before + lines_of(rest) =~= texts(out@) + lines_of(s@.skip(from as int)));
            },
        }
    }
    assert(s@.skip(from as int) =~= Seq::<char>::empty());
    assert(texts(out@) + lines_of(s@.skip(from as int)) =~= texts(out@));
    out
}

/// What a line says behind a prefix, if it starts with it.
pub open spec fn behind(line: Seq<char>, prefix: Seq<char>) -> Option<Seq<char>> {
    if prefix.len() <= line.len() && line.take(prefix.len() as int) == prefix {
        Some(line.skip(prefix.len() as int))
    } else {
        None
    }
}

/// Reads what a line says behind a prefix.
pub fn strip_prefix(line: &str, prefix: &str) -> (r: Option<String>)
    ensures
        opt_text(r) == behind(line@, prefix@),
{
    let chars = chars_of(line);
    let head = chars_of(prefix);
    if head.len() > chars.len() {
        return None;
    }
    let start = text_between(&chars, 0, head.len());
    assert(start@ =~= line@.take(prefix@.len() as int));
    if same_text(start.as_str(), prefix) {
        let rest = text_between(&chars, head.len(), chars.len());
        assert(rest@ =~= line@.skip(prefix@.len() as int));
        Some(rest)
    } else {
        None
    }
}

} // verus!
