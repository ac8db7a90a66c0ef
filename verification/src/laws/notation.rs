//! How numbers, addresses, lines and prefixes are written and read.

use vstd::prelude::*;

use crate::net::{dotted_text, law_dotted_text_is_unique, octet, parse_ipv4};
use crate::text::{
    chomped, decimal, decimal_text, is_digit, lemma_decimal, lines, lines_of, parse_unsigned,
    signed_decimal, split_once, strip_prefix, texts, without_plus,
};

verus! {

/// Writing one digit more behind a number multiplies it by ten and adds the
/// digit; numbers below ten are one digit.
pub proof fn law_decimal_grows_by_a_digit(n: u64, r: String, shorter: String)
    requires
        call_ensures(decimal, (n,), r),
        call_ensures(decimal, ((n / 10) as u64,), shorter),
    ensures
        n < 10 ==> r@ == seq![('0' as u8 + n) as char],
        n >= 10 ==> r@ == shorter@.push(('0' as u8 + n % 10) as char),
{
}

/// A negative number is a minus sign with its magnitude behind it.
pub proof fn law_minus_stands_before_the_magnitude(n: i64, m: u64, r: String, magnitude: String)
    requires
        call_ensures(signed_decimal, (n,), r),
        call_ensures(decimal, (m,), magnitude),
        n == m || n == -m,
    ensures
        n >= 0 ==> r@ == magnitude@,
        n < 0 ==> r@ == seq!['-'] + magnitude@,
{
}

/// What is written of a number is read as that number, with or without a plus
/// sign, as long as it is no larger than it may be.
pub proof fn law_written_numbers_are_read(
    n: u64,
    written: String,
    s: &str,
    max: u32,
    r: Option<u32>,
)
    requires
        call_ensures(decimal, (n,), written),
        s@ == written@ || s@ == seq!['+'] + written@,
        call_ensures(parse_unsigned, (s, max), r),
    ensures
        r is Some <==> n <= max,
        r matches Some(v) ==> v == n,
{
    lemma_decimal(n as nat);
    assert(is_digit(written@[0]));
    if s@ != written@ {
        assert(without_plus(s@) =~= written@);
    }
}

/// What holds anything but digits behind an optional plus sign is no number, and
/// neither is what holds no digit.
pub proof fn law_only_digits_are_read(s: &str, max: u32, r: Option<u32>)
    requires
        call_ensures(parse_unsigned, (s, max), r),
        r is Some,
    ensures
        s@.len() > 0,
        s@[s@.len() - 1] != '+',
        forall|i: int|
            0 <= i < s@.len() ==> '0' <= #[trigger] s@[i] <= '9' || i == 0 && s@[i] == '+',
{
    let d = without_plus(s@);
    assert(is_digit(d[d.len() - 1]));
    assert forall|i: int| 0 <= i < s@.len() implies '0' <= #[trigger] s@[i] <= '9' || i == 0
        && s@[i] == '+' by {
        if s@[0] == '+' {
            if i > 0 {
                assert(s@[i] == d[i - 1]);
            }
        } else {
            assert(s@[i] == d[i]);
        }
    }
}

proof fn lemma_octets(a: u64, b: u64, c: u64, d: u64)
    requires
        a < 256 && b < 256 && c < 256 && d < 256,
    ensures
        octet((a * 16_777_216 + b * 65_536 + c * 256 + d) as u32, 0) == a,
        octet((a * 16_777_216 + b * 65_536 + c * 256 + d) as u32, 1) == b,
        octet((a * 16_777_216 + b * 65_536 + c * 256 + d) as u32, 2) == c,
        octet((a * 16_777_216 + b * 65_536 + c * 256 + d) as u32, 3) == d,
{
    let n: int = a * 16_777_216 + b * 65_536 + c * 256 + d;
    assert(n / 256 == a * 65_536 + b * 256 + c);
    assert(n / 65_536 == a * 256 + b);
    assert(n / 16_777_216 == a);
}

/// Four numbers below 256 with dots between them are read as the address that
/// has them as its bytes, the first one highest.
pub proof fn law_address_is_read_from_its_bytes(
    a: u64,
    b: u64,
    c: u64,
    d: u64,
    at: String,
    bt: String,
    ct: String,
    dt: String,
    s: &str,
    r: Option<u32>,
)
    requires
        a < 256 && b < 256 && c < 256 && d < 256,
        call_ensures(decimal, (a,), at),
        call_ensures(decimal, (b,), bt),
        call_ensures(decimal, (c,), ct),
        call_ensures(decimal, (d,), dt),
        s@ == at@ + seq!['.'] + bt@ + seq!['.'] + ct@ + seq!['.'] + dt@,
        call_ensures(parse_ipv4, (s,), r),
    ensures
        r == Some((a * 16_777_216 + b * 65_536 + c * 256 + d) as u32),
{
    let address: u32 = (a * 16_777_216 + b * 65_536 + c * 256 + d) as u32;
    lemma_octets(a, b, c, d);
    assert(s@ == dotted_text(address));
    law_dotted_text_is_unique(r->0, address);
}

/// What is read as an address is written in numbers and dots as that address.
pub proof fn law_only_addresses_are_read(s: &str, r: Option<u32>)
    requires
        call_ensures(parse_ipv4, (s,), r),
    ensures
        r matches Some(address) ==> s@ == decimal_text((address / 16_777_216) as nat) + seq!['.']
            + decimal_text((address / 65_536 % 256) as nat) + seq!['.'] + decimal_text(
            (address / 256 % 256) as nat,
        ) + seq!['.'] + decimal_text((address % 256) as nat),
{
    if r is Some {
        assert(s@ == dotted_text(r->0));
    }
}

/// A text is split at the first occurrence of a character: put together again
/// the parts give the text, and the first one does not hold the character.
pub proof fn law_split_parts_make_the_text(s: &str, c: char, r: Option<(String, String)>)
    requires
        call_ensures(split_once, (s, c), r),
    ensures
        r is Some <==> s@.contains(c),
        r matches Some(parts) ==> s@ == parts.0@ + seq![c] + parts.1@ && !parts.0@.contains(c),
{
    s@.index_of_first_ensures(c);
    if r is Some {
        let parts = r->0;
        let at = s@.index_of_first(c)->0;
        assert(s@ =~= parts.0@ + seq![c] + parts.1@);
        assert forall|i: int| 0 <= i < parts.0@.len() implies parts.0@[i] != c by {
            assert(s@[i] != c);
        }
    }
}

/// A line of a text ends at its line feed, without a carriage return before it,
/// and the lines behind it are those of the rest.
pub proof fn law_a_line_ends_at_its_line_feed(
    text: &str,
    line: Seq<char>,
    rest: &str,
    all: Vec<String>,
    others: Vec<String>,
)
    requires
        !line.contains('\n'),
        text@ == line + seq!['\n'] + rest@,
        call_ensures(lines, (text,), all),
        call_ensures(lines, (rest,), others),
    ensures
        all@.len() == others@.len() + 1,
        line.len() > 0 && line.last() == '\r' ==> all@[0]@ == line.drop_last(),
        line.len() == 0 || line.last() != '\r' ==> all@[0]@ == line,
        forall|i: int| 0 <= i < others@.len() ==> #[trigger] all@[i + 1]@ == others@[i]@,
{
    let s = text@;
    s.index_of_first_ensures('\n');
    assert(s[line.len() as int] == '\n');
    let at = s.index_of_first('\n')->0;
    if at < line.len() {
        assert(line[at] == '\n');
    }
    assert(at == line.len());
    assert(s.take(at) =~= line);
    assert(s.skip(at + 1) =~= rest@);
    assert(lines_of(s) == seq![chomped(line)] + lines_of(rest@));
    assert(texts(all@) == lines_of(s));
    assert(texts(all@)[0] == chomped(line));
    assert forall|i: int| 0 <= i < others@.len() implies #[trigger] all@[i + 1]@
        == others@[i]@ by {
        assert(texts(all@)[i + 1] == all@[i + 1]@);
        assert(texts(others@)[i] == others@[i]@);
    }
}

/// A text without a line feed is one line, and an empty text is none.
pub proof fn law_a_last_line_needs_no_line_feed(text: &str, all: Vec<String>)
    requires
        !text@.contains('\n'),
        call_ensures(lines, (text,), all),
    ensures
        text@.len() == 0 ==> all@.len() == 0,
        text@.len() > 0 ==> all@.len() == 1 && all@[0]@ == text@,
{
    text@.index_of_first_ensures('\n');
    assert(texts(all@).len() == all@.len());
    if text@.len() > 0 {
        assert(texts(all@)[0] == text@);
    }
}

/// A line says something behind a prefix exactly if it is the prefix with that
/// behind it.
pub proof fn law_prefix_and_rest_make_the_line(
    line: &str,
    prefix: &str,
    r: Option<String>,
    rest: Seq<char>,
)
    requires
        call_ensures(strip_prefix, (line, prefix), r),
    ensures
        line@ == prefix@ + rest ==> r is Some && r->0@ == rest,
        r matches Some(t) ==> line@ == prefix@ + t@,
{
    if line@ == prefix@ + rest {
        assert(line@.take(prefix@.len() as int) =~= prefix@);
        assert(line@.skip(prefix@.len() as int) =~= rest);
    }
    if r is Some {
        assert(line@ =~= prefix@ + r->0@);
    }
}

} // verus!
