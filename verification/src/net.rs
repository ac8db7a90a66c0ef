//! Peer addresses and the subnets that hold them.

use vstd::arithmetic::power2::pow2;
use vstd::prelude::*;

use crate::text::{
    all_digits, chars_of, decimal_text, digits_value, find_from, first_from, is_digit,
    lemma_canonical, lemma_decimal, no_leading_zero, parse_digits,
};

verus! {

/// The address of the other end of a connection.
#[derive(Clone, Copy, Debug)]
pub enum Peer {
    /// An IPv4 address, its first octet in the highest bits.
    V4(u32),
    V6,
}

/// The octets of an IPv4 address, the first one first.
pub open spec fn octet(address: u32, i: int) -> nat {
    if i == 0 {
        (address / 0x1000000) as nat
    } else if i == 1 {
        (address / 0x10000 % 0x100) as nat
    } else if i == 2 {
        (address / 0x100 % 0x100) as nat
    } else {
        (address % 0x100) as nat
    }
}

/// An IPv4 address in dotted decimal notation.
pub open spec fn dotted_text(address: u32) -> Seq<char> {
    decimal_text(octet(address, 0)) + seq!['.'] + decimal_text(octet(address, 1)) + seq!['.']
        + decimal_text(octet(address, 2)) + seq!['.'] + decimal_text(octet(address, 3))
}

/// The address that a text writes in dotted decimal notation, if it is one.
pub open spec fn ipv4_value(s: Seq<char>) -> Option<u32> {
    if exists|address: u32| s == #[trigger] dotted_text(address) {
        Some(choose|address: u32| s == #[trigger] dotted_text(address))
    } else {
        None
    }
}

/// Whether four octets stand at the places that three dots leave.
spec fn dotted_at(s: Seq<char>, d1: int, d2: int, d3: int, address: u32) -> bool {
    &&& first_from(s, 0, '.', d1)
    &&& first_from(s, d1 + 1, '.', d2)
    &&& first_from(s, d2 + 1, '.', d3)
    &&& s.subrange(0, d1) == decimal_text(octet(address, 0))
    &&& s.subrange(d1 + 1, d2) == decimal_text(octet(address, 1))
    &&& s.subrange(d2 + 1, d3) == decimal_text(octet(address, 2))
    &&& s.subrange(d3 + 1, s.len() as int) == decimal_text(octet(address, 3))
}

/// Where the dots of a dotted text stand.
proof fn lemma_dots(address: u32) -> (d: (int, int, int))
    ensures
        dotted_at(dotted_text(address), d.0, d.1, d.2, address),
{
    let s = dotted_text(address);
    let a = decimal_text(octet(address, 0));
    let b = decimal_text(octet(address, 1));
    let c = decimal_text(octet(address, 2));
    let e = decimal_text(octet(address, 3));
    lemma_decimal(octet(address, 0));
    lemma_decimal(octet(address, 1));
    lemma_decimal(octet(address, 2));
    lemma_decimal(octet(address, 3));
    let d1 = a.len() as int;
    let d2 = d1 + 1 + b.len();
    let d3 = d2 + 1 + c.len();
    assert forall|i: int| 0 <= i < d1 implies #[trigger] s[i] != '.' by {
        assert(s[i] == a[i]);
        assert(is_digit(a[i]));
    }
    assert forall|i: int| d1 + 1 <= i < d2 implies #[trigger] s[i] != '.' by {
        assert(s[i] == b[i - d1 - 1]);
        assert(is_digit(b[i - d1 - 1]));
    }
    assert forall|i: int| d2 + 1 <= i < d3 implies #[trigger] s[i] != '.' by {
        assert(s[i] == c[i - d2 - 1]);
        assert(is_digit(c[i - d2 - 1]));
    }
    assert(s.subrange(0, d1) =~= a);
    assert(s.subrange(d1 + 1, d2) =~= b);
    assert(s.subrange(d2 + 1, d3) =~= c);
    assert(s.subrange(d3 + 1, s.len() as int) =~= e);
    (d1, d2, d3)
}

/// Four octets make one address.
proof fn lemma_octets(a: u32, b: u32)
    requires
        forall|i: int| 0 <= i < 4 ==> #[trigger] octet(a, i) == octet(b, i),
    ensures
        a == b,
{
    assert(octet(a, 0) == octet(b, 0));
    assert(octet(a, 1) == octet(b, 1));
    assert(octet(a, 2) == octet(b, 2));
    assert(octet(a, 3) == octet(b, 3));
    assert(a == (a / 0x1000000) * 0x1000000 + (a / 0x10000 % 0x100) * 0x10000 + (a / 0x100 % 0x100)
        * 0x100 + a % 0x100) by (bit_vector);
    assert(b == (b / 0x1000000) * 0x1000000 + (b / 0x10000 % 0x100) * 0x10000 + (b / 0x100 % 0x100)
        * 0x100 + b % 0x100) by (bit_vector);
}

/// The octets of an address that was put together from them.
proof fn lemma_put_together(a: u32, b: u32, c: u32, d: u32, address: u32)
    requires
        a <= 255,
        b <= 255,
        c <= 255,
        d <= 255,
        address == a * 0x1000000 + b * 0x10000 + c * 0x100 + d,
    ensures
        octet(address, 0) == a,
        octet(address, 1) == b,
        octet(address, 2) == c,
        octet(address, 3) == d,
{
    assert(address / 0x1000000 == a && address / 0x10000 % 0x100 == b && address / 0x100 % 0x100
        == c && address % 0x100 == d) by (bit_vector)
        requires
            a <= 255,
            b <= 255,
            c <= 255,
            d <= 255,
            address == a * 0x1000000 + b * 0x10000 + c * 0x100 + d,
    ;
}

/// A text with four octets at the places that three dots leave is that of the
/// address.
proof fn lemma_text_of(s: Seq<char>, d1: int, d2: int, d3: int, address: u32)
    requires
        dotted_at(s, d1, d2, d3, address),
    ensures
        s == dotted_text(address),
{
    let a = s.subrange(0, d1);
    let b = s.subrange(d1 + 1, d2);
    let c = s.subrange(d2 + 1, d3);
    let d = s.subrange(d3 + 1, s.len() as int);
    assert(s =~= a + seq!['.'] + b + seq!['.'] + c + seq!['.'] + d);
}

/// The dots of a text stand at one place each.
proof fn lemma_same_dots(
    s: Seq<char>,
    d: (int, int, int),
    e: (int, int, int),
    one: u32,
    other: u32,
)
    requires
        dotted_at(s, d.0, d.1, d.2, one),
        dotted_at(s, e.0, e.1, e.2, other),
    ensures
        one == other,
{
    assert(s[d.0] == '.' && s[e.0] == '.' && d.0 == e.0);
    assert(s[d.1] == '.' && s[e.1] == '.' && d.1 == e.1);
    assert(s[d.2] == '.' && s[e.2] == '.' && d.2 == e.2);
    assert forall|i: int| 0 <= i < 4 implies #[trigger] octet(one, i) == octet(other, i) by {
        lemma_decimal(octet(one, i));
        lemma_decimal(octet(other, i));
    }
    lemma_octets(one, other);
}

/// The dots and the octets of a text determine the address.
proof fn lemma_address(s: Seq<char>, d1: int, d2: int, d3: int, address: u32)
    requires
        dotted_at(s, d1, d2, d3, address),
    ensures
        s == dotted_text(address),
        ipv4_value(s) == Some(address),
{
    lemma_text_of(s, d1, d2, d3, address);
    let other = ipv4_value(s)->0;
    let e = lemma_dots(other);
    lemma_same_dots(s, (d1, d2, d3), e, address, other);
}

/// Two addresses that are written alike are the same.
pub proof fn law_dotted_text_is_unique(a: u32, b: u32)
    requires
        dotted_text(a) == dotted_text(b),
    ensures
        a == b,
{
    let (d1, d2, d3) = lemma_dots(a);
    lemma_address(dotted_text(a), d1, d2, d3, a);
    let (e1, e2, e3) = lemma_dots(b);
    lemma_address(dotted_text(b), e1, e2, e3, b);
}

/// Reads one octet: at most 255, in decimal, without leading zeros.
fn parse_octet(chars: &Vec<char>, from: usize, to: usize) -> (r: Option<u32>)
    requires
        from <= to <= chars@.len(),
    ensures
        match r {
            Some(v) => v <= 255 && chars@.subrange(from as int, to as int) == decimal_text(
                v as nat,
            ),
            None => forall|n: nat|
                n <= 255 ==> chars@.subrange(from as int, to as int) != #[trigger] decimal_text(n),
        },
{
    let ghost part = chars@.subrange(from as int, to as int);
    proof {
        assert forall|n: nat| n <= 255 && part == #[trigger] decimal_text(n) implies all_digits(
            part,
        ) && no_leading_zero(part) && digits_value(part) == n by {
            lemma_decimal(n);
        }
    }
    if to - from > 1 && chars[from] == '0' {
        assert(part[0] == '0');
        return None;
    }
    match parse_digits(chars, from, to, 255) {
        Some(v) => {
            proof {
                assert(part.len() > 1 ==> part[0] == chars@[from as int]);
                lemma_canonical(part);
            }
            Some(v)
        },
        None => None,
    }
}

/// Where the three dots of a dotted text stand.
fn find_dots(chars: &Vec<char>) -> (r: Option<(usize, usize, usize)>)
    ensures
        match r {
            Some(d) => {
                &&& first_from(chars@, 0, '.', d.0 as int)
                &&& first_from(chars@, d.0 + 1, '.', d.1 as int)
                &&& first_from(chars@, d.1 + 1, '.', d.2 as int)
            },
            None => forall|d1: int, d2: int, d3: int, address: u32|
                !dotted_at(chars@, d1, d2, d3, address),
        },
{
    let end: usize = chars.len();
    let d1: usize = match find_from(chars, 0, '.') {
        Some(i) => i,
        None => return None,
    };
    let d2: usize = match find_from(chars, d1 + 1, '.') {
        Some(i) => i,
        None => {
            assert forall|e1: int, e2: int, e3: int, address: u32|
                !dotted_at(chars@, e1, e2, e3, address) by {
                if dotted_at(chars@, e1, e2, e3, address) {
                    assert(chars@[e1] == '.' && chars@[d1 as int] == '.' && e1 == d1);
                    assert(chars@[e2] == '.');
                }
            }
            return None;
        },
    };
    match find_from(chars, d2 + 1, '.') {
        Some(d3) => Some((d1, d2, d3)),
        None => {
            assert forall|e1: int, e2: int, e3: int, address: u32|
                !dotted_at(chars@, e1, e2, e3, address) by {
                if dotted_at(chars@, e1, e2, e3, address) {
                    assert(chars@[e1] == '.' && chars@[d1 as int] == '.' && e1 == d1);
                    assert(chars@[e2] == '.' && chars@[d2 as int] == '.' && e2 == d2);
                    assert(chars@[e3] == '.');
                }
            }
            None
        },
    }
}

/// The octets of a dotted text stand between its dots.
proof fn lemma_octets_between(s: Seq<char>, d1: int, d2: int, d3: int)
    requires
        first_from(s, 0, '.', d1),
        first_from(s, d1 + 1, '.', d2),
        first_from(s, d2 + 1, '.', d3),
        ipv4_value(s) is Some,
    ensures
        dotted_at(s, d1, d2, d3, ipv4_value(s)->0),
{
    let e = lemma_dots(ipv4_value(s)->0);
    assert(s[d1] == '.' && s[e.0] == '.' && d1 == e.0);
    assert(s[d2] == '.' && s[e.1] == '.' && d2 == e.1);
    assert(s[d3] == '.' && s[e.2] == '.' && d3 == e.2);
}

/// Reads an IPv4 address in dotted decimal notation.
pub fn parse_ipv4(s: &str) -> (r: Option<u32>)
    ensures
        r == ipv4_value(s@),
{
    let chars = chars_of(s);
    let end: usize = chars.len();
    let (d1, d2, d3) = match find_dots(&chars) {
        Some(d) => d,
        None => {
            proof {
                if ipv4_value(s@) is Some {
                    let d = lemma_dots(ipv4_value(s@)->0);
                }
            }
            return None;
        },
    };
    proof {
        if ipv4_value(s@) is Some {
            lemma_octets_between(s@, d1 as int, d2 as int, d3 as int);
        }
    }
    let a: u32 = match parse_octet(&chars, 0, d1) {
        Some(v) => v,
        None => return None,
    };
    let b: u32 = match parse_octet(&chars, d1 + 1, d2) {
        Some(v) => v,
        None => return None,
    };
    let c: u32 = match parse_octet(&chars, d2 + 1, d3) {
        Some(v) => v,
        None => return None,
    };
    let d: u32 = match parse_octet(&chars, d3 + 1, end) {
        Some(v) => v,
        None => return None,
    };
    let address: u32 = a * 0x1000000 + b * 0x10000 + c * 0x100 + d;
    proof {
        lemma_put_together(a, b, c, d, address);
        lemma_address(s@, d1 as int, d2 as int, d3 as int, address);
    }
    Some(address)
}

/// Whether two addresses agree in their first `prefix` bits.
pub open spec fn in_subnet(address: u32, base: u32, prefix: nat) -> bool {
    address as nat / pow2((32 - prefix) as nat) == base as nat / pow2((32 - prefix) as nat)
}

/// Whether an address belongs to the subnet of a base address and the length of
/// its prefix.
pub fn subnet_holds(address: u32, base: u32, prefix: u32) -> (r: bool)
    requires
        prefix <= 32,
    ensures
        r == in_subnet(address, base, prefix as nat),
{
    let mask: u32 = if prefix == 0 {
        0u32
    } else {
        !0u32 << (32 - prefix)
    };
    proof {
        let shift: u32 = (32 - prefix) as u32;
        if prefix == 0 {
            assert(address & 0u32 == base & 0u32) by (bit_vector);
            vstd::arithmetic::power2::lemma2_to64();
            vstd::arithmetic::power2::lemma2_to64_rest();
            assert(pow2(32) == 0x100000000);
            assert(address as nat / pow2(32) == 0);
            assert(base as nat / pow2(32) == 0);
        } else {
            assert(((address & (!0u32 << shift)) == (base & (!0u32 << shift))) == ((address
                >> shift) == (base >> shift))) by (bit_vector)
                requires
                    shift < 32,
            ;
            vstd::bits::lemma_u32_shr_is_div(address, shift);
            vstd::bits::lemma_u32_shr_is_div(base, shift);
        }
    }
    (address & mask) == (base & mask)
}

/// A prefix of no bits holds every address.
pub proof fn law_empty_prefix_holds_all(address: u32, base: u32)
    ensures
        in_subnet(address, base, 0),
{
    vstd::arithmetic::power2::lemma2_to64();
    vstd::arithmetic::power2::lemma2_to64_rest();
    assert((32 - 0nat) as nat == 32);
    assert(pow2(32) == 0x100000000);
    assert(address as nat / pow2(32) == 0);
    assert(base as nat / pow2(32) == 0);
}

/// A prefix of all bits holds the base address and no other.
pub proof fn law_full_prefix_holds_one(address: u32, base: u32)
    ensures
        in_subnet(address, base, 32) <==> address == base,
{
    vstd::arithmetic::power2::lemma2_to64();
    assert((32 - 32nat) as nat == 0);
    assert(pow2(0) == 1);
    assert(address as nat / 1 == address);
    assert(base as nat / 1 == base);
}

/// A longer prefix holds no address that a shorter one leaves out.
pub proof fn law_longer_prefix_narrows(address: u32, base: u32, shorter: nat, longer: nat)
    requires
        shorter <= longer <= 32,
        in_subnet(address, base, longer),
    ensures
        in_subnet(address, base, shorter),
{
    let fine = pow2((32 - longer) as nat);
    let rest = pow2((longer - shorter) as nat);
    vstd::arithmetic::power2::lemma_pow2_pos((32 - longer) as nat);
    vstd::arithmetic::power2::lemma_pow2_pos((longer - shorter) as nat);
    vstd::arithmetic::power2::lemma_pow2_adds((32 - longer) as nat, (longer - shorter) as nat);
    assert((32 - longer) as nat + (longer - shorter) as nat == (32 - shorter) as nat);
    vstd::arithmetic::div_mod::lemma_div_denominator(address as int, fine as int, rest as int);
    vstd::arithmetic::div_mod::lemma_div_denominator(base as int, fine as int, rest as int);
}

} // verus!
