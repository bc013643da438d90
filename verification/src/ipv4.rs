//! IPv4 addresses and their dotted-decimal text form.

use vstd::prelude::*;
use crate::text::{all_digits, bounded_decimal, chars_of, parse_decimal};

verus! {

/// An IPv4 address, held as the 32-bit number that its four octets spell in
/// network order: `10.0.0.5` is `0x0a00_0005`.
#[derive(Clone, Copy, Debug, PartialEq, Eq, Hash, Structural)]
pub struct Ipv4Address {
    pub bits: u32,
}

/// An address that an interface carries, of either family.
#[derive(Clone, Copy, Debug, PartialEq, Eq, Hash, Structural)]
pub enum IpAddress {
    V4(Ipv4Address),
    V6(u128),
}

impl Ipv4Address {
    /// The address `a.b.c.d`.
    pub open spec fn spec_from_octets(a: u8, b: u8, c: u8, d: u8) -> Ipv4Address {
        Ipv4Address { bits: (a * 0x100_0000 + b * 0x1_0000 + c * 0x100 + d) as u32 }
    }

    /// The four octets, first one first.
    pub open spec fn spec_octets(self) -> (u8, u8, u8, u8) {
        (
            (self.bits / 0x100_0000) as u8,
            (self.bits / 0x1_0000 % 0x100) as u8,
            (self.bits / 0x100 % 0x100) as u8,
            (self.bits % 0x100) as u8,
        )
    }

    /// Builds the address `a.b.c.d`.
    pub fn from_octets(a: u8, b: u8, c: u8, d: u8) -> (addr: Ipv4Address)
        ensures
            addr == Self::spec_from_octets(a, b, c, d),
            addr.spec_octets() == (a, b, c, d),
    {
        proof {
            lemma_join_then_split(a, b, c, d);
        }
        Ipv4Address {
            bits: (a as u32) * 0x100_0000 + (b as u32) * 0x1_0000 + (c as u32) * 0x100 + (d as u32),
        }
    }

    /// Splits the address into its octets.
    pub fn octets(&self) -> (parts: (u8, u8, u8, u8))
        ensures
            parts == self.spec_octets(),
            Self::spec_from_octets(parts.0, parts.1, parts.2, parts.3) == *self,
    {
        proof {
            lemma_split_then_join(self.bits);
        }
        (
            (self.bits / 0x100_0000) as u8,
            (self.bits / 0x1_0000 % 0x100) as u8,
            (self.bits / 0x100 % 0x100) as u8,
            (self.bits % 0x100) as u8,
        )
    }
}

/// The octet that the text field `f` denotes: one to three decimal digits
/// with no superfluous leading zero and a value of at most 255.
pub open spec fn spec_octet(f: Seq<char>) -> Option<u8> {
    if f.len() == 1 || (f.len() > 1 && f[0] != '0') {
        match bounded_decimal(f, 255) {
            Some(value) => Some(value as u8),
            None => None,
        }
    } else {
        None
    }
}

/// Whether `s` is four octet fields with dots at `i`, `j` and `k` between
/// them, and nothing else.
pub open spec fn dotted_at(s: Seq<char>, i: int, j: int, k: int) -> bool {
    &&& 0 <= i < j < k < s.len()
    &&& s[i] == '.' && s[j] == '.' && s[k] == '.'
    &&& spec_octet(s.subrange(0, i)) is Some
    &&& spec_octet(s.subrange(i + 1, j)) is Some
    &&& spec_octet(s.subrange(j + 1, k)) is Some
    &&& spec_octet(s.subrange(k + 1, s.len() as int)) is Some
}

/// The address that `s` spells when its dots stand at `i`, `j` and `k`.
pub open spec fn address_at(s: Seq<char>, i: int, j: int, k: int) -> Ipv4Address {
    Ipv4Address::spec_from_octets(
        spec_octet(s.subrange(0, i)).unwrap(),
        spec_octet(s.subrange(i + 1, j)).unwrap(),
        spec_octet(s.subrange(j + 1, k)).unwrap(),
        spec_octet(s.subrange(k + 1, s.len() as int)).unwrap(),
    )
}

/// The address that the text `s` denotes in dotted-decimal notation, if it
/// is such a text.
pub open spec fn spec_parse_ipv4(s: Seq<char>) -> Option<Ipv4Address> {
    if exists|i: int, j: int, k: int| dotted_at(s, i, j, k) {
        let (i, j, k) = choose|i: int, j: int, k: int| dotted_at(s, i, j, k);
        Some(address_at(s, i, j, k))
    } else {
        None
    }
}

/// Whether `s` has no dot from `from` up to, not including, `to`.
pub open spec fn no_dot_between(s: Seq<char>, from: int, to: int) -> bool {
    forall|p: int| from <= p < to ==> #[trigger] s[p] != '.'
}

/// An octet field holds digits only, so no dot.
pub proof fn lemma_octet_field_has_no_dot(s: Seq<char>, from: int, to: int)
    requires
        0 <= from <= to <= s.len(),
        spec_octet(s.subrange(from, to)) is Some,
    ensures
        no_dot_between(s, from, to),
{
    let f = s.subrange(from, to);
    assert(all_digits(f));
    assert forall|p: int| from <= p < to implies #[trigger] s[p] != '.' by {
        assert(f[p - from] == s[p]);
    }
}

/// A text can be cut into four octet fields in one way at most, so the
/// address that it denotes does not depend on which cut is looked at.
pub proof fn lemma_dots_are_unique(s: Seq<char>, i: int, j: int, k: int, i2: int, j2: int, k2: int)
    requires
        dotted_at(s, i, j, k),
        dotted_at(s, i2, j2, k2),
    ensures
        i == i2 && j == j2 && k == k2,
{
    lemma_octet_field_has_no_dot(s, 0, i);
    lemma_octet_field_has_no_dot(s, i + 1, j);
    lemma_octet_field_has_no_dot(s, j + 1, k);
    lemma_octet_field_has_no_dot(s, 0, i2);
    lemma_octet_field_has_no_dot(s, i2 + 1, j2);
    lemma_octet_field_has_no_dot(s, j2 + 1, k2);
}

/// Finds the first dot at or after `from`.
fn find_dot(chars: &Vec<char>, from: usize) -> (found: Option<usize>)
    requires
        from <= chars.len(),
    ensures
        found matches Some(p) ==> from <= p < chars.len() && chars@[p as int] == '.'
            && no_dot_between(chars@, from as int, p as int),
        found is None ==> no_dot_between(chars@, from as int, chars.len() as int),
{
    let mut p: usize = from;
    while p < chars.len()
        invariant
            from <= p <= chars.len(),
            no_dot_between(chars@, from as int, p as int),
        decreases chars.len() - p,
    {
        if chars[p] == '.' {
            return Some(p);
        }
        p = p + 1;
    }
    None
}

/// Reads `chars[from..to]` as one octet field.
fn parse_octet(chars: &Vec<char>, from: usize, to: usize) -> (octet: Option<u8>)
    requires
        from <= to <= chars.len(),
    ensures
        octet == spec_octet(chars@.subrange(from as int, to as int)),
{
    let ghost field = chars@.subrange(from as int, to as int);
    if to - from > 1 {
        assert(field[0] == chars@[from as int]);
        if chars[from] == '0' {
            return None;
        }
    }
    match parse_decimal(chars, from, to, 255) {
        Some(value) => Some(value as u8),
        None => None,
    }
}

impl Ipv4Address {
    /// Reads an address in dotted-decimal notation, such as `192.168.0.1`:
    /// four decimal octets of one to three digits, each at most 255 and
    /// without a leading zero, with single dots between them.
    pub fn parse(text: &str) -> (addr: Option<Ipv4Address>)
        ensures
            addr == spec_parse_ipv4(text@),
    {
        let chars = chars_of(text);
        let n: usize = chars.len();
        let ghost s = chars@;
        let i: usize = match find_dot(&chars, 0) {
            Some(i) => i,
            None => {
                assert(forall|i: int, j: int, k: int| !dotted_at(s, i, j, k));
                return None;
            },
        };
        let j: usize = match find_dot(&chars, i + 1) {
            Some(j) => j,
            None => {
                assert forall|i2: int, j2: int, k2: int| !dotted_at(s, i2, j2, k2) by {
                    if dotted_at(s, i2, j2, k2) {
                        lemma_octet_field_has_no_dot(s, 0, i2);
                    }
                }
                return None;
            },
        };
        let k: usize = match find_dot(&chars, j + 1) {
            Some(k) => k,
            None => {
                assert forall|i2: int, j2: int, k2: int| !dotted_at(s, i2, j2, k2) by {
                    if dotted_at(s, i2, j2, k2) {
                        lemma_octet_field_has_no_dot(s, 0, i2);
                        lemma_octet_field_has_no_dot(s, i2 + 1, j2);
                    }
                }
                return None;
            },
        };
        proof {
            assert forall|i2: int, j2: int, k2: int| dotted_at(s, i2, j2, k2) implies i2 == i && j2
                == j && k2 == k by {
                lemma_octet_field_has_no_dot(s, 0, i2);
                lemma_octet_field_has_no_dot(s, i2 + 1, j2);
                lemma_octet_field_has_no_dot(s, j2 + 1, k2);
            }
        }
        let a = parse_octet(&chars, 0, i);
        let b = parse_octet(&chars, i + 1, j);
        let c = parse_octet(&chars, j + 1, k);
        let d = parse_octet(&chars, k + 1, n);
        match (a, b, c, d) {
            (Some(a), Some(b), Some(c), Some(d)) => {
                assert(dotted_at(s, i as int, j as int, k as int));
                Some(Ipv4Address::from_octets(a, b, c, d))
            },
            _ => None,
        }
    }
}

/// Four octets put together and taken apart again are the same octets.
pub proof fn lemma_join_then_split(a: u8, b: u8, c: u8, d: u8)
    ensures
        Ipv4Address::spec_from_octets(a, b, c, d).bits == a * 0x100_0000 + b * 0x1_0000 + c * 0x100 + d,
        Ipv4Address::spec_from_octets(a, b, c, d).spec_octets() == (a, b, c, d),
{
    let x: int = a * 0x100_0000 + b * 0x1_0000 + c * 0x100 + d;
    assert(0 <= x <= 0xffff_ffff);
    assert(x / 0x100_0000 == a);
    assert(x / 0x1_0000 == a * 0x100 + b);
    assert(x / 0x100 == a * 0x1_0000 + b * 0x100 + c);
    assert((a * 0x100 + b) % 0x100 == b);
    assert((a * 0x1_0000 + b * 0x100 + c) % 0x100 == c);
    assert(x % 0x100 == d);
}

/// An address taken apart and put together again is the same address.
pub proof fn lemma_split_then_join(bits: u32)
    ensures
        ({
            let parts = (Ipv4Address { bits }).spec_octets();
            Ipv4Address::spec_from_octets(parts.0, parts.1, parts.2, parts.3) == (Ipv4Address { bits })
        }),
{
    let n: int = bits as int;
    let hi: int = n / 0x100_0000;
    let b: int = n / 0x1_0000 % 0x100;
    let c: int = n / 0x100 % 0x100;
    let d: int = n % 0x100;
    assert(0 <= hi < 0x100);
    assert(n / 0x100 == (n / 0x1_0000) * 0x100 + c);
    assert(n / 0x1_0000 == hi * 0x100 + b);
    assert(n == (n / 0x100) * 0x100 + d);
}

} // verus!
