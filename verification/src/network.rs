//! IPv4 networks in CIDR form: an address together with a prefix length.
//!
//! Reading and writing the CIDR text and stepping through a network's
//! addresses are done by the `ipnetwork` crate; the items that call it state
//! what this crate relies on.

use vstd::prelude::*;
use crate::ipv4::Ipv4Address;

verus! {

/// The largest prefix length of an IPv4 network.
pub const MAX_PREFIX: u8 = 32;

/// The longest prefix length that still leaves room for hosts between the
/// network's base and its broadcast address.
pub const LONGEST_PREFIX_WITH_HOSTS: u8 = 30;

/// The error type of `ipnetwork`, carried through unopened.
#[verifier::external_type_specification]
#[verifier::external_body]
pub struct ExIpNetworkError(ipnetwork::IpNetworkError);

/// What `ipnetwork` reads out of a CIDR text: the address as a number and the
/// prefix length, or nothing where it rejects the text.
pub uninterp spec fn cidr_of_text(text: Seq<char>) -> Option<(u32, u8)>;

/// The text that `ipnetwork` writes for the network with address `addr` and
/// prefix length `prefix`.
pub uninterp spec fn text_of_cidr(addr: u32, prefix: u8) -> Seq<char>;

/// An IPv4 address with the prefix length of the network it lies in, as in
/// `10.0.0.5/24`. The address is kept as given, host bits included.
#[derive(Clone, Copy, Debug, PartialEq, Eq, Hash, Structural)]
pub struct Ipv4Network {
    addr: Ipv4Address,
    prefix: u8,
}

/// The netmask of a prefix length: that many leading one bits.
pub open spec fn netmask(prefix: u8) -> u32 {
    !((0xffff_ffffu64 >> prefix) as u32)
}

/// The lowest address of the network that `addr` lies in.
pub open spec fn network_base(addr: u32, prefix: u8) -> u32 {
    addr & netmask(prefix)
}

/// How many addresses a network of this prefix length spans.
pub open spec fn network_size(prefix: u8) -> u64 {
    0x1_0000_0000u64 >> prefix
}

/// The `n`-th address of the network, counted from its base, if the network
/// is that large.
pub open spec fn nth_address(addr: u32, prefix: u8, n: u32) -> Option<u32> {
    if n < network_size(prefix) {
        Some((network_base(addr, prefix) + n) as u32)
    } else {
        None
    }
}

/// Calls `<ipnetwork::Ipv4Network as FromStr>::from_str` and takes address
/// and prefix length out of what it returns, with `Ipv4Network::ip` and
/// `Ipv4Network::prefix`. Not proved, but taken from the crate: that the
/// outcome depends on the text alone, which is what gives it the name
/// `cidr_of_text`, and that an accepted prefix length is at most 32, as
/// `Ipv4Network::new` checks.
#[verifier::external_body]
fn cidr_from_text(text: &str) -> (parsed: Result<(u32, u8), ipnetwork::IpNetworkError>)
    ensures
        parsed matches Ok(pair) ==> cidr_of_text(text@) == Some(pair) && pair.1 <= MAX_PREFIX,
        parsed is Err ==> cidr_of_text(text@) is None,
{
    match text.parse::<ipnetwork::Ipv4Network>() {
        Ok(net) => Ok((net.ip().into(), net.prefix())),
        Err(e) => Err(e),
    }
}

/// Calls `<ipnetwork::Ipv4Network as Display>::fmt`, through `format!`, on
/// the network that `Ipv4Network::new` makes of address and prefix length.
/// Not proved, but taken from the crate: that the text depends on these two
/// alone, which is what gives it the name `text_of_cidr`.
#[verifier::external_body]
fn cidr_to_text(addr: u32, prefix: u8) -> (text: String)
    requires
        prefix <= MAX_PREFIX,
    ensures
        text@ == text_of_cidr(addr, prefix),
{
    match ipnetwork::Ipv4Network::new(addr.into(), prefix) {
        Ok(net) => format!("{}", net),
        Err(_) => String::new(),
    }
}

/// Calls `ipnetwork::Ipv4Network::nth` on the network that
/// `Ipv4Network::new` makes of address and prefix length. Not proved, but
/// taken from the crate: that the result is the network's base address plus
/// `n` when `n` is below the network's size, and nothing otherwise. A prefix
/// length of zero is left out, because the crate computes the size, then two
/// to the power of 32, in 32 bits.
#[verifier::external_body]
fn cidr_nth(addr: u32, prefix: u8, n: u32) -> (found: Option<u32>)
    requires
        1 <= prefix <= MAX_PREFIX,
    ensures
        found == nth_address(addr, prefix, n),
{
    match ipnetwork::Ipv4Network::new(addr.into(), prefix) {
        Ok(net) => match net.nth(n) {
            Some(ip) => Some(ip.into()),
            None => None,
        },
        Err(_) => None,
    }
}

impl Ipv4Network {
    #[verifier::type_invariant]
    spec fn prefix_in_range(self) -> bool {
        self.prefix <= MAX_PREFIX
    }

    /// The address that the network was made from.
    pub closed spec fn spec_ip(&self) -> Ipv4Address {
        self.addr
    }

    /// The prefix length.
    pub closed spec fn spec_prefix(&self) -> u8 {
        self.prefix
    }

    /// The network with this address and prefix length.
    pub closed spec fn spec_new(addr: Ipv4Address, prefix: u8) -> Ipv4Network {
        Ipv4Network { addr, prefix }
    }

    /// Whether the value is a network at all: its prefix length is at most 32.
    /// Every value that executable code holds is.
    pub open spec fn wf(self) -> bool {
        self.spec_prefix() <= MAX_PREFIX
    }

    /// The network that a CIDR text denotes, if `ipnetwork` accepts the text.
    pub open spec fn spec_parse(text: Seq<char>) -> Option<Ipv4Network> {
        match cidr_of_text(text) {
            Some((bits, prefix)) => Some(Self::spec_new(Ipv4Address { bits }, prefix)),
            None => None,
        }
    }

    /// The address at offset `n` from the network's base, if the network is
    /// that large.
    pub open spec fn spec_nth(self, n: u32) -> Option<Ipv4Address> {
        match nth_address(self.spec_ip().bits, self.spec_prefix(), n) {
            Some(bits) => Some(Ipv4Address { bits }),
            None => None,
        }
    }

    /// The address right after the network's base, which is where a gateway
    /// is looked for when none is named. Networks of prefix length 31 and 32
    /// have no host range and so no such address.
    pub open spec fn spec_first_host(self) -> Option<Ipv4Address> {
        if self.spec_prefix() <= LONGEST_PREFIX_WITH_HOSTS {
            Some(Ipv4Address { bits: (network_base(self.spec_ip().bits, self.spec_prefix()) + 1) as u32 })
        } else {
            None
        }
    }

    /// A network is its address and its prefix length, and nothing more.
    pub proof fn lemma_fields(addr: Ipv4Address, prefix: u8)
        ensures
            Self::spec_new(addr, prefix).spec_ip() == addr,
            Self::spec_new(addr, prefix).spec_prefix() == prefix,
    {
    }

    /// Two networks with the same address and prefix length are the same.
    pub proof fn lemma_same_fields(self, other: Ipv4Network)
        requires
            self.spec_ip() == other.spec_ip(),
            self.spec_prefix() == other.spec_prefix(),
        ensures
            self == other,
    {
    }

    /// Pairs an address with a prefix length; refuses a length above 32.
    pub fn new(addr: Ipv4Address, prefix: u8) -> (net: Option<Ipv4Network>)
        ensures
            net == (if prefix <= MAX_PREFIX {
                Some(Self::spec_new(addr, prefix))
            } else {
                None
            }),
    {
        if prefix > MAX_PREFIX {
            None
        } else {
            Some(Ipv4Network { addr, prefix })
        }
    }

    /// The network that every address lies in, `0.0.0.0/0`: the destination
    /// of the default route.
    pub fn default_route() -> (net: Ipv4Network)
        ensures
            net == Self::spec_new(Ipv4Address { bits: 0 }, 0),
    {
        Ipv4Network { addr: Ipv4Address { bits: 0 }, prefix: 0 }
    }

    /// Reads a network in CIDR notation, such as `10.0.0.5/24`. Address and
    /// prefix length come out as written: nothing is masked away.
    pub fn parse(text: &str) -> (net: Option<Ipv4Network>)
        ensures
            net == Self::spec_parse(text@),
            net matches Some(n) ==> n.wf(),
    {
        match cidr_from_text(text) {
            Ok((bits, prefix)) => Some(Ipv4Network { addr: Ipv4Address { bits }, prefix }),
            Err(_) => None,
        }
    }

    /// The address that the network was made from.
    #[verifier::when_used_as_spec(spec_ip)]
    pub fn ip(&self) -> (addr: Ipv4Address)
        ensures
            addr == self.spec_ip(),
    {
        self.addr
    }

    /// The prefix length, at most 32.
    #[verifier::when_used_as_spec(spec_prefix)]
    pub fn prefix(&self) -> (len: u8)
        ensures
            len == self.spec_prefix(),
            len <= MAX_PREFIX,
    {
        proof {
            use_type_invariant(self);
        }
        self.prefix
    }

    /// The address at offset `n` from the network's base, or `None` where the
    /// network has fewer than `n + 1` addresses.
    pub fn nth(&self, n: u32) -> (found: Option<Ipv4Address>)
        ensures
            found == self.spec_nth(n),
    {
        proof {
            use_type_invariant(self);
        }
        if self.prefix == 0 {
            proof {
                lemma_whole_space(self.addr.bits, n);
            }
            Some(Ipv4Address { bits: n })
        } else {
            match cidr_nth(self.addr.bits, self.prefix, n) {
                Some(bits) => Some(Ipv4Address { bits }),
                None => None,
            }
        }
    }

    /// The address right after the network's base, or `None` where the
    /// prefix length leaves no host range.
    pub fn first_host(&self) -> (host: Option<Ipv4Address>)
        ensures
            host == self.spec_first_host(),
            self.spec_prefix() <= LONGEST_PREFIX_WITH_HOSTS ==> host == self.spec_nth(1),
    {
        proof {
            use_type_invariant(self);
        }
        if self.prefix > LONGEST_PREFIX_WITH_HOSTS {
            None
        } else {
            proof {
                lemma_second_address(self.addr.bits, self.prefix);
            }
            self.nth(1)
        }
    }

    /// The network in CIDR notation.
    pub fn to_text(&self) -> (text: String)
        ensures
            text@ == text_of_cidr(self.spec_ip().bits, self.spec_prefix()),
    {
        proof {
            use_type_invariant(self);
        }
        cidr_to_text(self.addr.bits, self.prefix)
    }
}

/// A network of prefix length 30 or less holds a second address, one above
/// its base.
pub proof fn lemma_second_address(addr: u32, prefix: u8)
    requires
        prefix <= LONGEST_PREFIX_WITH_HOSTS,
    ensures
        network_base(addr, prefix) + 1 <= u32::MAX,
        nth_address(addr, prefix, 1) == Some((network_base(addr, prefix) + 1) as u32),
{
    assert(1 < (0x1_0000_0000u64 >> prefix)) by (bit_vector)
        requires
            prefix <= 30,
    ;
    assert(addr & !((0xffff_ffffu64 >> prefix) as u32) <= 0xffff_fffc) by (bit_vector)
        requires
            prefix <= 30,
    ;
}

/// With prefix length zero the network is the whole address space: its base
/// is `0.0.0.0` and every offset lies inside.
pub proof fn lemma_whole_space(addr: u32, n: u32)
    ensures
        nth_address(addr, 0, n) == Some(n),
{
    assert(addr & !((0xffff_ffffu64 >> 0u8) as u32) == 0) by (bit_vector);
    assert(0x1_0000_0000u64 >> 0u8 == 0x1_0000_0000u64) by (bit_vector);
}

} // verus!
