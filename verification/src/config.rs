//! Resolving the command line and the system's interfaces into the network
//! parameters that the server runs with.
//!
//! Every parameter resolves in the same order: the value given on the command
//! line if there is one, else a default computed from the interface, else an
//! error. A value that was given is never replaced by a default, not even
//! when it is invalid.

use vstd::prelude::*;
use crate::cli::DEFAULT_PORT_TEXT;
use crate::error::ConfigError;
use crate::ipv4::{spec_parse_ipv4, IpAddress, Ipv4Address};
use crate::network::{
    cidr_of_text, lemma_second_address, network_base, text_of_cidr, Ipv4Network,
    LONGEST_PREFIX_WITH_HOSTS,
};
use crate::text::{bounded_decimal, chars_of, decimal_value, parse_decimal};
use vstd::string::StringExecFns;

verus! {

/// The port that the server binds when none is given.
pub const DEFAULT_PORT: u16 = 12221;

/// The prefix length assumed for an address taken from the interface.
pub const DEFAULT_PREFIX: u8 = 24;

/// What the resolver needs to know of one network interface of the system.
#[derive(Debug)]
pub struct NetworkInterface {
    /// The interface's name, such as `eth0`.
    pub name: String,
    /// The addresses assigned to it, in the order the system lists them.
    pub ips: Vec<IpAddress>,
    /// Whether the network stack's compatibility check accepts it.
    pub adoptable: bool,
}

/// The values found on the command line, still as text.
#[derive(Debug)]
pub struct ArgumentParser {
    /// The interface name; required.
    pub iface: String,
    /// The source network in CIDR notation, if given.
    pub src_net: Option<String>,
    /// The source port, if given.
    pub src_port: Option<String>,
    /// The gateway address, if given.
    pub gw: Option<String>,
}

/// The resolved configuration: all that the stack and the socket need.
#[derive(Debug)]
pub struct NetworkParameters {
    /// The interface that the stack attaches to.
    pub interface_name: String,
    /// The address that the server answers on, with its prefix length.
    pub source_network: Ipv4Network,
    /// The UDP port that the server answers on.
    pub source_port: u16,
    /// Where packets for other networks are sent.
    pub gateway: Ipv4Address,
}

/// Size in bytes of each of the two buffers of the link-layer channel.
pub const CHANNEL_BUFFER_SIZE: usize = 65536;

/// How the link-layer channel is to be opened.
#[derive(Debug)]
pub struct ChannelRequest {
    /// The interface to open the channel on.
    pub interface_name: String,
    /// Size of the buffer that packets are read into.
    pub read_buffer_size: usize,
    /// Size of the buffer that packets are written from.
    pub write_buffer_size: usize,
}

/// What came of opening the link-layer channel.
#[derive(Clone, Copy, Debug, PartialEq, Eq, Hash, Structural)]
pub enum ChannelOutcome {
    /// An Ethernet channel: the one kind that the stack can use.
    Ethernet,
    /// A channel of some other kind.
    Unsupported,
    /// No channel: the system refused.
    Failed,
}

impl ChannelOutcome {
    /// Whether the server can go on with what was opened.
    pub fn check(self) -> (usable: Result<(), ConfigError>)
        ensures
            self == ChannelOutcome::Ethernet ==> usable == Ok::<(), ConfigError>(()),
            self != ChannelOutcome::Ethernet ==> usable == Err::<(), ConfigError>(
                ConfigError::ChannelUnavailable,
            ),
    {
        match self {
            ChannelOutcome::Ethernet => Ok(()),
            _ => Err(ConfigError::ChannelUnavailable),
        }
    }
}

impl NetworkParameters {
    /// The address and port that the UDP socket binds.
    pub fn bind_address(&self) -> (bound: (Ipv4Address, u16))
        ensures
            bound == (self.source_network.spec_ip(), self.source_port),
    {
        (self.source_network.ip(), self.source_port)
    }
}

/// Whether `i` is the first position in `interfaces` of an interface called
/// `name`.
pub open spec fn is_first_named(interfaces: Seq<NetworkInterface>, name: Seq<char>, i: int) -> bool {
    &&& 0 <= i < interfaces.len()
    &&& interfaces[i].name@ == name
    &&& forall|j: int| 0 <= j < i ==> (#[trigger] interfaces[j]).name@ != name
}

/// Whether `i` is the first position in `ips` of an IPv4 address.
pub open spec fn is_first_ipv4(ips: Seq<IpAddress>, i: int) -> bool {
    &&& 0 <= i < ips.len()
    &&& ips[i] is V4
    &&& forall|j: int| 0 <= j < i ==> !(#[trigger] ips[j] is V4)
}

/// The first IPv4 address among `ips`, if there is any.
pub open spec fn first_ipv4(ips: Seq<IpAddress>) -> Option<Ipv4Address> {
    if exists|i: int| is_first_ipv4(ips, i) {
        Some(ips[choose|i: int| is_first_ipv4(ips, i)]->V4_0)
    } else {
        None
    }
}

/// Finds the first IPv4 address among `ips`.
pub fn find_first_ipv4(ips: &Vec<IpAddress>) -> (found: Option<Ipv4Address>)
    ensures
        found == first_ipv4(ips@),
{
    let mut i: usize = 0;
    while i < ips.len()
        invariant
            i <= ips.len(),
            forall|j: int| 0 <= j < i ==> !(#[trigger] ips@[j] is V4),
        decreases ips.len() - i,
    {
        if let IpAddress::V4(addr) = ips[i] {
            assert(is_first_ipv4(ips@, i as int));
            return Some(addr);
        }
        i = i + 1;
    }
    None
}

/// What becomes of a CIDR that was given, once it has been read: the network
/// it denotes, or an error where it denotes none.
pub open spec fn spec_accept_cidr(parsed: Option<Ipv4Network>) -> Result<Ipv4Network, ConfigError> {
    match parsed {
        Some(net) => Ok(net),
        None => Err(ConfigError::InvalidCidr),
    }
}

/// The source network that an interface's addresses give: the first IPv4
/// address among them, with a prefix length of 24.
pub open spec fn spec_src_net_of_addresses(ips: Seq<IpAddress>) -> Result<Ipv4Network, ConfigError> {
    match first_ipv4(ips) {
        Some(addr) => Ok(Ipv4Network::spec_new(addr, DEFAULT_PREFIX)),
        None => Err(ConfigError::NoIpv4OnInterface),
    }
}

/// The gateway looked for inside a source network: the address right after
/// the network's base, or an error where the network has no host range.
pub open spec fn spec_guess_gateway(net: Ipv4Network) -> Result<Ipv4Address, ConfigError> {
    match net.spec_first_host() {
        Some(addr) => Ok(addr),
        None => Err(ConfigError::CannotGuessGateway(net)),
    }
}

/// Takes the outcome of reading a CIDR that was given on the command line.
pub fn accept_cidr(parsed: Option<Ipv4Network>) -> (net: Result<Ipv4Network, ConfigError>)
    ensures
        net == spec_accept_cidr(parsed),
{
    match parsed {
        Some(net) => Ok(net),
        None => Err(ConfigError::InvalidCidr),
    }
}

/// Makes the source network out of an interface's addresses.
pub fn src_net_of_addresses(ips: &Vec<IpAddress>) -> (net: Result<Ipv4Network, ConfigError>)
    ensures
        net == spec_src_net_of_addresses(ips@),
        net matches Ok(n) ==> n.spec_prefix() == DEFAULT_PREFIX && Some(n.spec_ip()) == first_ipv4(
            ips@,
        ),
{
    match find_first_ipv4(ips) {
        Some(addr) => {
            proof {
                Ipv4Network::lemma_fields(addr, DEFAULT_PREFIX);
            }
            Ok(Ipv4Network::new(addr, DEFAULT_PREFIX).unwrap())
        },
        None => Err(ConfigError::NoIpv4OnInterface),
    }
}

/// Looks for a gateway inside the source network.
pub fn guess_gateway(net: Ipv4Network) -> (gw: Result<Ipv4Address, ConfigError>)
    ensures
        gw == spec_guess_gateway(net),
{
    match net.first_host() {
        Some(addr) => Ok(addr),
        None => Err(ConfigError::CannotGuessGateway(net)),
    }
}

/// Words the failure to find a gateway inside the network that is written
/// `network`.
pub fn gateway_guess_message(network: &str) -> (message: String)
    ensures
        message@ == "Could not guess a default gateway inside "@ + network@,
{
    "Could not guess a default gateway inside ".to_owned().concat(network)
}

/// The digits of a port text: the text itself, less one leading plus sign.
pub open spec fn port_digits(text: Seq<char>) -> Seq<char> {
    if text.len() > 0 && text[0] == '+' {
        text.subrange(1, text.len() as int)
    } else {
        text
    }
}

/// The port that a text denotes: decimal digits, after an optional plus sign,
/// that spell a number of at most 65535.
pub open spec fn spec_parse_port(text: Seq<char>) -> Option<u16> {
    match bounded_decimal(port_digits(text), u16::MAX as int) {
        Some(value) => Some(value as u16),
        None => None,
    }
}

/// Reads a port number.
pub fn parse_port(text: &str) -> (port: Option<u16>)
    ensures
        port == spec_parse_port(text@),
{
    let chars = chars_of(text);
    let from: usize = if chars.len() > 0 && chars[0] == '+' {
        1
    } else {
        0
    };
    assert(chars@.subrange(from as int, chars.len() as int) =~= port_digits(text@));
    match parse_decimal(&chars, from, chars.len(), 65535) {
        Some(value) => Some(value as u16),
        None => None,
    }
}

/// The port that the command line shows as its default is the port that the
/// resolver falls back to.
pub proof fn lemma_default_port_text()
    ensures
        spec_parse_port(DEFAULT_PORT_TEXT@) == Some(DEFAULT_PORT),
{
    reveal_strlit("12221");
    let text = DEFAULT_PORT_TEXT@;
    assert(port_digits(text) == text);
    let d4 = text.drop_last();
    let d3 = d4.drop_last();
    let d2 = d3.drop_last();
    let d1 = d2.drop_last();
    assert(d1.drop_last().len() == 0);
    assert(decimal_value(d1.drop_last()) == 0);
    assert(d1.last() == '1' && d2.last() == '2' && d3.last() == '2' && d4.last() == '2'
        && text.last() == '1');
    assert(decimal_value(d1) == 1);
    assert(decimal_value(d2) == 12);
    assert(decimal_value(d3) == 122);
    assert(decimal_value(d4) == 1222);
    assert(decimal_value(text) == 12221);
}

/// A source network given on the command line comes through resolution
/// untouched: the resolved network has exactly the address and the prefix
/// length that the CIDR text denotes, whatever the interfaces look like, and
/// a text that denotes none is an error.
pub proof fn lemma_given_cidr_is_kept(
    parser: ArgumentParser,
    interfaces: Seq<NetworkInterface>,
    text: String,
)
    requires
        parser.src_net == Some(text),
    ensures
        match cidr_of_text(text@) {
            Some((bits, prefix)) => parser.spec_get_src_net(interfaces) matches Ok(net)
                && net.spec_ip().bits == bits && net.spec_prefix() == prefix,
            None => parser.spec_get_src_net(interfaces) == Err::<Ipv4Network, ConfigError>(
                ConfigError::InvalidCidr,
            ),
        },
{
    match cidr_of_text(text@) {
        Some((bits, prefix)) => {
            Ipv4Network::lemma_fields(Ipv4Address { bits }, prefix);
        },
        None => {},
    }
}

/// Without a source network on the command line, the resolved network is the
/// selected interface's first IPv4 address, in the order the system lists
/// its addresses, with a prefix length of 24.
pub proof fn lemma_default_network_is_first_ipv4(
    parser: ArgumentParser,
    interfaces: Seq<NetworkInterface>,
    i: int,
    k: int,
)
    requires
        parser.src_net is None,
        parser.spec_get_iface(interfaces) == Ok::<int, ConfigError>(i),
        is_first_ipv4(interfaces[i].ips@, k),
    ensures
        parser.spec_get_src_net(interfaces) matches Ok(net) && net.spec_ip()
            == interfaces[i].ips@[k]->V4_0 && net.spec_prefix() == DEFAULT_PREFIX,
{
    let ips = interfaces[i].ips@;
    let chosen = choose|c: int| is_first_ipv4(ips, c);
    assert(chosen == k);
    Ipv4Network::lemma_fields(ips[k]->V4_0, DEFAULT_PREFIX);
}

/// Without a gateway on the command line, the resolved gateway is the second
/// address of the resolved source network, one above the network's base; a
/// network of prefix length 31 or 32 has no such host address, and
/// resolution fails.
pub proof fn lemma_default_gateway(
    parser: ArgumentParser,
    interfaces: Seq<NetworkInterface>,
    net: Ipv4Network,
)
    requires
        parser.gw is None,
        parser.spec_get_src_net(interfaces) == Ok::<Ipv4Network, ConfigError>(net),
        net.wf(),
    ensures
        net.spec_prefix() <= LONGEST_PREFIX_WITH_HOSTS ==> (parser.spec_get_gw(
            interfaces,
        ) matches Ok(gw) && gw.bits == network_base(net.spec_ip().bits, net.spec_prefix()) + 1
            && Some(gw) == net.spec_nth(1)),
        net.spec_prefix() > LONGEST_PREFIX_WITH_HOSTS ==> parser.spec_get_gw(interfaces) == Err::<
            Ipv4Address,
            ConfigError,
        >(ConfigError::CannotGuessGateway(net)),
{
    if net.spec_prefix() <= LONGEST_PREFIX_WITH_HOSTS {
        lemma_second_address(net.spec_ip().bits, net.spec_prefix());
    }
}

/// Without a port on the command line, the resolved port is 12221.
pub proof fn lemma_default_port(parser: ArgumentParser)
    requires
        parser.src_port is None,
    ensures
        parser.spec_get_src_port() == Ok::<u16, ConfigError>(12221u16),
{
}

/// A value given on the command line is never replaced by a default: when
/// the text does not parse, resolution fails, whatever the interface could
/// have offered.
pub proof fn lemma_no_silent_fallback(parser: ArgumentParser, interfaces: Seq<NetworkInterface>)
    ensures
        parser.src_net matches Some(text) ==> (cidr_of_text(text@) is None
            ==> parser.spec_get_src_net(interfaces) == Err::<Ipv4Network, ConfigError>(
            ConfigError::InvalidCidr,
        )),
        parser.gw matches Some(text) ==> (spec_parse_ipv4(text@) is None ==> parser.spec_get_gw(
            interfaces,
        ) == Err::<Ipv4Address, ConfigError>(ConfigError::InvalidGateway)),
        parser.src_port matches Some(text) ==> (spec_parse_port(text@) is None
            ==> parser.spec_get_src_port() == Err::<u16, ConfigError>(ConfigError::InvalidPort)),
{
}

impl ArgumentParser {
    /// Which interface the arguments select: the position of the first one
    /// that carries the requested name, provided that the stack can adopt
    /// it.
    pub open spec fn spec_get_iface(&self, interfaces: Seq<NetworkInterface>) -> Result<
        int,
        ConfigError,
    > {
        if exists|i: int| is_first_named(interfaces, self.iface@, i) {
            let i = choose|i: int| is_first_named(interfaces, self.iface@, i);
            if interfaces[i].adoptable {
                Ok(i)
            } else {
                Err(ConfigError::InterfaceIncompatible)
            }
        } else {
            Err(ConfigError::InterfaceNotFound)
        }
    }

    /// The source network that the arguments resolve to: the CIDR given, or
    /// else the interface's first IPv4 address with a prefix length of 24.
    pub open spec fn spec_get_src_net(&self, interfaces: Seq<NetworkInterface>) -> Result<
        Ipv4Network,
        ConfigError,
    > {
        match self.src_net {
            Some(text) => spec_accept_cidr(Ipv4Network::spec_parse(text@)),
            None => match self.spec_get_iface(interfaces) {
                Ok(i) => spec_src_net_of_addresses(interfaces[i].ips@),
                Err(e) => Err(e),
            },
        }
    }

    /// The gateway that the arguments resolve to: the address given, or else
    /// the one right after the base of the source network.
    pub open spec fn spec_get_gw(&self, interfaces: Seq<NetworkInterface>) -> Result<
        Ipv4Address,
        ConfigError,
    > {
        match self.gw {
            Some(text) => match spec_parse_ipv4(text@) {
                Some(addr) => Ok(addr),
                None => Err(ConfigError::InvalidGateway),
            },
            None => match self.spec_get_src_net(interfaces) {
                Ok(net) => spec_guess_gateway(net),
                Err(e) => Err(e),
            },
        }
    }

    /// The port that the arguments resolve to: the one given, or else 12221.
    pub open spec fn spec_get_src_port(&self) -> Result<u16, ConfigError> {
        match self.src_port {
            Some(text) => match spec_parse_port(text@) {
                Some(port) => Ok(port),
                None => Err(ConfigError::InvalidPort),
            },
            None => Ok(DEFAULT_PORT),
        }
    }

    /// Whether `params` is what the arguments resolve to, or `error` the
    /// reason why they do not resolve. The parameters are looked at in a
    /// fixed order, and the first that fails gives the error: interface,
    /// source network, gateway, port.
    pub open spec fn spec_resolve(&self, interfaces: Seq<NetworkInterface>) -> Result<
        (Seq<char>, Ipv4Network, u16, Ipv4Address),
        ConfigError,
    > {
        match self.spec_get_iface(interfaces) {
            Err(e) => Err(e),
            Ok(_) => match self.spec_get_src_net(interfaces) {
                Err(e) => Err(e),
                Ok(net) => match self.spec_get_gw(interfaces) {
                    Err(e) => Err(e),
                    Ok(gw) => match self.spec_get_src_port() {
                        Err(e) => Err(e),
                        Ok(port) => Ok((self.iface@, net, port, gw)),
                    },
                },
            },
        }
    }

    /// The message that tells the operator of `error`.
    pub open spec fn spec_error_message(&self, error: ConfigError) -> Seq<char> {
        match error {
            ConfigError::MissingInterface => "No network interface given"@,
            ConfigError::InterfaceNotFound => "Found no interface named "@ + self.iface@,
            ConfigError::InterfaceIncompatible => "Interface "@ + self.iface@
                + " can't be used with rips"@,
            ConfigError::InvalidCidr => "Invalid CIDR"@,
            ConfigError::NoIpv4OnInterface => "No IPv4 to use on given interface"@,
            ConfigError::InvalidPort => "Unable to parse source port"@,
            ConfigError::InvalidGateway => "Unable to parse gateway ip"@,
            ConfigError::CannotGuessGateway(net) => "Could not guess a default gateway inside "@
                + text_of_cidr(net.spec_ip().bits, net.spec_prefix()),
            ConfigError::ChannelUnavailable => "Unable to open network channel on "@ + self.iface@,
        }
    }

    /// Takes up the values found on the command line. The interface name is
    /// the one value that must be there.
    pub fn new(
        iface: Option<String>,
        src_net: Option<String>,
        src_port: Option<String>,
        gw: Option<String>,
    ) -> (parser: Result<ArgumentParser, ConfigError>)
        ensures
            iface is None ==> parser == Err::<ArgumentParser, ConfigError>(
                ConfigError::MissingInterface,
            ),
            iface matches Some(name) ==> parser == Ok::<ArgumentParser, ConfigError>(
                ArgumentParser { iface: name, src_net, src_port, gw },
            ),
    {
        match iface {
            Some(name) => Ok(ArgumentParser { iface: name, src_net, src_port, gw }),
            None => Err(ConfigError::MissingInterface),
        }
    }

    /// Picks the interface to run on. The first interface with the requested
    /// name decides: it is returned if the stack can adopt it, and is an
    /// error if not, whatever comes after it in the list.
    pub fn get_iface<'a>(&self, interfaces: &'a Vec<NetworkInterface>) -> (found: Result<
        &'a NetworkInterface,
        ConfigError,
    >)
        ensures
            match self.spec_get_iface(interfaces@) {
                Ok(i) => found == Ok::<&NetworkInterface, ConfigError>(&interfaces@[i]),
                Err(e) => found == Err::<&NetworkInterface, ConfigError>(e),
            },
    {
        let mut i: usize = 0;
        while i < interfaces.len()
            invariant
                i <= interfaces.len(),
                forall|j: int| 0 <= j < i ==> (#[trigger] interfaces@[j]).name@ != self.iface@,
            decreases interfaces.len() - i,
        {
            let candidate = &interfaces[i];
            if candidate.name == self.iface {
                assert(is_first_named(interfaces@, self.iface@, i as int));
                if candidate.adoptable {
                    return Ok(candidate);
                } else {
                    return Err(ConfigError::InterfaceIncompatible);
                }
            }
            i = i + 1;
        }
        Err(ConfigError::InterfaceNotFound)
    }

    /// Resolves the source network. A CIDR given on the command line is
    /// taken as written or refused; the interface is consulted only when
    /// none was given.
    pub fn get_src_net(&self, interfaces: &Vec<NetworkInterface>) -> (net: Result<
        Ipv4Network,
        ConfigError,
    >)
        ensures
            net == self.spec_get_src_net(interfaces@),
            net matches Ok(n) ==> n.wf(),
    {
        match &self.src_net {
            Some(text) => accept_cidr(Ipv4Network::parse(text.as_str())),
            None => match self.get_iface(interfaces) {
                Ok(iface) => src_net_of_addresses(&iface.ips),
                Err(e) => Err(e),
            },
        }
    }

    /// Resolves the source port.
    pub fn get_src_port(&self) -> (port: Result<u16, ConfigError>)
        ensures
            port == self.spec_get_src_port(),
    {
        match &self.src_port {
            Some(text) => match parse_port(text.as_str()) {
                Some(port) => Ok(port),
                None => Err(ConfigError::InvalidPort),
            },
            None => Ok(DEFAULT_PORT),
        }
    }

    /// Resolves the gateway. An address given on the command line is taken
    /// as written or refused; the source network is consulted only when none
    /// was given.
    pub fn get_gw(&self, interfaces: &Vec<NetworkInterface>) -> (gw: Result<Ipv4Address, ConfigError>)
        ensures
            gw == self.spec_get_gw(interfaces@),
    {
        match &self.gw {
            Some(text) => match Ipv4Address::parse(text.as_str()) {
                Some(addr) => Ok(addr),
                None => Err(ConfigError::InvalidGateway),
            },
            None => match self.get_src_net(interfaces) {
                Ok(net) => guess_gateway(net),
                Err(e) => Err(e),
            },
        }
    }

    /// Says how the link-layer channel is to be opened: on the selected
    /// interface, with buffers of 64 KiB each way.
    pub fn create_channel(&self, interfaces: &Vec<NetworkInterface>) -> (request: Result<
        ChannelRequest,
        ConfigError,
    >)
        ensures
            match self.spec_get_iface(interfaces@) {
                Ok(i) => request matches Ok(r) && r.interface_name@ == self.iface@
                    && r.read_buffer_size == CHANNEL_BUFFER_SIZE && r.write_buffer_size
                    == CHANNEL_BUFFER_SIZE,
                Err(e) => request matches Err(got) && got == e,
            },
    {
        match self.get_iface(interfaces) {
            Ok(iface) => Ok(
                ChannelRequest {
                    interface_name: iface.name.clone(),
                    read_buffer_size: CHANNEL_BUFFER_SIZE,
                    write_buffer_size: CHANNEL_BUFFER_SIZE,
                },
            ),
            Err(e) => Err(e),
        }
    }

    /// Resolves all four parameters, in the order interface, source network,
    /// gateway, port, and stops at the first that fails.
    pub fn resolve(&self, interfaces: &Vec<NetworkInterface>) -> (resolved: Result<
        NetworkParameters,
        ConfigError,
    >)
        ensures
            match self.spec_resolve(interfaces@) {
                Ok((name, net, port, gw)) => resolved matches Ok(p) && p.interface_name@ == name
                    && p.source_network == net && p.source_port == port && p.gateway == gw,
                Err(e) => resolved matches Err(got) && got == e,
            },
    {
        let iface = match self.get_iface(interfaces) {
            Ok(iface) => iface,
            Err(e) => {
                return Err(e);
            },
        };
        let source_network = match self.get_src_net(interfaces) {
            Ok(net) => net,
            Err(e) => {
                return Err(e);
            },
        };
        let gateway = match self.get_gw(interfaces) {
            Ok(gw) => gw,
            Err(e) => {
                return Err(e);
            },
        };
        let source_port = match self.get_src_port() {
            Ok(port) => port,
            Err(e) => {
                return Err(e);
            },
        };
        Ok(
            NetworkParameters {
                interface_name: iface.name.clone(),
                source_network,
                source_port,
                gateway,
            },
        )
    }

    /// Words `error` for the operator.
    pub fn error_message(&self, error: ConfigError) -> (message: String)
        ensures
            message@ == self.spec_error_message(error),
    {
        match error {
            ConfigError::MissingInterface => "No network interface given".to_owned(),
            ConfigError::InterfaceNotFound => "Found no interface named ".to_owned().concat(
                self.iface.as_str(),
            ),
            ConfigError::InterfaceIncompatible => "Interface ".to_owned().concat(
                self.iface.as_str(),
            ).concat(" can't be used with rips"),
            ConfigError::InvalidCidr => "Invalid CIDR".to_owned(),
            ConfigError::NoIpv4OnInterface => "No IPv4 to use on given interface".to_owned(),
            ConfigError::InvalidPort => "Unable to parse source port".to_owned(),
            ConfigError::InvalidGateway => "Unable to parse gateway ip".to_owned(),
            ConfigError::CannotGuessGateway(net) => gateway_guess_message(net.to_text().as_str()),
            ConfigError::ChannelUnavailable => "Unable to open network channel on ".to_owned().concat(
                self.iface.as_str(),
            ),
        }
    }

    /// The line that reports `error` on standard error, before the usage
    /// text: `ERROR: `, the message, and a line break.
    pub fn print_error(&self, error: ConfigError) -> (report: String)
        ensures
            report@ == "ERROR: "@ + self.spec_error_message(error) + "\n"@,
    {
        let message = self.error_message(error);
        "ERROR: ".to_owned().concat(message.as_str()).concat("\n")
    }
}

} // verus!
