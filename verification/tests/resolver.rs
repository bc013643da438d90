use udp_ping_server::cli::{create_app, ARG_GW, ARG_IFACE, ARG_SRC_NET, ARG_SRC_PORT, DEFAULT_PORT_TEXT};
use udp_ping_server::config::{
    find_first_ipv4, parse_port, ArgumentParser, ChannelOutcome, NetworkInterface,
    CHANNEL_BUFFER_SIZE, DEFAULT_PORT, DEFAULT_PREFIX,
};
use udp_ping_server::error::{ConfigError, FAILURE_EXIT_CODE};
use udp_ping_server::ipv4::{IpAddress, Ipv4Address};
use udp_ping_server::network::Ipv4Network;

fn v4(a: u8, b: u8, c: u8, d: u8) -> Ipv4Address {
    Ipv4Address::from_octets(a, b, c, d)
}

fn net(a: u8, b: u8, c: u8, d: u8, prefix: u8) -> Ipv4Network {
    Ipv4Network::new(v4(a, b, c, d), prefix).unwrap()
}

fn iface(name: &str, ips: Vec<IpAddress>, adoptable: bool) -> NetworkInterface {
    NetworkInterface { name: name.to_string(), ips, adoptable }
}

fn args(name: &str, src_net: Option<&str>, src_port: Option<&str>, gw: Option<&str>) -> ArgumentParser {
    ArgumentParser::new(
        Some(name.to_string()),
        src_net.map(|s| s.to_string()),
        src_port.map(|s| s.to_string()),
        gw.map(|s| s.to_string()),
    )
    .unwrap()
}

fn system() -> Vec<NetworkInterface> {
    vec![
        iface("lo", vec![IpAddress::V4(v4(127, 0, 0, 1)), IpAddress::V6(1)], false),
        iface(
            "eth0",
            vec![
                IpAddress::V6(0xfe80_0000_0000_0000_0000_0000_0000_0001),
                IpAddress::V4(v4(192, 168, 1, 10)),
                IpAddress::V4(v4(192, 168, 1, 11)),
            ],
            true,
        ),
        iface("eth1", vec![IpAddress::V6(7)], true),
        iface("eth-test", vec![IpAddress::V4(v4(10, 0, 0, 5))], true),
        iface("tun0", vec![], true),
    ]
}

#[test]
fn new_requires_the_interface_name() {
    let missing = ArgumentParser::new(None, Some("10.0.0.5/24".to_string()), None, None);
    assert_eq!(missing.unwrap_err(), ConfigError::MissingInterface);
    let given = ArgumentParser::new(
        Some("eth0".to_string()),
        Some("10.0.0.5/24".to_string()),
        Some("80".to_string()),
        Some("10.0.0.1".to_string()),
    )
    .unwrap();
    assert_eq!(given.iface, "eth0");
    assert_eq!(given.src_net.as_deref(), Some("10.0.0.5/24"));
    assert_eq!(given.src_port.as_deref(), Some("80"));
    assert_eq!(given.gw.as_deref(), Some("10.0.0.1"));
}

#[test]
fn every_error_exits_with_status_one() {
    let all = [
        ConfigError::MissingInterface,
        ConfigError::InterfaceNotFound,
        ConfigError::InterfaceIncompatible,
        ConfigError::InvalidCidr,
        ConfigError::NoIpv4OnInterface,
        ConfigError::InvalidPort,
        ConfigError::InvalidGateway,
        ConfigError::CannotGuessGateway(net(10, 0, 0, 5, 32)),
        ConfigError::ChannelUnavailable,
    ];
    for e in all {
        assert_eq!(e.exit_code(), 1);
    }
    assert_eq!(FAILURE_EXIT_CODE, 1);
}

#[test]
fn get_iface_finds_by_exact_name() {
    let system = system();
    let found = args("eth0", None, None, None).get_iface(&system).unwrap();
    assert_eq!(found.name, "eth0");
    assert_eq!(found.ips.len(), 3);
    assert_eq!(args("eth", None, None, None).get_iface(&system).unwrap_err(), ConfigError::InterfaceNotFound);
    assert_eq!(args("ETH0", None, None, None).get_iface(&system).unwrap_err(), ConfigError::InterfaceNotFound);
    assert_eq!(args("eth0 ", None, None, None).get_iface(&system).unwrap_err(), ConfigError::InterfaceNotFound);
    assert_eq!(args("", None, None, None).get_iface(&system).unwrap_err(), ConfigError::InterfaceNotFound);
    assert_eq!(args("eth0", None, None, None).get_iface(&Vec::new()).unwrap_err(), ConfigError::InterfaceNotFound);
}

#[test]
fn get_iface_refuses_what_the_stack_cannot_adopt() {
    let system = system();
    assert_eq!(args("lo", None, None, None).get_iface(&system).unwrap_err(), ConfigError::InterfaceIncompatible);
}

#[test]
fn get_iface_goes_by_the_first_of_that_name() {
    let twice = vec![
        iface("eth0", vec![IpAddress::V4(v4(1, 1, 1, 1))], true),
        iface("eth0", vec![IpAddress::V4(v4(2, 2, 2, 2))], true),
    ];
    let found = args("eth0", None, None, None).get_iface(&twice).unwrap();
    assert_eq!(found.ips, vec![IpAddress::V4(v4(1, 1, 1, 1))]);
    let first_unusable = vec![
        iface("eth0", vec![IpAddress::V4(v4(1, 1, 1, 1))], false),
        iface("eth0", vec![IpAddress::V4(v4(2, 2, 2, 2))], true),
    ];
    assert_eq!(
        args("eth0", None, None, None).get_iface(&first_unusable).unwrap_err(),
        ConfigError::InterfaceIncompatible
    );
}

#[test]
fn first_ipv4_skips_other_families() {
    assert_eq!(find_first_ipv4(&vec![]), None);
    assert_eq!(find_first_ipv4(&vec![IpAddress::V6(1), IpAddress::V6(2)]), None);
    assert_eq!(
        find_first_ipv4(&vec![IpAddress::V6(1), IpAddress::V4(v4(9, 9, 9, 9)), IpAddress::V4(v4(8, 8, 8, 8))]),
        Some(v4(9, 9, 9, 9))
    );
    assert_eq!(find_first_ipv4(&vec![IpAddress::V4(v4(8, 8, 8, 8)), IpAddress::V6(1)]), Some(v4(8, 8, 8, 8)));
}

#[test]
fn src_net_given_is_taken_as_written() {
    let system = system();
    assert_eq!(args("eth0", Some("10.0.0.5/24"), None, None).get_src_net(&system), Ok(net(10, 0, 0, 5, 24)));
    assert_eq!(args("eth0", Some("172.16.9.1/12"), None, None).get_src_net(&system), Ok(net(172, 16, 9, 1, 12)));
    // the interface is not consulted when a CIDR is given
    assert_eq!(args("nope", Some("10.0.0.5/24"), None, None).get_src_net(&system), Ok(net(10, 0, 0, 5, 24)));
    assert_eq!(args("lo", Some("10.0.0.5/24"), None, None).get_src_net(&Vec::new()), Ok(net(10, 0, 0, 5, 24)));
}

#[test]
fn src_net_given_but_invalid_is_an_error() {
    let system = system();
    for text in ["", "eth0", "10.0.0.5/33", "10.0.0/24", "10.0.0.5/24/1"] {
        assert_eq!(
            args("eth0", Some(text), None, None).get_src_net(&system),
            Err(ConfigError::InvalidCidr),
            "{:?}",
            text
        );
    }
}

#[test]
fn src_net_defaults_to_first_ipv4_with_prefix_24() {
    let system = system();
    assert_eq!(args("eth0", None, None, None).get_src_net(&system), Ok(net(192, 168, 1, 10, 24)));
    assert_eq!(args("eth-test", None, None, None).get_src_net(&system), Ok(net(10, 0, 0, 5, 24)));
    assert_eq!(DEFAULT_PREFIX, 24);
}

#[test]
fn src_net_default_fails_without_ipv4_or_interface() {
    let system = system();
    assert_eq!(args("eth1", None, None, None).get_src_net(&system), Err(ConfigError::NoIpv4OnInterface));
    assert_eq!(args("tun0", None, None, None).get_src_net(&system), Err(ConfigError::NoIpv4OnInterface));
    assert_eq!(args("wlan0", None, None, None).get_src_net(&system), Err(ConfigError::InterfaceNotFound));
    assert_eq!(args("lo", None, None, None).get_src_net(&system), Err(ConfigError::InterfaceIncompatible));
}

#[test]
fn src_port_defaults_to_12221() {
    assert_eq!(args("eth0", None, None, None).get_src_port(), Ok(12221));
    assert_eq!(DEFAULT_PORT, 12221);
    assert_eq!(parse_port(DEFAULT_PORT_TEXT), Some(DEFAULT_PORT));
}

#[test]
fn src_port_given_is_parsed_or_refused() {
    assert_eq!(args("eth0", None, Some("80"), None).get_src_port(), Ok(80));
    assert_eq!(args("eth0", None, Some("65535"), None).get_src_port(), Ok(65535));
    assert_eq!(args("eth0", None, Some("0"), None).get_src_port(), Ok(0));
    assert_eq!(args("eth0", None, Some("65536"), None).get_src_port(), Err(ConfigError::InvalidPort));
    assert_eq!(args("eth0", None, Some(""), None).get_src_port(), Err(ConfigError::InvalidPort));
    assert_eq!(args("eth0", None, Some("http"), None).get_src_port(), Err(ConfigError::InvalidPort));
    assert_eq!(args("eth0", None, Some("-1"), None).get_src_port(), Err(ConfigError::InvalidPort));
}

#[test]
fn gateway_given_is_parsed_or_refused() {
    let system = system();
    assert_eq!(args("eth0", None, None, Some("192.168.1.254")).get_gw(&system), Ok(v4(192, 168, 1, 254)));
    // a gateway outside the source network is accepted as given
    assert_eq!(args("eth0", Some("10.0.0.5/24"), None, Some("8.8.8.8")).get_gw(&system), Ok(v4(8, 8, 8, 8)));
    // the source network is not consulted when a gateway is given
    assert_eq!(args("nope", Some("bad"), None, Some("1.2.3.4")).get_gw(&system), Ok(v4(1, 2, 3, 4)));
    for text in ["", "gateway", "1.2.3", "1.2.3.256", "1.2.3.4/24", "01.2.3.4"] {
        assert_eq!(
            args("eth0", None, None, Some(text)).get_gw(&system),
            Err(ConfigError::InvalidGateway),
            "{:?}",
            text
        );
    }
}

#[test]
fn gateway_defaults_to_second_address_of_source_network() {
    let system = system();
    assert_eq!(args("eth-test", None, None, None).get_gw(&system), Ok(v4(10, 0, 0, 1)));
    assert_eq!(args("eth0", None, None, None).get_gw(&system), Ok(v4(192, 168, 1, 1)));
    assert_eq!(args("eth0", Some("172.16.9.1/12"), None, None).get_gw(&system), Ok(v4(172, 16, 0, 1)));
    assert_eq!(args("eth0", Some("10.9.8.7/30"), None, None).get_gw(&system), Ok(v4(10, 9, 8, 5)));
    assert_eq!(args("eth0", Some("10.9.8.7/0"), None, None).get_gw(&system), Ok(v4(0, 0, 0, 1)));
}

#[test]
fn gateway_cannot_be_guessed_without_host_range() {
    let system = system();
    assert_eq!(
        args("eth0", Some("10.0.0.5/31"), None, None).get_gw(&system),
        Err(ConfigError::CannotGuessGateway(net(10, 0, 0, 5, 31)))
    );
    assert_eq!(
        args("eth0", Some("10.0.0.5/32"), None, None).get_gw(&system),
        Err(ConfigError::CannotGuessGateway(net(10, 0, 0, 5, 32)))
    );
    // twice the same answer
    assert_eq!(
        args("eth0", Some("10.0.0.5/32"), None, None).get_gw(&system),
        args("eth0", Some("10.0.0.5/32"), None, None).get_gw(&system)
    );
}

#[test]
fn gateway_default_passes_on_source_network_errors() {
    let system = system();
    assert_eq!(args("eth0", Some("bad"), None, None).get_gw(&system), Err(ConfigError::InvalidCidr));
    assert_eq!(args("eth1", None, None, None).get_gw(&system), Err(ConfigError::NoIpv4OnInterface));
    assert_eq!(args("wlan0", None, None, None).get_gw(&system), Err(ConfigError::InterfaceNotFound));
    assert_eq!(args("lo", None, None, None).get_gw(&system), Err(ConfigError::InterfaceIncompatible));
}

#[test]
fn resolve_collects_all_four_parameters() {
    let system = system();
    let p = args("eth0", Some("10.0.0.5/24"), Some("4000"), Some("10.0.0.254")).resolve(&system).unwrap();
    assert_eq!(p.interface_name, "eth0");
    assert_eq!(p.source_network, net(10, 0, 0, 5, 24));
    assert_eq!(p.source_port, 4000);
    assert_eq!(p.gateway, v4(10, 0, 0, 254));
    assert_eq!(p.bind_address(), (v4(10, 0, 0, 5), 4000));
}

#[test]
fn resolve_reports_the_first_failure_in_order() {
    let system = system();
    // interface before source network
    assert_eq!(
        args("wlan0", Some("bad"), Some("bad"), Some("bad")).resolve(&system).unwrap_err(),
        ConfigError::InterfaceNotFound
    );
    assert_eq!(
        args("lo", Some("10.0.0.5/24"), None, None).resolve(&system).unwrap_err(),
        ConfigError::InterfaceIncompatible
    );
    // source network before gateway
    assert_eq!(
        args("eth0", Some("bad"), Some("bad"), Some("bad")).resolve(&system).unwrap_err(),
        ConfigError::InvalidCidr
    );
    // gateway before port
    assert_eq!(
        args("eth0", None, Some("bad"), Some("bad")).resolve(&system).unwrap_err(),
        ConfigError::InvalidGateway
    );
    assert_eq!(
        args("eth0", Some("10.0.0.5/32"), Some("bad"), None).resolve(&system).unwrap_err(),
        ConfigError::CannotGuessGateway(net(10, 0, 0, 5, 32))
    );
    assert_eq!(args("eth0", None, Some("bad"), None).resolve(&system).unwrap_err(), ConfigError::InvalidPort);
    assert_eq!(args("eth1", None, None, None).resolve(&system).unwrap_err(), ConfigError::NoIpv4OnInterface);
}

#[test]
fn create_channel_asks_for_64k_buffers_on_the_interface() {
    let system = system();
    let request = args("eth0", None, None, None).create_channel(&system).unwrap();
    assert_eq!(request.interface_name, "eth0");
    assert_eq!(request.read_buffer_size, 64 * 1024);
    assert_eq!(request.write_buffer_size, 64 * 1024);
    assert_eq!(CHANNEL_BUFFER_SIZE, 65536);
    assert_eq!(
        args("wlan0", None, None, None).create_channel(&system).unwrap_err(),
        ConfigError::InterfaceNotFound
    );
    assert_eq!(
        args("lo", None, None, None).create_channel(&system).unwrap_err(),
        ConfigError::InterfaceIncompatible
    );
}

#[test]
fn only_an_ethernet_channel_will_do() {
    assert_eq!(ChannelOutcome::Ethernet.check(), Ok(()));
    assert_eq!(ChannelOutcome::Unsupported.check(), Err(ConfigError::ChannelUnavailable));
    assert_eq!(ChannelOutcome::Failed.check(), Err(ConfigError::ChannelUnavailable));
}

#[test]
fn error_messages_name_what_went_wrong() {
    let a = args("eth9", None, None, None);
    assert_eq!(a.error_message(ConfigError::MissingInterface), "No network interface given");
    assert_eq!(a.error_message(ConfigError::InterfaceNotFound), "Found no interface named eth9");
    assert_eq!(a.error_message(ConfigError::InterfaceIncompatible), "Interface eth9 can't be used with rips");
    assert_eq!(a.error_message(ConfigError::InvalidCidr), "Invalid CIDR");
    assert_eq!(a.error_message(ConfigError::NoIpv4OnInterface), "No IPv4 to use on given interface");
    assert_eq!(a.error_message(ConfigError::InvalidPort), "Unable to parse source port");
    assert_eq!(a.error_message(ConfigError::InvalidGateway), "Unable to parse gateway ip");
    assert_eq!(
        a.error_message(ConfigError::CannotGuessGateway(net(10, 0, 0, 5, 32))),
        "Could not guess a default gateway inside 10.0.0.5/32"
    );
    assert_eq!(a.error_message(ConfigError::ChannelUnavailable), "Unable to open network channel on eth9");
}

#[test]
fn print_error_frames_the_message() {
    let a = args("eth9", None, None, None);
    assert_eq!(a.print_error(ConfigError::InvalidCidr), "ERROR: Invalid CIDR\n");
    assert_eq!(a.print_error(ConfigError::InterfaceNotFound), "ERROR: Found no interface named eth9\n");
}

#[test]
fn create_app_lists_the_four_arguments() {
    let app = create_app();
    assert_eq!(app.name, "UDP ping server");
    assert_eq!(app.about, "A simple UDP ping server with a userspace network stack");
    assert_eq!(app.args.len(), 4);

    let src_net = &app.args[0];
    assert_eq!((src_net.name, src_net.long, src_net.short), (ARG_SRC_NET, Some("ip"), None));
    assert_eq!(src_net.value_name, Some("CIDR"));
    assert!(src_net.takes_value && !src_net.required);
    assert_eq!((src_net.default_value, src_net.index), (None, None));
    assert_eq!(
        src_net.help,
        "Local IP and prefix to send from, in CIDR format. Will default to first IP on given iface and prefix 24."
    );

    let src_port = &app.args[1];
    assert_eq!((src_port.name, src_port.long, src_port.short), (ARG_SRC_PORT, Some("sport"), None));
    assert_eq!(src_port.value_name, Some("PORT"));
    assert_eq!(src_port.default_value, Some("12221"));
    assert!(src_port.takes_value && !src_port.required);
    assert_eq!(src_port.help, "Local port to bind to and send from.");

    let gw = &app.args[2];
    assert_eq!((gw.name, gw.long, gw.short), (ARG_GW, Some("gateway"), Some("gw")));
    assert_eq!(gw.value_name, Some("IP"));
    assert!(gw.takes_value && !gw.required);
    assert_eq!((gw.default_value, gw.index), (None, None));

    let iface = &app.args[3];
    assert_eq!((iface.name, iface.long, iface.short), (ARG_IFACE, None, None));
    assert!(iface.required);
    assert_eq!(iface.index, Some(1));
    assert_eq!(iface.help, "Network interface to use");
    assert_eq!((ARG_IFACE, ARG_SRC_NET, ARG_SRC_PORT, ARG_GW), ("iface", "src_net", "src_port", "gw"));
}
