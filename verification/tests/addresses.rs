use udp_ping_server::config::parse_port;
use udp_ping_server::ipv4::Ipv4Address;
use udp_ping_server::metric::Metric;
use udp_ping_server::network::Ipv4Network;

fn v4(a: u8, b: u8, c: u8, d: u8) -> Ipv4Address {
    Ipv4Address::from_octets(a, b, c, d)
}

fn net(a: u8, b: u8, c: u8, d: u8, prefix: u8) -> Ipv4Network {
    Ipv4Network::new(v4(a, b, c, d), prefix).unwrap()
}

#[test]
fn metric_label_is_ok() {
    assert_eq!(Metric::Okay.label(), "ok");
}

#[test]
fn octets_join_to_network_order_bits() {
    assert_eq!(v4(10, 0, 0, 5).bits, 0x0a00_0005);
    assert_eq!(v4(255, 255, 255, 255).bits, 0xffff_ffff);
    assert_eq!(v4(0, 0, 0, 0).bits, 0);
    assert_eq!(v4(192, 168, 1, 2).bits, 0xc0a8_0102);
}

#[test]
fn bits_split_back_into_octets() {
    assert_eq!(Ipv4Address { bits: 0xc0a8_0102 }.octets(), (192, 168, 1, 2));
    assert_eq!(Ipv4Address { bits: 0 }.octets(), (0, 0, 0, 0));
    assert_eq!(Ipv4Address { bits: 0xffff_ffff }.octets(), (255, 255, 255, 255));
    assert_eq!(v4(1, 2, 3, 4).octets(), (1, 2, 3, 4));
}

#[test]
fn parse_ipv4_accepts_dotted_decimal() {
    assert_eq!(Ipv4Address::parse("10.0.0.1"), Some(v4(10, 0, 0, 1)));
    assert_eq!(Ipv4Address::parse("0.0.0.0"), Some(v4(0, 0, 0, 0)));
    assert_eq!(Ipv4Address::parse("255.255.255.255"), Some(v4(255, 255, 255, 255)));
    assert_eq!(Ipv4Address::parse("192.168.100.7"), Some(v4(192, 168, 100, 7)));
    assert_eq!(Ipv4Address::parse("1.20.255.9"), Some(v4(1, 20, 255, 9)));
}

#[test]
fn parse_ipv4_refuses_everything_else() {
    let bad = [
        "", ".", "...", "1.2.3", "1.2.3.4.5", "1.2.3.", ".1.2.3", "1..2.3", "256.0.0.1",
        "1.2.3.256", "01.2.3.4", "1.2.3.04", "00.0.0.0", "1.2.3.4 ", " 1.2.3.4", "1.2.3.a",
        "1,2,3,4", "1.2.3.-4", "+1.2.3.4", "1.2.3.4/24", "1234.1.1.1", "::1", "localhost",
        "1.2.3.١",
    ];
    for text in bad {
        assert_eq!(Ipv4Address::parse(text), None, "{:?}", text);
    }
}

#[test]
fn parse_port_reads_decimal() {
    assert_eq!(parse_port("12221"), Some(12221));
    assert_eq!(parse_port("0"), Some(0));
    assert_eq!(parse_port("65535"), Some(65535));
    assert_eq!(parse_port("+80"), Some(80));
    assert_eq!(parse_port("00080"), Some(80));
    assert_eq!(parse_port("000000000000000000000007"), Some(7));
}

#[test]
fn parse_port_refuses_everything_else() {
    let bad = [
        "", "+", "-", "-1", "-0", "65536", "99999", "4294967296", "18446744073709551616", "80a",
        "a80", " 80", "80 ", "8 0", "++80", "+-80", "0x50", "1_000", "٣",
    ];
    for text in bad {
        assert_eq!(parse_port(text), None, "{:?}", text);
    }
}

#[test]
fn parse_port_agrees_with_the_standard_parser() {
    let texts = [
        "0", "1", "9", "10", "99", "100", "12221", "42024", "65534", "65535", "65536", "65537",
        "70000", "+1", "+0", "+65535", "+65536", "", "+", "-5", "007", "1e3", "12 ", "１２",
    ];
    for text in texts {
        assert_eq!(parse_port(text), text.parse::<u16>().ok(), "{:?}", text);
    }
}

#[test]
fn network_new_checks_the_prefix() {
    let n = Ipv4Network::new(v4(10, 0, 0, 5), 24).unwrap();
    assert_eq!(n.ip(), v4(10, 0, 0, 5));
    assert_eq!(n.prefix(), 24);
    assert!(Ipv4Network::new(v4(10, 0, 0, 5), 0).is_some());
    assert!(Ipv4Network::new(v4(10, 0, 0, 5), 32).is_some());
    assert_eq!(Ipv4Network::new(v4(10, 0, 0, 5), 33), None);
    assert_eq!(Ipv4Network::new(v4(10, 0, 0, 5), 255), None);
}

#[test]
fn cidr_parse_keeps_address_and_prefix() {
    let n = Ipv4Network::parse("10.0.0.5/24").unwrap();
    assert_eq!(n.ip(), v4(10, 0, 0, 5));
    assert_eq!(n.prefix(), 24);
    let n = Ipv4Network::parse("10.1.9.32/16").unwrap();
    assert_eq!(n, net(10, 1, 9, 32, 16));
    assert_eq!(Ipv4Network::parse("0.0.0.0/0"), Some(net(0, 0, 0, 0, 0)));
    assert_eq!(Ipv4Network::parse("255.255.255.255/32"), Some(net(255, 255, 255, 255, 32)));
    assert_eq!(Ipv4Network::parse("192.168.1.77/30"), Some(net(192, 168, 1, 77, 30)));
}

#[test]
fn cidr_parse_refuses_bad_text() {
    let bad = [
        "", "/", "/24", "10.0.0.5/", "10.0.0.5/33", "10.0.0.5/-1", "10.0.0.5/24/8", "10.0.0/24",
        "10.0.0.256/24", "eth0", "10.0.0.5/a", "::1/64",
    ];
    for text in bad {
        assert_eq!(Ipv4Network::parse(text), None, "{:?}", text);
    }
}

#[test]
fn cidr_round_trips_through_text() {
    let texts = [
        "10.0.0.5/24", "0.0.0.0/0", "255.255.255.255/32", "192.168.1.77/30", "172.16.254.1/12",
        "1.2.3.4/31", "8.8.8.8/1",
    ];
    for text in texts {
        let parsed = Ipv4Network::parse(text).unwrap();
        assert_eq!(parsed.to_text(), text);
        assert_eq!(Ipv4Network::parse(&parsed.to_text()), Some(parsed));
    }
    for prefix in 0..=32u8 {
        let made = net(203, 0, 113, 9, prefix);
        let again = Ipv4Network::parse(&made.to_text()).unwrap();
        assert_eq!((again.ip(), again.prefix()), (v4(203, 0, 113, 9), prefix));
    }
}

#[test]
fn to_text_writes_cidr_notation() {
    assert_eq!(net(10, 0, 0, 5, 24).to_text(), "10.0.0.5/24");
    assert_eq!(net(0, 0, 0, 0, 0).to_text(), "0.0.0.0/0");
    assert_eq!(Ipv4Network::default_route().to_text(), "0.0.0.0/0");
}

#[test]
fn nth_counts_from_the_network_base() {
    let n = net(192, 168, 0, 0, 24);
    assert_eq!(n.nth(0), Some(v4(192, 168, 0, 0)));
    assert_eq!(n.nth(15), Some(v4(192, 168, 0, 15)));
    assert_eq!(n.nth(255), Some(v4(192, 168, 0, 255)));
    assert_eq!(n.nth(256), None);
    assert_eq!(net(10, 0, 0, 0, 16).nth(256), Some(v4(10, 0, 1, 0)));
    assert_eq!(net(10, 0, 0, 5, 24).nth(1), Some(v4(10, 0, 0, 1)));
    assert_eq!(net(10, 20, 30, 40, 8).nth(0x00ff_ffff), Some(v4(10, 255, 255, 255)));
    assert_eq!(net(10, 20, 30, 40, 8).nth(0x0100_0000), None);
}

#[test]
fn nth_at_the_extreme_prefixes() {
    assert_eq!(net(10, 0, 0, 5, 32).nth(0), Some(v4(10, 0, 0, 5)));
    assert_eq!(net(10, 0, 0, 5, 32).nth(1), None);
    assert_eq!(net(10, 0, 0, 5, 31).nth(1), Some(v4(10, 0, 0, 5)));
    assert_eq!(net(10, 0, 0, 5, 31).nth(2), None);
    assert_eq!(net(10, 0, 0, 5, 1).nth(0x7fff_ffff), Some(v4(127, 255, 255, 255)));
    assert_eq!(net(10, 0, 0, 5, 1).nth(0x8000_0000), None);
    assert_eq!(net(10, 0, 0, 5, 0).nth(0), Some(v4(0, 0, 0, 0)));
    assert_eq!(net(10, 0, 0, 5, 0).nth(5), Some(v4(0, 0, 0, 5)));
    assert_eq!(net(10, 0, 0, 5, 0).nth(u32::MAX), Some(v4(255, 255, 255, 255)));
}

#[test]
fn first_host_is_base_plus_one() {
    assert_eq!(net(10, 0, 0, 5, 24).first_host(), Some(v4(10, 0, 0, 1)));
    assert_eq!(net(192, 168, 1, 77, 30).first_host(), Some(v4(192, 168, 1, 77)));
    assert_eq!(net(192, 168, 1, 78, 30).first_host(), Some(v4(192, 168, 1, 77)));
    assert_eq!(net(172, 16, 254, 1, 12).first_host(), Some(v4(172, 16, 0, 1)));
    assert_eq!(net(10, 0, 0, 5, 0).first_host(), Some(v4(0, 0, 0, 1)));
    assert_eq!(net(255, 255, 255, 255, 30).first_host(), Some(v4(255, 255, 255, 253)));
}

#[test]
fn first_host_needs_a_host_range() {
    assert_eq!(net(10, 0, 0, 5, 31).first_host(), None);
    assert_eq!(net(10, 0, 0, 5, 32).first_host(), None);
    assert_eq!(net(0, 0, 0, 0, 32).first_host(), None);
}

#[test]
fn first_host_agrees_with_nth_one() {
    for prefix in 0..=30u8 {
        let n = net(198, 51, 100, 201, prefix);
        assert_eq!(n.first_host(), n.nth(1), "/{}", prefix);
    }
}
