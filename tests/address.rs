use dyfi_ddns::ipv4::{parse_ipv4, Ipv4Address};

#[test]
fn parses_dotted_quads() {
    assert_eq!(parse_ipv4("1.2.3.4"), Some(Ipv4Address::new(1, 2, 3, 4)));
    assert_eq!(parse_ipv4("0.0.0.0"), Some(Ipv4Address::new(0, 0, 0, 0)));
    assert_eq!(parse_ipv4("255.255.255.255"), Some(Ipv4Address::new(255, 255, 255, 255)));
    assert_eq!(parse_ipv4("192.168.10.100"), Some(Ipv4Address::new(192, 168, 10, 100)));
}

#[test]
fn rejects_what_is_not_a_dotted_quad() {
    for s in ["", "not-an-ip", "1.2.3", "1.2.3.4.5", "256.1.1.1", "01.2.3.4", "1.2.3.04", "1..3.4", ".1.2.3", "1.2.3.", " 1.2.3.4", "1.2.3.4\n", "1.2.3.4a", "+1.2.3.4", "1000.1.1.1"] {
        assert_eq!(parse_ipv4(s), None, "{:?}", s);
    }
}

#[test]
fn octets_in_order() {
    assert_eq!(Ipv4Address::new(9, 8, 7, 6).octets(), [9, 8, 7, 6]);
}
