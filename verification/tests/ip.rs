use asspp_core::ip::{is_ip_literal_host, is_ipv4_literal, is_ipv6_literal};

#[test]
fn ipv4_literals() {
    for s in ["0.0.0.0", "1.2.3.4", "255.255.255.255", "127.0.0.1", "10.0.0.255"] {
        assert!(is_ipv4_literal(s), "{:?}", s);
        assert!(is_ip_literal_host(s), "{:?}", s);
        assert!(!is_ipv6_literal(s), "{:?}", s);
    }
    for s in [
        "", "256.1.1.1", "1.2.3", "1.2.3.4.5", "01.2.3.4", "1.2.3.04", "1.2.3.4 ", " 1.2.3.4",
        "1..3.4", "1.2.3.", ".1.2.3", "1234.1.1.1", "0.00.0.0", "a.b.c.d", "1.2.3.4a",
        "192.168.000.1", "999.999.999.999", "1.2.3.-4", "1.2.3.4:80", "localhost",
        "cdn.apple.com", "::1",
    ] {
        assert!(!is_ipv4_literal(s), "{:?}", s);
    }
}

#[test]
fn ipv6_literals() {
    for s in [
        "::", "::1", "1::", "1::2", "::ffff:1.2.3.4", "1:2:3:4:5:6:7:8", "1:2:3:4:5:6:1.2.3.4",
        "::1.2.3.4", "abcd:ef01::", "ABCD::EF", "1:2:3:4:5:6:7::", "::2:3:4:5:6:7:8",
        "1::3:4:5:6:7:8", "1:2:3:4:5::1.2.3.4", "0000:0000:0000:0000:0000:0000:0000:0001",
        "::1:2:3:4:5:6:7",
    ] {
        assert!(is_ipv6_literal(s), "{:?}", s);
        assert!(is_ip_literal_host(s), "{:?}", s);
        assert!(!is_ipv4_literal(s), "{:?}", s);
    }
    for s in [
        "", "1:2:3:4:5:6:7", "1:2:3:4:5:6:7:8:9", "1:2:3:4:5:1.2.3.4", "1:2:3:4:5:6:7:1.2.3.4",
        "1.2.3.4::", "1::2::3", ":::", ":1", "1:", "12345::", "g::", "::g", "1:2:3:4::5:6:7:8",
        "1:2:3:4:5:6::1.2.3.4", "::1.2.3", "::01.2.3.4", "fe80::1%eth0", "[::1]", "00000::",
        "1:2:3:4:5:6:7:8::", "::1:2:3:4:5:6:7:8", "1::1.2.3.4:5", "::ffff:256.0.0.1", "1:2::3:",
        "localhost", "cdn.apple.com", "1.2.3.4", "::1.2.3.4.5",
    ] {
        assert!(!is_ipv6_literal(s), "{:?}", s);
    }
}

#[test]
fn names_are_no_literals() {
    for s in ["localhost", "cdn.apple.com", "p25-buy.itunes.apple.com", "", "[::1]", "1.2.3"] {
        assert!(!is_ip_literal_host(s), "{:?}", s);
    }
}
