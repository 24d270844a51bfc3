use lobby_registry::address::{parse_ipv4, PublicAddress};

#[test]
fn loopback_is_read() {
    assert_eq!(parse_ipv4("127.0.0.1"), Some([127, 0, 0, 1]));
}

#[test]
fn extremes_are_read() {
    assert_eq!(parse_ipv4("0.0.0.0"), Some([0, 0, 0, 0]));
    assert_eq!(parse_ipv4("255.255.255.255"), Some([255, 255, 255, 255]));
    assert_eq!(parse_ipv4("1.22.133.4"), Some([1, 22, 133, 4]));
    assert_eq!(parse_ipv4("10.0.200.99"), Some([10, 0, 200, 99]));
}

#[test]
fn wrong_field_count_is_refused() {
    assert_eq!(parse_ipv4(""), None);
    assert_eq!(parse_ipv4("1"), None);
    assert_eq!(parse_ipv4("1.2.3"), None);
    assert_eq!(parse_ipv4("1.2.3.4.5"), None);
    assert_eq!(parse_ipv4("..."), None);
}

#[test]
fn empty_field_is_refused() {
    assert_eq!(parse_ipv4(".1.2.3"), None);
    assert_eq!(parse_ipv4("1..2.3"), None);
    assert_eq!(parse_ipv4("1.2.3."), None);
    assert_eq!(parse_ipv4("1.2.3.4."), None);
}

#[test]
fn octet_above_255_is_refused() {
    assert_eq!(parse_ipv4("256.1.1.1"), None);
    assert_eq!(parse_ipv4("1.1.1.256"), None);
    assert_eq!(parse_ipv4("1.999.1.1"), None);
    assert_eq!(parse_ipv4("1.1.300.1"), None);
}

#[test]
fn leading_zero_is_refused() {
    assert_eq!(parse_ipv4("01.2.3.4"), None);
    assert_eq!(parse_ipv4("1.2.3.04"), None);
    assert_eq!(parse_ipv4("1.00.3.4"), None);
    assert_eq!(parse_ipv4("1.2.000.4"), None);
}

#[test]
fn long_field_is_refused() {
    assert_eq!(parse_ipv4("1.2.3.0004"), None);
    assert_eq!(parse_ipv4("1111.2.3.4"), None);
}

#[test]
fn other_characters_are_refused() {
    assert_eq!(parse_ipv4("a.b.c.d"), None);
    assert_eq!(parse_ipv4("1.2.3.4 "), None);
    assert_eq!(parse_ipv4(" 1.2.3.4"), None);
    assert_eq!(parse_ipv4("+1.2.3.4"), None);
    assert_eq!(parse_ipv4("1.2.3.4:80"), None);
    assert_eq!(parse_ipv4("1.2.3.-4"), None);
    assert_eq!(parse_ipv4("\u{ff11}.2.3.4"), None);
    assert_eq!(parse_ipv4("1.2.3.\u{0664}"), None);
    assert_eq!(parse_ipv4("::1"), None);
    assert_eq!(parse_ipv4("localhost"), None);
}

#[test]
fn mixed_samples_are_told_apart() {
    let accepted = [
        ("192.168.1.10", [192, 168, 1, 10]),
        ("8.8.8.8", [8, 8, 8, 8]),
        ("25.5.2.55", [25, 5, 2, 55]),
        ("99.99.99.99", [99, 99, 99, 99]),
        ("100.100.100.100", [100, 100, 100, 100]),
        ("249.250.251.252", [249, 250, 251, 252]),
    ];
    for (text, octets) in accepted {
        assert_eq!(parse_ipv4(text), Some(octets), "{text:?}");
    }
    let refused = [
        "0.00.0.0", "1.1.1.1.", "1.1.1.1a", "1,1,1,1", "1.1.1.1\n", "0x7f.0.0.1", "2130706433",
        "1.1.1.0255", "9.9.9.999", "260.1.1.1", "\t1.1.1.1", ".", "....",
    ];
    for text in refused {
        assert_eq!(parse_ipv4(text), None, "{text:?}");
    }
}

#[test]
fn every_octet_value_is_read_in_every_position() {
    for value in 0u16..=300 {
        let text = format!("{value}.{value}.{value}.{value}");
        let expected = if value <= 255 {
            let v = value as u8;
            Some([v, v, v, v])
        } else {
            None
        };
        assert_eq!(parse_ipv4(&text), expected, "{text}");
        let first = format!("{value}.0.0.0");
        let last = format!("0.0.0.{value}");
        assert_eq!(parse_ipv4(&first).is_some(), value <= 255);
        assert_eq!(parse_ipv4(&last).is_some(), value <= 255);
    }
}

#[test]
fn address_holds_octets_and_port() {
    let address = PublicAddress { octets: [10, 1, 2, 3], port: 47920 };
    assert_eq!(address.octets, [10, 1, 2, 3]);
    assert_eq!(address.port, 47920);
    assert_eq!(address, PublicAddress { octets: [10, 1, 2, 3], port: 47920 });
    assert_ne!(address, PublicAddress { octets: [10, 1, 2, 3], port: 47921 });
}
