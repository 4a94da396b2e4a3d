use socket2::addr::{from_in6_addr, from_in_addr, to_in6_addr, to_in_addr, In6Addr, InAddr, Ipv4Addr, Ipv6Addr};

#[test]
fn test_ipv4() {
    let ip = Ipv4Addr::new(127, 0, 0, 1);
    assert_eq!(ip, from_in_addr(to_in_addr(&ip)));

    let ip = Ipv4Addr::new(127, 34, 4, 12);
    let want = 127 << 0 | 34 << 8 | 4 << 16 | 12 << 24;
    assert_eq!(to_in_addr(&ip).s_addr, want);
    let addr = InAddr { s_addr: want };
    assert_eq!(from_in_addr(addr), ip);
}

#[test]
fn test_ipv6() {
    let ip = Ipv6Addr::new(0x2000, 1, 2, 3, 4, 5, 6, 7);
    assert_eq!(ip, from_in6_addr(to_in6_addr(&ip)));

    let ip = Ipv6Addr::new(0x2000, 1, 2, 3, 4, 5, 6, 7);
    let want = [
        0x2000u16.to_be(),
        1u16.to_be(),
        2u16.to_be(),
        3u16.to_be(),
        4u16.to_be(),
        5u16.to_be(),
        6u16.to_be(),
        7u16.to_be(),
    ];
    assert_eq!(to_in6_addr(&ip).words(), want);
    let addr = In6Addr::from_words(want);
    assert_eq!(from_in6_addr(addr), ip);
}

#[test]
fn ipv4_octets_are_in_network_order() {
    let ip = Ipv4Addr::new(192, 168, 1, 20);
    assert_eq!(ip.octets(), [192, 168, 1, 20]);
    assert_eq!(Ipv4Addr::from_octets([192, 168, 1, 20]), ip);
    // The memory of S_addr holds the octets in network order.
    assert_eq!(to_in_addr(&ip).s_addr.to_ne_bytes(), [192, 168, 1, 20]);
}

#[test]
fn in_addr_roundtrip_from_raw() {
    let raw = InAddr { s_addr: 0xdead_beef };
    assert_eq!(to_in_addr(&from_in_addr(raw)), raw);
}

#[test]
fn ipv6_segments_are_big_endian() {
    let ip = Ipv6Addr::new(0x2001, 0x0db8, 0, 0, 0, 0, 0xff00, 0x0042);
    assert_eq!(
        ip.octets(),
        [0x20, 0x01, 0x0d, 0xb8, 0, 0, 0, 0, 0, 0, 0, 0, 0xff, 0x00, 0x00, 0x42]
    );
    assert_eq!(to_in6_addr(&ip).bytes, ip.octets());
    assert_eq!(Ipv6Addr::from_octets(ip.octets()), ip);
}

#[test]
fn in6_words_roundtrip() {
    let bytes = [1u8, 2, 3, 4, 5, 6, 7, 8, 9, 10, 11, 12, 13, 14, 15, 16];
    let a = In6Addr { bytes };
    let w = a.words();
    assert_eq!(w[0], u16::from_ne_bytes([1, 2]));
    assert_eq!(w[7], u16::from_ne_bytes([15, 16]));
    assert_eq!(In6Addr::from_words(w), a);
}
