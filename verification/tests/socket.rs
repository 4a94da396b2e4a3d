use socket2::addr::{to_in_addr, Ipv4Addr, Ipv6Addr};
use socket2::error::Error;
use socket2::socket::{
    IpMreq, OptValue, SockOpt, Socket, TcpKeepalive, IPPROTO_IP, IPPROTO_IPV6, IPV6_ADD_MEMBERSHIP,
    IPV6_DROP_MEMBERSHIP, IPV6_MULTICAST_IF, IP_ADD_MEMBERSHIP, IP_DROP_MEMBERSHIP, IP_MULTICAST_IF,
    SOL_SOCKET, SO_LINGER, SO_OOBINLINE, SO_RCVBUF, SO_RCVTIMEO, SO_REUSEADDR, SO_SNDBUF, SO_SNDTIMEO,
};
use socket2::sys::HANDLE_FLAG_INHERIT;
use socket2::time::Duration;
use socket2::timeout::Linger;

fn sock() -> Socket {
    Socket::from_raw_socket(0x1234)
}

#[test]
fn test_out_of_band_inline() {
    let tcp = sock();
    // A fresh socket reads 0 for SO_OOBINLINE.
    assert_eq!(tcp.out_of_band_inline(Ok(0)).unwrap(), false);

    let req = tcp.set_out_of_band_inline(true);
    assert_eq!(req, SockOpt { level: SOL_SOCKET, name: SO_OOBINLINE, value: OptValue::Int(1) });
    let written = match req.value {
        OptValue::Int(v) => v,
        _ => panic!("SO_OOBINLINE takes an int"),
    };
    assert_eq!(tcp.out_of_band_inline(Ok(written)).unwrap(), true);
}

#[test]
fn raw_socket_handle() {
    let s = Socket::from_raw_socket(77);
    assert_eq!(s.as_raw_socket(), 77);
    assert_eq!(s.into_raw_socket(), 77);
}

#[test]
fn no_inherit_handle_information() {
    assert_eq!(sock().set_no_inherit(true), (HANDLE_FLAG_INHERIT, 0));
    assert_eq!(sock().set_no_inherit(false), (HANDLE_FLAG_INHERIT, 1));
}

#[test]
fn timeouts() {
    let s = sock();
    assert_eq!(
        s.set_read_timeout(Some(Duration::new(1, 1))),
        Ok(SockOpt { level: SOL_SOCKET, name: SO_RCVTIMEO, value: OptValue::Dword(1001) })
    );
    assert_eq!(
        s.set_write_timeout(None),
        Ok(SockOpt { level: SOL_SOCKET, name: SO_SNDTIMEO, value: OptValue::Dword(0) })
    );
    assert_eq!(s.set_read_timeout(Some(Duration::new(0, 0))), Err(Error::InvalidInput));
    assert_eq!(s.read_timeout(Ok(0)), Ok(None));
    assert_eq!(s.read_timeout(Ok(2500)), Ok(Some(Duration::new(2, 500_000_000))));
    assert_eq!(s.write_timeout(Err(Error::Os(10038))), Err(Error::Os(10038)));
}

#[test]
fn multicast_v4() {
    let s = sock();
    let group = Ipv4Addr::new(224, 0, 0, 251);
    let iface = Ipv4Addr::new(10, 0, 0, 1);
    assert_eq!(
        s.set_multicast_if_v4(&iface),
        SockOpt { level: IPPROTO_IP, name: IP_MULTICAST_IF, value: OptValue::InAddr(to_in_addr(&iface)) }
    );
    assert_eq!(s.multicast_if_v4(Ok(to_in_addr(&iface))), Ok(iface));
    let mreq = IpMreq { imr_multiaddr: to_in_addr(&group), imr_interface: to_in_addr(&iface) };
    assert_eq!(
        s.join_multicast_v4(&group, &iface),
        SockOpt { level: IPPROTO_IP, name: IP_ADD_MEMBERSHIP, value: OptValue::IpMreq(mreq) }
    );
    assert_eq!(
        s.leave_multicast_v4(&group, &iface),
        SockOpt { level: IPPROTO_IP, name: IP_DROP_MEMBERSHIP, value: OptValue::IpMreq(mreq) }
    );
}

#[test]
fn multicast_v6() {
    let s = sock();
    let group = Ipv6Addr::new(0xff02, 0, 0, 0, 0, 0, 0, 0xfb);
    assert_eq!(
        s.set_multicast_if_v6(3),
        SockOpt { level: IPPROTO_IPV6, name: IPV6_MULTICAST_IF, value: OptValue::Int(3) }
    );
    assert_eq!(s.set_multicast_if_v6(u32::MAX).value, OptValue::Int(-1));
    assert_eq!(s.multicast_if_v6(Ok(-1)), Ok(u32::MAX));
    let join = s.join_multicast_v6(&group, 5);
    assert_eq!(join.level, IPPROTO_IPV6);
    assert_eq!(join.name, IPV6_ADD_MEMBERSHIP);
    match join.value {
        OptValue::Ipv6Mreq(m) => {
            assert_eq!(m.ipv6mr_multiaddr.bytes, group.octets());
            assert_eq!(m.ipv6mr_interface, 5);
        }
        _ => panic!("IPV6_ADD_MEMBERSHIP takes an IPV6_MREQ"),
    }
    let leave = s.leave_multicast_v6(&group, 5);
    // Leaving is requested at level IPPROTO_IP.
    assert_eq!(leave.level, IPPROTO_IP);
    assert_eq!(leave.name, IPV6_DROP_MEMBERSHIP);
    assert_eq!(leave.value, join.value);
}

#[test]
fn linger_option() {
    let s = sock();
    assert_eq!(
        s.set_linger(Some(Duration::from_secs(3))),
        SockOpt { level: SOL_SOCKET, name: SO_LINGER, value: OptValue::Linger(Linger { l_onoff: 1, l_linger: 3 }) }
    );
    assert_eq!(s.linger(Ok(Linger { l_onoff: 1, l_linger: 3 })), Ok(Some(Duration::from_secs(3))));
    assert_eq!(s.linger(Ok(Linger { l_onoff: 0, l_linger: 3 })), Ok(None));
}

#[test]
fn flag_and_size_options() {
    let s = sock();
    assert_eq!(s.set_reuse_address(true), SockOpt { level: SOL_SOCKET, name: SO_REUSEADDR, value: OptValue::Int(1) });
    assert_eq!(s.set_reuse_address(false).value, OptValue::Int(0));
    assert_eq!(s.reuse_address(Ok(4)), Ok(true));
    assert_eq!(s.reuse_address(Ok(0)), Ok(false));
    assert_eq!(s.set_recv_buffer_size(65536), SockOpt { level: SOL_SOCKET, name: SO_RCVBUF, value: OptValue::Int(65536) });
    assert_eq!(s.set_send_buffer_size(8192), SockOpt { level: SOL_SOCKET, name: SO_SNDBUF, value: OptValue::Int(8192) });
    assert_eq!(s.recv_buffer_size(Ok(65536)), Ok(65536));
    assert_eq!(s.send_buffer_size(Err(Error::Os(1))), Err(Error::Os(1)));
    assert_eq!(s.set_out_of_band_inline(false).value, OptValue::Int(0));
}

#[test]
fn keepalive_values() {
    let s = sock();
    assert_eq!(s.set_keepalive(None), Ok(TcpKeepalive { onoff: 0, keepalivetime: 0, keepaliveinterval: 0 }));
    let ka = s.set_keepalive(Some(Duration::new(1, 500_000))).unwrap();
    assert_eq!(ka, TcpKeepalive { onoff: 1, keepalivetime: 1001, keepaliveinterval: 1001 });
    assert_eq!(s.keepalive(0, ka, 0), Ok(Some(Duration::new(1, 1_000_000))));
    assert_eq!(s.set_keepalive(Some(Duration::new(0, 0))), Err(Error::InvalidInput));
    assert_eq!(s.keepalive(0, TcpKeepalive { onoff: 1, keepalivetime: 5, keepaliveinterval: 0 }, 0), Ok(None));
    assert_eq!(s.keepalive(0, TcpKeepalive { onoff: 0, keepalivetime: 5, keepaliveinterval: 5 }, 0), Ok(None));
    assert_eq!(s.keepalive(-1, ka, 10022), Err(Error::Os(10022)));
}

#[test]
fn sockopt_replies() {
    assert_eq!(Socket::getsockopt_reply(0, 4, 4, 9u32, 0), Ok(9));
    assert_eq!(Socket::getsockopt_reply(-1, 0, 4, 9u32, 10022), Err(Error::Os(10022)));
    assert_eq!(Socket::setsockopt_reply(0, 0), Ok(()));
    assert_eq!(Socket::setsockopt_reply(-1, 10022), Err(Error::Os(10022)));
}
