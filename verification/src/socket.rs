//! A Winsock socket and its options: for each option, the `setsockopt`
//! request that sets it and the meaning of what `getsockopt` reads.

use vstd::prelude::*;

use crate::addr::{
    from_in_addr, lemma_in_addr_roundtrip, spec_u32_from_ne_bytes, spec_u32_to_ne_bytes, to_in6_addr,
    to_in_addr, In6Addr, InAddr, Ipv4Addr, Ipv6Addr,
};
use crate::error::Error;
use crate::sys::{outcome, HANDLE_FLAG_INHERIT};
use crate::time::{opt_nanos, Duration, NANOS_PER_MILLI};
use crate::timeout::lemma_dur2ms_value;
use crate::timeout::{
    dur2linger, dur2linger_spec, dur2ms, dur2ms_spec, linger2dur, linger_nanos, ms2dur, ms_nanos,
    timeout_millis, Linger,
};

verus! {

/// Option levels.
pub const SOL_SOCKET: i32 = 0xffff;
pub const IPPROTO_IP: i32 = 0;
pub const IPPROTO_IPV6: i32 = 41;

/// Socket-level options.
pub const SO_REUSEADDR: i32 = 0x0004;
pub const SO_LINGER: i32 = 0x0080;
pub const SO_OOBINLINE: i32 = 0x0100;
pub const SO_SNDBUF: i32 = 0x1001;
pub const SO_RCVBUF: i32 = 0x1002;
pub const SO_SNDTIMEO: i32 = 0x1005;
pub const SO_RCVTIMEO: i32 = 0x1006;

/// IPv4 options.
pub const IP_MULTICAST_IF: i32 = 9;
pub const IP_ADD_MEMBERSHIP: i32 = 12;
pub const IP_DROP_MEMBERSHIP: i32 = 13;

/// IPv6 options.
pub const IPV6_MULTICAST_IF: i32 = 9;
pub const IPV6_ADD_MEMBERSHIP: i32 = 12;
pub const IPV6_DROP_MEMBERSHIP: i32 = 13;

/// The `WSAIoctl` control code that sets or reads the keep-alive values.
pub const SIO_KEEPALIVE_VALS: u32 = 0x9800_0004;

/// The Winsock `IP_MREQ`: an IPv4 multicast group and the interface to use.
#[derive(Clone, Copy, Debug, PartialEq, Eq, Structural)]
pub struct IpMreq {
    pub imr_multiaddr: InAddr,
    pub imr_interface: InAddr,
}

/// The Winsock `IPV6_MREQ`: an IPv6 multicast group and the interface index.
#[derive(Clone, Copy, Debug, PartialEq, Eq)]
pub struct Ipv6Mreq {
    pub ipv6mr_multiaddr: In6Addr,
    pub ipv6mr_interface: u32,
}

/// The Winsock `tcp_keepalive` structure of `SIO_KEEPALIVE_VALS`: whether
/// keep-alive is on, the idle time before the first probe and the interval
/// between probes, both in milliseconds.
#[derive(Clone, Copy, Debug, PartialEq, Eq, Structural)]
pub struct TcpKeepalive {
    pub onoff: u32,
    pub keepalivetime: u32,
    pub keepaliveinterval: u32,
}

/// The value of a socket option, as passed to `setsockopt`.
#[derive(Clone, Copy, Debug, PartialEq, Eq)]
pub enum OptValue {
    /// A C `int`.
    Int(i32),
    /// A `DWORD`, as for timeouts.
    Dword(u32),
    /// An `IN_ADDR`.
    InAddr(InAddr),
    /// An `IP_MREQ`.
    IpMreq(IpMreq),
    /// An `IPV6_MREQ`.
    Ipv6Mreq(Ipv6Mreq),
    /// A `linger`.
    Linger(Linger),
}

/// A `setsockopt` call: the level, the option's name and the value.
#[derive(Clone, Copy, Debug, PartialEq, Eq)]
pub struct SockOpt {
    pub level: i32,
    pub name: i32,
    pub value: OptValue,
}

/// The request that sets a timeout option `name` to `dur`, or the error
/// that refuses `dur`.
pub open spec fn timeout_opt_spec(name: i32, dur: Option<Duration>) -> Result<SockOpt, Error> {
    match dur2ms_spec(dur) {
        Ok(ms) => Ok(SockOpt { level: SOL_SOCKET, name, value: OptValue::Dword(ms) }),
        Err(e) => Err(e),
    }
}

/// A read timeout or write timeout read back: the error of the read, or the
/// duration of the millisecond count read (none for 0).
pub open spec fn timeout_read_ok(raw: Result<u32, Error>, r: Result<Option<Duration>, Error>) -> bool {
    match raw {
        Ok(ms) => r matches Ok(o) && opt_nanos(o) == ms_nanos(ms),
        Err(e) => r == Err::<Option<Duration>, Error>(e),
    }
}

/// The `setsockopt` request for an `int` option holding a flag.
pub open spec fn flag_opt(name: i32, on: bool) -> SockOpt {
    SockOpt { level: SOL_SOCKET, name, value: OptValue::Int(if on { 1 } else { 0 }) }
}

/// What a flag option read back means: set when the `int` read is nonzero.
pub open spec fn flag_read(raw: Result<i32, Error>) -> Result<bool, Error> {
    match raw {
        Ok(v) => Ok(v != 0),
        Err(e) => Err(e),
    }
}

/// The keep-alive interval, in nanoseconds, of a `tcp_keepalive` read back:
/// none when keep-alive is off or the interval is 0, else the interval.
pub open spec fn keepalive_nanos(ka: TcpKeepalive) -> Option<nat> {
    if ka.onoff == 0 {
        None
    } else {
        ms_nanos(ka.keepaliveinterval)
    }
}

/// The `tcp_keepalive` that `set_keepalive` passes for `dur`: on exactly for
/// `Some`, with the idle time and the interval both the millisecond count of
/// `dur`; or the error that refuses `dur`.
pub open spec fn set_keepalive_spec(dur: Option<Duration>) -> Result<TcpKeepalive, Error> {
    match dur2ms_spec(dur) {
        Ok(ms) => Ok(
            TcpKeepalive {
                onoff: if dur is Some {
                    1
                } else {
                    0
                },
                keepalivetime: ms,
                keepaliveinterval: ms,
            },
        ),
        Err(e) => Err(e),
    }
}

/// A Winsock socket handle.
pub struct Socket {
    socket: usize,
}

impl View for Socket {
    type V = usize;

    closed spec fn view(&self) -> usize {
        self.socket
    }
}

impl Socket {
    /// The socket with this raw handle.
    pub fn from_raw_socket(socket: u64) -> (r: Socket)
        ensures
            r@ == socket as usize,
    {
        Socket { socket: socket as usize }
    }

    /// The raw handle of the socket.
    pub fn as_raw_socket(&self) -> (r: u64)
        ensures
            r == self@ as u64,
    {
        self.socket as u64
    }

    /// The raw handle of the socket, giving up the socket without closing it.
    pub fn into_raw_socket(self) -> (r: u64)
        ensures
            r == self@ as u64,
    {
        self.socket as u64
    }

    /// The mask and flags of the `SetHandleInformation` call that makes the
    /// handle inheritable by child processes (`no_inherit` false) or not
    /// (`no_inherit` true).
    pub fn set_no_inherit(&self, no_inherit: bool) -> (r: (u32, u32))
        ensures
            r == (HANDLE_FLAG_INHERIT, if no_inherit {
                0u32
            } else {
                1u32
            }),
    {
        self._set_no_inherit(no_inherit)
    }

    pub(crate) fn _set_no_inherit(&self, no_inherit: bool) -> (r: (u32, u32))
        ensures
            r == (HANDLE_FLAG_INHERIT, if no_inherit {
                0u32
            } else {
                1u32
            }),
    {
        let inherit: u32 = if no_inherit {
            0
        } else {
            1
        };
        (HANDLE_FLAG_INHERIT, inherit)
    }

    /// The value that `getsockopt` read: the slot that the call filled, when
    /// it returned 0. The call must have written as many bytes as the slot
    /// holds.
    pub fn getsockopt_reply<T>(ret: i32, len: i32, expected_len: i32, slot: T, last_error: i32) -> (r: Result<T, Error>)
        requires
            ret == 0 ==> len == expected_len,
        ensures
            r == outcome(ret != 0, slot, last_error),
    {
        if ret == 0 {
            Ok(slot)
        } else {
            Err(Error::Os(last_error))
        }
    }

    /// The outcome of a `setsockopt` or `WSAIoctl` call, which returns 0 on
    /// success.
    pub fn setsockopt_reply(ret: i32, last_error: i32) -> (r: Result<(), Error>)
        ensures
            r == outcome(ret != 0, (), last_error),
    {
        if ret == 0 {
            Ok(())
        } else {
            Err(Error::Os(last_error))
        }
    }

    /// The read timeout, from the `SO_RCVTIMEO` value read.
    pub fn read_timeout(&self, raw: Result<u32, Error>) -> (r: Result<Option<Duration>, Error>)
        ensures
            timeout_read_ok(raw, r),
    {
        match raw {
            Ok(ms) => Ok(ms2dur(ms)),
            Err(e) => Err(e),
        }
    }

    /// The request that sets the read timeout; `None` means no timeout. A
    /// zero duration is refused.
    pub fn set_read_timeout(&self, dur: Option<Duration>) -> (r: Result<SockOpt, Error>)
        ensures
            r == timeout_opt_spec(SO_RCVTIMEO, dur),
    {
        let ms = dur2ms(dur)?;
        Ok(SockOpt { level: SOL_SOCKET, name: SO_RCVTIMEO, value: OptValue::Dword(ms) })
    }

    /// The write timeout, from the `SO_SNDTIMEO` value read.
    pub fn write_timeout(&self, raw: Result<u32, Error>) -> (r: Result<Option<Duration>, Error>)
        ensures
            timeout_read_ok(raw, r),
    {
        match raw {
            Ok(ms) => Ok(ms2dur(ms)),
            Err(e) => Err(e),
        }
    }

    /// The request that sets the write timeout; `None` means no timeout. A
    /// zero duration is refused.
    pub fn set_write_timeout(&self, dur: Option<Duration>) -> (r: Result<SockOpt, Error>)
        ensures
            r == timeout_opt_spec(SO_SNDTIMEO, dur),
    {
        let ms = dur2ms(dur)?;
        Ok(SockOpt { level: SOL_SOCKET, name: SO_SNDTIMEO, value: OptValue::Dword(ms) })
    }

    /// The outgoing IPv4 multicast interface, from the `IP_MULTICAST_IF`
    /// value read.
    pub fn multicast_if_v4(&self, raw: Result<InAddr, Error>) -> (r: Result<Ipv4Addr, Error>)
        ensures
            match raw {
                Ok(a) => r matches Ok(addr) && addr@ == spec_u32_to_ne_bytes(a.s_addr),
                Err(e) => r == Err::<Ipv4Addr, Error>(e),
            },
    {
        match raw {
            Ok(a) => Ok(from_in_addr(a)),
            Err(e) => Err(e),
        }
    }

    /// The request that sets the outgoing IPv4 multicast interface.
    pub fn set_multicast_if_v4(&self, interface: &Ipv4Addr) -> (r: SockOpt)
        ensures
            r == (SockOpt {
                level: IPPROTO_IP,
                name: IP_MULTICAST_IF,
                value: OptValue::InAddr(InAddr { s_addr: spec_u32_from_ne_bytes(interface@) }),
            }),
    {
        SockOpt { level: IPPROTO_IP, name: IP_MULTICAST_IF, value: OptValue::InAddr(to_in_addr(interface)) }
    }

    /// The outgoing IPv6 multicast interface index, from the
    /// `IPV6_MULTICAST_IF` value read (an `int`, reinterpreted).
    pub fn multicast_if_v6(&self, raw: Result<i32, Error>) -> (r: Result<u32, Error>)
        ensures
            r == match raw {
                Ok(v) => Ok(v as u32),
                Err(e) => Err(e),
            },
    {
        match raw {
            Ok(v) => Ok(v as u32),
            Err(e) => Err(e),
        }
    }

    /// The request that sets the outgoing IPv6 multicast interface index
    /// (passed as an `int`, reinterpreted).
    pub fn set_multicast_if_v6(&self, interface: u32) -> (r: SockOpt)
        ensures
            r == (SockOpt { level: IPPROTO_IPV6, name: IPV6_MULTICAST_IF, value: OptValue::Int(interface as i32) }),
    {
        SockOpt { level: IPPROTO_IPV6, name: IPV6_MULTICAST_IF, value: OptValue::Int(interface as i32) }
    }

    /// The request that joins the IPv4 multicast group `multiaddr` on the
    /// interface with address `interface`.
    pub fn join_multicast_v4(&self, multiaddr: &Ipv4Addr, interface: &Ipv4Addr) -> (r: SockOpt)
        ensures
            r == (SockOpt {
                level: IPPROTO_IP,
                name: IP_ADD_MEMBERSHIP,
                value: OptValue::IpMreq(IpMreq {
                    imr_multiaddr: InAddr { s_addr: spec_u32_from_ne_bytes(multiaddr@) },
                    imr_interface: InAddr { s_addr: spec_u32_from_ne_bytes(interface@) },
                }),
            }),
    {
        let mreq = IpMreq { imr_multiaddr: to_in_addr(multiaddr), imr_interface: to_in_addr(interface) };
        SockOpt { level: IPPROTO_IP, name: IP_ADD_MEMBERSHIP, value: OptValue::IpMreq(mreq) }
    }

    /// The request that joins the IPv6 multicast group `multiaddr` on the
    /// interface with index `interface`.
    pub fn join_multicast_v6(&self, multiaddr: &Ipv6Addr, interface: u32) -> (r: SockOpt)
        ensures
            r.level == IPPROTO_IPV6,
            r.name == IPV6_ADD_MEMBERSHIP,
            r.value matches OptValue::Ipv6Mreq(m) && m.ipv6mr_multiaddr.bytes@ == multiaddr@
                && m.ipv6mr_interface == interface,
    {
        let mreq = Ipv6Mreq { ipv6mr_multiaddr: to_in6_addr(multiaddr), ipv6mr_interface: interface };
        SockOpt { level: IPPROTO_IPV6, name: IPV6_ADD_MEMBERSHIP, value: OptValue::Ipv6Mreq(mreq) }
    }

    /// The request that leaves the IPv4 multicast group `multiaddr` on the
    /// interface with address `interface`.
    pub fn leave_multicast_v4(&self, multiaddr: &Ipv4Addr, interface: &Ipv4Addr) -> (r: SockOpt)
        ensures
            r == (SockOpt {
                level: IPPROTO_IP,
                name: IP_DROP_MEMBERSHIP,
                value: OptValue::IpMreq(IpMreq {
                    imr_multiaddr: InAddr { s_addr: spec_u32_from_ne_bytes(multiaddr@) },
                    imr_interface: InAddr { s_addr: spec_u32_from_ne_bytes(interface@) },
                }),
            }),
    {
        let mreq = IpMreq { imr_multiaddr: to_in_addr(multiaddr), imr_interface: to_in_addr(interface) };
        SockOpt { level: IPPROTO_IP, name: IP_DROP_MEMBERSHIP, value: OptValue::IpMreq(mreq) }
    }

    /// The request that leaves the IPv6 multicast group `multiaddr` on the
    /// interface with index `interface`. It is made at level `IPPROTO_IP`,
    /// not `IPPROTO_IPV6`.
    pub fn leave_multicast_v6(&self, multiaddr: &Ipv6Addr, interface: u32) -> (r: SockOpt)
        ensures
            r.level == IPPROTO_IP,
            r.name == IPV6_DROP_MEMBERSHIP,
            r.value matches OptValue::Ipv6Mreq(m) && m.ipv6mr_multiaddr.bytes@ == multiaddr@
                && m.ipv6mr_interface == interface,
    {
        let mreq = Ipv6Mreq { ipv6mr_multiaddr: to_in6_addr(multiaddr), ipv6mr_interface: interface };
        SockOpt { level: IPPROTO_IP, name: IPV6_DROP_MEMBERSHIP, value: OptValue::Ipv6Mreq(mreq) }
    }

    /// The linger time, from the `SO_LINGER` value read: `None` when
    /// lingering is off.
    pub fn linger(&self, raw: Result<Linger, Error>) -> (r: Result<Option<Duration>, Error>)
        ensures
            match raw {
                Ok(l) => r matches Ok(o) && opt_nanos(o) == linger_nanos(l),
                Err(e) => r == Err::<Option<Duration>, Error>(e),
            },
    {
        match raw {
            Ok(l) => Ok(linger2dur(l)),
            Err(e) => Err(e),
        }
    }

    /// The request that sets the linger time: off for `None`, else on with
    /// the whole seconds of the duration modulo 2^16.
    pub fn set_linger(&self, dur: Option<Duration>) -> (r: SockOpt)
        ensures
            r == (SockOpt { level: SOL_SOCKET, name: SO_LINGER, value: OptValue::Linger(dur2linger_spec(dur)) }),
    {
        SockOpt { level: SOL_SOCKET, name: SO_LINGER, value: OptValue::Linger(dur2linger(dur)) }
    }

    /// The request that sets `SO_REUSEADDR`.
    pub fn set_reuse_address(&self, reuse: bool) -> (r: SockOpt)
        ensures
            r == flag_opt(SO_REUSEADDR, reuse),
    {
        SockOpt { level: SOL_SOCKET, name: SO_REUSEADDR, value: OptValue::Int(if reuse { 1 } else { 0 }) }
    }

    /// Whether `SO_REUSEADDR` is set, from the value read.
    pub fn reuse_address(&self, raw: Result<i32, Error>) -> (r: Result<bool, Error>)
        ensures
            r == flag_read(raw),
    {
        match raw {
            Ok(v) => Ok(v != 0),
            Err(e) => Err(e),
        }
    }

    /// The receive buffer size, from the `SO_RCVBUF` value read (an `int`,
    /// converted as by `as`).
    pub fn recv_buffer_size(&self, raw: Result<i32, Error>) -> (r: Result<usize, Error>)
        ensures
            r == match raw {
                Ok(v) => Ok(v as usize),
                Err(e) => Err(e),
            },
    {
        match raw {
            Ok(v) => Ok(v as usize),
            Err(e) => Err(e),
        }
    }

    /// The request that sets the receive buffer size; the size is passed as
    /// an `int`, truncated as by `as`.
    pub fn set_recv_buffer_size(&self, size: usize) -> (r: SockOpt)
        ensures
            r == (SockOpt { level: SOL_SOCKET, name: SO_RCVBUF, value: OptValue::Int(size as i32) }),
    {
        SockOpt { level: SOL_SOCKET, name: SO_RCVBUF, value: OptValue::Int(size as i32) }
    }

    /// The send buffer size, from the `SO_SNDBUF` value read (an `int`,
    /// converted as by `as`).
    pub fn send_buffer_size(&self, raw: Result<i32, Error>) -> (r: Result<usize, Error>)
        ensures
            r == match raw {
                Ok(v) => Ok(v as usize),
                Err(e) => Err(e),
            },
    {
        match raw {
            Ok(v) => Ok(v as usize),
            Err(e) => Err(e),
        }
    }

    /// The request that sets the send buffer size; the size is passed as an
    /// `int`, truncated as by `as`.
    pub fn set_send_buffer_size(&self, size: usize) -> (r: SockOpt)
        ensures
            r == (SockOpt { level: SOL_SOCKET, name: SO_SNDBUF, value: OptValue::Int(size as i32) }),
    {
        SockOpt { level: SOL_SOCKET, name: SO_SNDBUF, value: OptValue::Int(size as i32) }
    }

    /// Whether out-of-band data is received inline, from the `SO_OOBINLINE`
    /// value read.
    pub fn out_of_band_inline(&self, raw: Result<i32, Error>) -> (r: Result<bool, Error>)
        ensures
            r == flag_read(raw),
    {
        match raw {
            Ok(v) => Ok(v != 0),
            Err(e) => Err(e),
        }
    }

    /// The request that sets `SO_OOBINLINE`.
    pub fn set_out_of_band_inline(&self, oob_inline: bool) -> (r: SockOpt)
        ensures
            r == flag_opt(SO_OOBINLINE, oob_inline),
    {
        SockOpt { level: SOL_SOCKET, name: SO_OOBINLINE, value: OptValue::Int(if oob_inline { 1 } else { 0 }) }
    }

    /// The keep-alive interval, from a `WSAIoctl(SIO_KEEPALIVE_VALS)` call
    /// that returned `n` and filled `ka`: `None` when keep-alive is off or
    /// its interval is 0.
    pub fn keepalive(&self, n: i32, ka: TcpKeepalive, last_error: i32) -> (r: Result<Option<Duration>, Error>)
        ensures
            match r {
                Ok(o) => n == 0 && opt_nanos(o) == keepalive_nanos(ka),
                Err(e) => n != 0 && e == Error::Os(last_error),
            },
    {
        if n == 0 {
            if ka.onoff == 0 {
                Ok(None)
            } else {
                Ok(ms2dur(ka.keepaliveinterval))
            }
        } else {
            Err(Error::Os(last_error))
        }
    }

    /// The `tcp_keepalive` that sets keep-alive: off for `None`; for
    /// `Some(d)`, on with idle time and interval both `d` in milliseconds,
    /// rounded as for timeouts. A zero duration is refused.
    pub fn set_keepalive(&self, keepalive: Option<Duration>) -> (r: Result<TcpKeepalive, Error>)
        ensures
            r == set_keepalive_spec(keepalive),
    {
        let ms = dur2ms(keepalive)?;
        let onoff: u32 = if keepalive.is_some() {
            1
        } else {
            0
        };
        Ok(TcpKeepalive { onoff, keepalivetime: ms, keepaliveinterval: ms })
    }
}

/// Keep-alive that is set and read back: off stays off, and a nonzero
/// duration reads back as its rounded millisecond count.
pub proof fn lemma_keepalive_set_then_read(dur: Option<Duration>, ka: TcpKeepalive)
    requires
        set_keepalive_spec(dur) == Ok::<TcpKeepalive, Error>(ka),
    ensures
        keepalive_nanos(ka) == match dur {
            None => None,
            Some(d) => Some((timeout_millis(d@) as nat) * (NANOS_PER_MILLI as nat)),
        },
{
    if let Some(d) = dur {
        crate::timeout::lemma_set_then_read_timeout(d);
    }
}

/// A flag option that is set and read back reads as the flag set.
pub proof fn lemma_flag_set_then_read(name: i32, on: bool)
    ensures
        flag_opt(name, on).value matches OptValue::Int(v) && flag_read(Ok(v)) == Ok::<bool, Error>(on),
{
}

/// The IPv4 multicast interface that is set and read back is the same
/// address.
pub proof fn lemma_multicast_if_v4_set_then_read(interface: Ipv4Addr)
    ensures
        spec_u32_to_ne_bytes(spec_u32_from_ne_bytes(interface@)) == interface@,
{
    lemma_in_addr_roundtrip(interface, InAddr { s_addr: 0 });
}

/// The IPv6 multicast interface index that is set and read back is the same
/// index.
pub proof fn lemma_multicast_if_v6_set_then_read(interface: u32)
    ensures
        (interface as i32) as u32 == interface,
{
    assert((interface as i32) as u32 == interface) by (bit_vector);
}

/// A buffer size up to `i32::MAX` that is set and read back is the same
/// size.
pub proof fn lemma_buffer_size_set_then_read(size: usize)
    requires
        size <= i32::MAX,
    ensures
        (size as i32) as usize == size,
{
}

/// The request that sets a timeout option `name`: at level `SOL_SOCKET`, for
/// `name`, with the value 0 for no timeout; a zero duration is refused;
/// any other duration `d` is sent as the least number of milliseconds `ms`
/// with `d <= ms` milliseconds, or as `u32::MAX` (`INFINITE`) where `d`
/// exceeds `u32::MAX` milliseconds.
pub proof fn lemma_timeout_request(name: i32, dur: Option<Duration>)
    ensures
        match dur {
            None => timeout_opt_spec(name, dur) == Ok::<SockOpt, Error>(
                SockOpt { level: SOL_SOCKET, name, value: OptValue::Dword(0) },
            ),
            Some(d) => if d@ == 0 {
                timeout_opt_spec(name, dur) == Err::<SockOpt, Error>(Error::InvalidInput)
            } else {
                &&& timeout_opt_spec(name, dur) matches Ok(opt)
                &&& opt.level == SOL_SOCKET
                &&& opt.name == name
                &&& opt.value matches OptValue::Dword(ms)
                &&& ms >= 1
                &&& if d@ <= (u32::MAX as nat) * 1_000_000 {
                    (ms - 1) * 1_000_000 < d@ <= ms * 1_000_000
                } else {
                    ms == u32::MAX
                }
            },
        },
{
    lemma_dur2ms_value(dur);
}

/// The `tcp_keepalive` that sets keep-alive: all zero (off) for `None`; a
/// zero duration is refused; any other duration `d` turns keep-alive on
/// with the idle time equal to the interval, both the least number of
/// milliseconds `ms` with `d <= ms` milliseconds, or `u32::MAX` where `d`
/// exceeds `u32::MAX` milliseconds.
pub proof fn lemma_set_keepalive_value(dur: Option<Duration>)
    ensures
        match dur {
            None => set_keepalive_spec(dur) == Ok::<TcpKeepalive, Error>(
                TcpKeepalive { onoff: 0, keepalivetime: 0, keepaliveinterval: 0 },
            ),
            Some(d) => if d@ == 0 {
                set_keepalive_spec(dur) == Err::<TcpKeepalive, Error>(Error::InvalidInput)
            } else {
                &&& set_keepalive_spec(dur) matches Ok(ka)
                &&& ka.onoff == 1
                &&& ka.keepalivetime == ka.keepaliveinterval
                &&& ka.keepaliveinterval >= 1
                &&& if d@ <= (u32::MAX as nat) * 1_000_000 {
                    (ka.keepaliveinterval - 1) * 1_000_000 < d@ <= ka.keepaliveinterval * 1_000_000
                } else {
                    ka.keepaliveinterval == u32::MAX
                }
            },
        },
{
    lemma_dur2ms_value(dur);
}

/// Reading keep-alive gives no duration exactly when keep-alive is off or
/// its interval is 0, and otherwise the interval (not the idle time) in
/// milliseconds, whatever the idle time is.
pub proof fn lemma_keepalive_read(ka: TcpKeepalive, o: Option<Duration>)
    requires
        opt_nanos(o) == keepalive_nanos(ka),
    ensures
        (o is None) <==> (ka.onoff == 0 || ka.keepaliveinterval == 0),
        match o {
            None => true,
            Some(d) => d@ == (ka.keepaliveinterval as nat) * 1_000_000,
        },
{
}

} // verus!
