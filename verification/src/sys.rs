//! Winsock constants, socket types and flags, and the meaning of what the
//! Winsock calls return.

use vstd::prelude::*;

use crate::error::Error;

verus! {

/// What most Winsock calls return on failure.
pub const SOCKET_ERROR: i32 = -1;

/// What the socket-creating calls return on failure.
pub const INVALID_SOCKET: usize = usize::MAX;

/// Error code: a datagram was larger than the buffer and was truncated.
pub const WSAEMSGSIZE: i32 = 10040;

/// Error code: the socket has been shut down for this direction.
pub const WSAESHUTDOWN: i32 = 10058;

/// `WSASocketW` flag: the socket supports overlapped I/O.
pub const WSA_FLAG_OVERLAPPED: u32 = 0x01;

/// `WSASocketW` flag: the socket handle is not inherited by child processes.
pub const WSA_FLAG_NO_HANDLE_INHERIT: u32 = 0x80;

/// The flags with which a socket is duplicated: overlapped and not
/// inheritable.
pub const DUPLICATE_FLAGS: u32 = WSA_FLAG_OVERLAPPED | WSA_FLAG_NO_HANDLE_INHERIT;

/// `shutdown` directions.
pub const SD_RECEIVE: i32 = 0x00;
pub const SD_SEND: i32 = 0x01;
pub const SD_BOTH: i32 = 0x02;

/// `ioctlsocket` command that sets or clears non-blocking mode.
pub const FIONBIO: i32 = -2147195266;

/// `SetHandleInformation` flag: the handle is inherited by child processes.
pub const HANDLE_FLAG_INHERIT: u32 = 0x01;

/// Address families, socket types and protocols.
pub const AF_INET: i32 = 2;
pub const AF_INET6: i32 = 23;
pub const SOCK_STREAM: i32 = 1;
pub const SOCK_DGRAM: i32 = 2;
pub const SOCK_RAW: i32 = 3;
pub const SOCK_RDM: i32 = 4;
pub const SOCK_SEQPACKET: i32 = 5;

/// Receive flag: peek at the data without removing it.
pub const MSG_PEEK: i32 = 0x2;

/// The truncation flag of `RecvFlags`. Winsock has no such flag: it is set
/// when a receive call fails with `WSAEMSGSIZE`, and its value is chosen here.
pub const MSG_TRUNC: i32 = 0x01;

/// The flag of a socket type that asks for a socket that child processes
/// do not inherit: the highest bit of the type.
pub const NO_INHERIT: i32 = i32::MIN;

/// The largest buffer length passed to a call such as `recv` or `send`.
pub const MAX_BUF_LEN: usize = 0x7FFF_FFFF;

/// A socket type, such as `SOCK_STREAM`, possibly with the `NO_INHERIT` flag.
#[derive(Clone, Copy, Debug, PartialEq, Eq, Structural)]
pub struct Type(pub i32);

impl Type {
    /// The same type, asking for a socket that child processes do not
    /// inherit (`WSA_FLAG_NO_HANDLE_INHERIT`).
    pub fn no_inherit(self) -> (r: Type)
        ensures
            r.0 == self.0 | NO_INHERIT,
    {
        self._no_inherit()
    }

    pub(crate) fn _no_inherit(self) -> (r: Type)
        ensures
            r.0 == self.0 | NO_INHERIT,
    {
        Type(self.0 | NO_INHERIT)
    }
}

/// The socket type and `WSASocketW` flags to create a socket of type `ty`:
/// a `NO_INHERIT` flag in `ty` is removed from it and turned into
/// `WSA_FLAG_NO_HANDLE_INHERIT`; the socket is always overlapped.
pub open spec fn socket_args_spec(ty: i32) -> (i32, u32) {
    if ty & NO_INHERIT != 0 {
        (ty & !NO_INHERIT, WSA_FLAG_OVERLAPPED | WSA_FLAG_NO_HANDLE_INHERIT)
    } else {
        (ty, WSA_FLAG_OVERLAPPED)
    }
}

/// The type and flags that `WSASocketW` is called with to create a socket of
/// type `ty` (see `socket_args_spec`).
pub fn socket_args(ty: i32) -> (r: (i32, u32))
    ensures
        r == socket_args_spec(ty),
{
    if ty & NO_INHERIT != 0 {
        (ty & !NO_INHERIT, WSA_FLAG_OVERLAPPED | WSA_FLAG_NO_HANDLE_INHERIT)
    } else {
        (ty, WSA_FLAG_OVERLAPPED)
    }
}

/// A socket type marked with `no_inherit` is created with its plain type and
/// with `WSA_FLAG_NO_HANDLE_INHERIT`; an unmarked type with a clear top bit is
/// created as it is, inheritable.
pub proof fn lemma_no_inherit_reaches_socket(ty: i32)
    requires
        ty >= 0,
    ensures
        socket_args_spec(ty | NO_INHERIT) == (ty, WSA_FLAG_OVERLAPPED | WSA_FLAG_NO_HANDLE_INHERIT),
        socket_args_spec(ty) == (ty, WSA_FLAG_OVERLAPPED),
{
    assert((ty | i32::MIN) & i32::MIN != 0) by (bit_vector);
    assert(ty >= 0 ==> (ty | i32::MIN) & !i32::MIN == ty) by (bit_vector);
    assert(ty >= 0 ==> ty & i32::MIN == 0) by (bit_vector);
}

/// Flags of a completed receive.
#[derive(Clone, Copy, Debug, PartialEq, Eq, Structural)]
pub struct RecvFlags(pub i32);

impl RecvFlags {
    /// Whether the received message was truncated because the buffer was
    /// too small.
    pub fn is_truncated(&self) -> (r: bool)
        ensures
            r == (self.0 & MSG_TRUNC != 0),
    {
        self.0 & MSG_TRUNC != 0
    }
}

/// The directions that `shutdown` can close.
#[derive(Clone, Copy, Debug, PartialEq, Eq, Structural)]
pub enum Shutdown {
    Read,
    Write,
    Both,
}

/// The `how` argument of the Winsock `shutdown` call.
pub fn shutdown_how(how: Shutdown) -> (r: i32)
    ensures
        r == match how {
            Shutdown::Write => SD_SEND,
            Shutdown::Read => SD_RECEIVE,
            Shutdown::Both => SD_BOTH,
        },
{
    match how {
        Shutdown::Write => SD_SEND,
        Shutdown::Read => SD_RECEIVE,
        Shutdown::Both => SD_BOTH,
    }
}

/// The payload of `FIONBIO`: 1 to make the socket non-blocking, 0 to make it
/// blocking.
pub fn nonblocking_arg(nonblocking: bool) -> (r: u32)
    ensures
        r == (if nonblocking {
            1u32
        } else {
            0u32
        }),
{
    if nonblocking {
        1
    } else {
        0
    }
}

/// The length passed for a buffer of `len` bytes: `len`, capped at
/// `MAX_BUF_LEN`; longer buffers are used only in part.
pub fn buf_len_arg(len: usize) -> (r: i32)
    ensures
        r == (if len < MAX_BUF_LEN {
            len
        } else {
            MAX_BUF_LEN
        }),
{
    if len < MAX_BUF_LEN {
        len as i32
    } else {
        MAX_BUF_LEN as i32
    }
}

/// The count passed for `len` buffers: `len`, capped at `u32::MAX`.
pub fn bufs_count_arg(len: usize) -> (r: u32)
    ensures
        r == (if len < u32::MAX {
            len
        } else {
            u32::MAX as usize
        }),
{
    if len < u32::MAX as usize {
        len as u32
    } else {
        u32::MAX
    }
}

/// The outcome of a call that failed exactly when `failed` holds, with
/// `code` the error that the system reported for it.
pub open spec fn outcome<T>(failed: bool, value: T, code: i32) -> Result<T, Error> {
    if failed {
        Err(Error::Os(code))
    } else {
        Ok(value)
    }
}

/// The outcome of a call that returns a socket (`socket`, `accept`,
/// `WSASocketW`): it failed when it returned `INVALID_SOCKET`.
pub fn socket_result(socket: usize, last_error: i32) -> (r: Result<usize, Error>)
    ensures
        r == outcome(socket == INVALID_SOCKET, socket, last_error),
{
    if socket == INVALID_SOCKET {
        Err(Error::Os(last_error))
    } else {
        Ok(socket)
    }
}

/// The outcome of a call that returns `SOCKET_ERROR` on failure
/// (`getsockname`, `getpeername`, `WSADuplicateSocketW`, ...).
pub fn int_result(ret: i32, last_error: i32) -> (r: Result<i32, Error>)
    ensures
        r == outcome(ret == SOCKET_ERROR, ret, last_error),
{
    if ret == SOCKET_ERROR {
        Err(Error::Os(last_error))
    } else {
        Ok(ret)
    }
}

/// The outcome of a call that returns `SOCKET_ERROR` on failure and nothing
/// of interest otherwise (`shutdown`, `ioctlsocket`, `setsockopt`).
pub fn unit_result(ret: i32, last_error: i32) -> (r: Result<(), Error>)
    ensures
        r == outcome(ret == SOCKET_ERROR, (), last_error),
{
    if ret == SOCKET_ERROR {
        Err(Error::Os(last_error))
    } else {
        Ok(())
    }
}

/// The outcome of a call that returns 0 on success and anything else on
/// failure (`bind`, `connect`, `listen`).
pub fn zero_result(ret: i32, last_error: i32) -> (r: Result<(), Error>)
    ensures
        r == outcome(ret != 0, (), last_error),
{
    if ret != 0 {
        Err(Error::Os(last_error))
    } else {
        Ok(())
    }
}

/// The outcome of `SetHandleInformation`, which returns 0 on failure.
pub fn handle_result(ret: i32, last_error: i32) -> (r: Result<(), Error>)
    ensures
        r == outcome(ret == 0, (), last_error),
{
    if ret == 0 {
        Err(Error::Os(last_error))
    } else {
        Ok(())
    }
}

/// The outcome of `getsockopt`, which on success filled `optval`. (That it
/// also wrote the full length of `optval` is a debug-build check only.)
pub fn getsockopt_result<T>(ret: i32, optval: T, last_error: i32) -> (r: Result<T, Error>)
    ensures
        r == outcome(ret == SOCKET_ERROR, optval, last_error),
{
    if ret == SOCKET_ERROR {
        Err(Error::Os(last_error))
    } else {
        Ok(optval)
    }
}

/// What `recv` and `recvfrom` return for a call that returned `ret`: the
/// byte count, or 0 (end of stream) where the socket was shut down for
/// reading, or the error.
pub open spec fn recv_spec(ret: i32, last_error: i32) -> Result<usize, Error> {
    if ret != SOCKET_ERROR {
        Ok(ret as usize)
    } else if last_error == WSAESHUTDOWN {
        Ok(0)
    } else {
        Err(Error::Os(last_error))
    }
}

/// The outcome of `recv` or `recvfrom` (see `recv_spec`).
pub fn recv_result(ret: i32, last_error: i32) -> (r: Result<usize, Error>)
    ensures
        r == recv_spec(ret, last_error),
{
    if ret != SOCKET_ERROR {
        Ok(ret as usize)
    } else if last_error == WSAESHUTDOWN {
        Ok(0)
    } else {
        Err(Error::Os(last_error))
    }
}

/// What `WSARecv` returns: the byte count `nread` with no flags; on a socket
/// shut down for reading 0 bytes; on a truncated message `nread` with the
/// truncation flag; else the error.
pub open spec fn recv_vectored_spec(ret: i32, nread: u32, last_error: i32) -> Result<(usize, RecvFlags), Error> {
    if ret != SOCKET_ERROR {
        Ok((nread as usize, RecvFlags(0)))
    } else if last_error == WSAESHUTDOWN {
        Ok((0, RecvFlags(0)))
    } else if last_error == WSAEMSGSIZE {
        Ok((nread as usize, RecvFlags(MSG_TRUNC)))
    } else {
        Err(Error::Os(last_error))
    }
}

/// The outcome of `WSARecv` (see `recv_vectored_spec`).
pub fn recv_vectored_result(ret: i32, nread: u32, last_error: i32) -> (r: Result<(usize, RecvFlags), Error>)
    ensures
        r == recv_vectored_spec(ret, nread, last_error),
{
    if ret != SOCKET_ERROR {
        Ok((nread as usize, RecvFlags(0)))
    } else if last_error == WSAESHUTDOWN {
        Ok((0, RecvFlags(0)))
    } else if last_error == WSAEMSGSIZE {
        Ok((nread as usize, RecvFlags(MSG_TRUNC)))
    } else {
        Err(Error::Os(last_error))
    }
}

/// What `WSARecvFrom` returns: as `WSARecv`, except that on a socket shut
/// down for reading the count `nread` is kept.
pub open spec fn recv_from_vectored_spec(ret: i32, nread: u32, last_error: i32) -> Result<(usize, RecvFlags), Error> {
    if ret != SOCKET_ERROR {
        Ok((nread as usize, RecvFlags(0)))
    } else if last_error == WSAESHUTDOWN {
        Ok((nread as usize, RecvFlags(0)))
    } else if last_error == WSAEMSGSIZE {
        Ok((nread as usize, RecvFlags(MSG_TRUNC)))
    } else {
        Err(Error::Os(last_error))
    }
}

/// The outcome of `WSARecvFrom` (see `recv_from_vectored_spec`).
pub fn recv_from_vectored_result(ret: i32, nread: u32, last_error: i32) -> (r: Result<(usize, RecvFlags), Error>)
    ensures
        r == recv_from_vectored_spec(ret, nread, last_error),
{
    if ret != SOCKET_ERROR {
        Ok((nread as usize, RecvFlags(0)))
    } else if last_error == WSAESHUTDOWN {
        Ok((nread as usize, RecvFlags(0)))
    } else if last_error == WSAEMSGSIZE {
        Ok((nread as usize, RecvFlags(MSG_TRUNC)))
    } else {
        Err(Error::Os(last_error))
    }
}

/// The outcome of `send` or `sendto`: the byte count that the call returned.
pub fn send_result(ret: i32, last_error: i32) -> (r: Result<usize, Error>)
    ensures
        r == outcome(ret == SOCKET_ERROR, ret as usize, last_error),
{
    if ret == SOCKET_ERROR {
        Err(Error::Os(last_error))
    } else {
        Ok(ret as usize)
    }
}

/// The outcome of `WSASend` or `WSASendTo`: the byte count `nsent` that the
/// call wrote back.
pub fn send_vectored_result(ret: i32, nsent: u32, last_error: i32) -> (r: Result<usize, Error>)
    ensures
        r == outcome(ret == SOCKET_ERROR, nsent as usize, last_error),
{
    if ret == SOCKET_ERROR {
        Err(Error::Os(last_error))
    } else {
        Ok(nsent as usize)
    }
}

/// A receive by `recv` or `recvfrom` succeeds with the count that the call
/// returned whenever the call did not fail, 0 (end of stream) included; a
/// failure on a socket shut down for reading is end of stream; any other
/// failure is the reported error.
pub proof fn lemma_recv_outcomes(ret: i32, last_error: i32)
    ensures
        ret != SOCKET_ERROR ==> recv_spec(ret, last_error) == Ok::<usize, Error>(ret as usize),
        ret >= 0 ==> (recv_spec(ret, last_error) matches Ok(n) && n == ret),
        ret == SOCKET_ERROR && last_error == WSAESHUTDOWN ==> recv_spec(ret, last_error) == Ok::<
            usize,
            Error,
        >(0),
        ret == SOCKET_ERROR && last_error != WSAESHUTDOWN ==> recv_spec(ret, last_error) == Err::<
            usize,
            Error,
        >(Error::Os(last_error)),
{
}

/// A `RecvFlags` value marks truncation exactly when it holds `MSG_TRUNC`.
proof fn lemma_trunc_flag()
    ensures
        0i32 & MSG_TRUNC == 0,
        MSG_TRUNC & MSG_TRUNC != 0,
{
    assert(0i32 & 0x01i32 == 0) by (bit_vector);
    assert(0x01i32 & 0x01i32 != 0) by (bit_vector);
}

/// A vectored receive by `WSARecv` succeeds exactly when the call did not
/// fail, or failed on a socket shut down for reading, or on a truncated
/// message. When the call did not fail, the count is `nread`, 0 included,
/// with no truncation; after a shutdown it is 0; a truncated message keeps
/// `nread` and is the only outcome flagged as truncated. Any other failure
/// is the reported error.
pub proof fn lemma_recv_vectored_outcomes(ret: i32, nread: u32, last_error: i32)
    ensures
        ret != SOCKET_ERROR ==> recv_vectored_spec(ret, nread, last_error) == Ok::<
            (usize, RecvFlags),
            Error,
        >((nread as usize, RecvFlags(0))),
        recv_vectored_spec(ret, nread, last_error) is Ok <==> (ret != SOCKET_ERROR || last_error
            == WSAESHUTDOWN || last_error == WSAEMSGSIZE),
        match recv_vectored_spec(ret, nread, last_error) {
            Ok((n, flags)) => {
                &&& (flags.0 & MSG_TRUNC != 0) <==> (ret == SOCKET_ERROR && last_error
                    != WSAESHUTDOWN && last_error == WSAEMSGSIZE)
                &&& n == (if ret == SOCKET_ERROR && last_error == WSAESHUTDOWN {
                    0
                } else {
                    nread
                })
            },
            Err(e) => e == Error::Os(last_error),
        },
{
    lemma_trunc_flag();
}

/// As `lemma_recv_vectored_outcomes`, for `WSARecvFrom`, except that after
/// a shutdown the count `nread` is kept.
pub proof fn lemma_recv_from_vectored_outcomes(ret: i32, nread: u32, last_error: i32)
    ensures
        ret != SOCKET_ERROR ==> recv_from_vectored_spec(ret, nread, last_error) == Ok::<
            (usize, RecvFlags),
            Error,
        >((nread as usize, RecvFlags(0))),
        recv_from_vectored_spec(ret, nread, last_error) is Ok <==> (ret != SOCKET_ERROR
            || last_error == WSAESHUTDOWN || last_error == WSAEMSGSIZE),
        match recv_from_vectored_spec(ret, nread, last_error) {
            Ok((n, flags)) => {
                &&& (flags.0 & MSG_TRUNC != 0) <==> (ret == SOCKET_ERROR && last_error
                    != WSAESHUTDOWN && last_error == WSAEMSGSIZE)
                &&& n == nread
            },
            Err(e) => e == Error::Os(last_error),
        },
{
    lemma_trunc_flag();
}

} // verus!
