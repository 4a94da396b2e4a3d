use socket2::error::Error;
use socket2::sys::{
    buf_len_arg, bufs_count_arg, handle_result, int_result, nonblocking_arg, recv_from_vectored_result,
    recv_result, recv_vectored_result, send_result, send_vectored_result, shutdown_how, socket_args,
    socket_result, unit_result, zero_result, getsockopt_result, RecvFlags, Shutdown, Type, DUPLICATE_FLAGS,
    FIONBIO, INVALID_SOCKET, MAX_BUF_LEN, MSG_TRUNC, NO_INHERIT, SD_BOTH, SD_RECEIVE, SD_SEND, SOCKET_ERROR,
    SOCK_STREAM, WSAEMSGSIZE, WSAESHUTDOWN, WSA_FLAG_NO_HANDLE_INHERIT, WSA_FLAG_OVERLAPPED,
};

#[test]
fn no_inherit_sets_top_bit() {
    let t = Type(SOCK_STREAM).no_inherit();
    assert_eq!(t, Type(SOCK_STREAM | i32::MIN));
    assert_eq!(NO_INHERIT, 1 << 31);
}

#[test]
fn socket_args_strip_no_inherit() {
    assert_eq!(socket_args(SOCK_STREAM), (SOCK_STREAM, WSA_FLAG_OVERLAPPED));
    let t = Type(SOCK_STREAM).no_inherit();
    assert_eq!(socket_args(t.0), (SOCK_STREAM, WSA_FLAG_OVERLAPPED | WSA_FLAG_NO_HANDLE_INHERIT));
    assert_eq!(socket_args(t.0).1, 0x81);
    assert_eq!(DUPLICATE_FLAGS, 0x81);
}

#[test]
fn winsock_constants() {
    assert_eq!(FIONBIO, (0x8000_0000u32 | (4 << 16) | (0x66 << 8) | 126) as i32);
    assert_eq!(MAX_BUF_LEN, i32::MAX as usize);
    assert_eq!(INVALID_SOCKET, !0);
}

#[test]
fn shutdown_directions() {
    assert_eq!(shutdown_how(Shutdown::Read), SD_RECEIVE);
    assert_eq!(shutdown_how(Shutdown::Write), SD_SEND);
    assert_eq!(shutdown_how(Shutdown::Both), SD_BOTH);
}

#[test]
fn nonblocking_payload() {
    assert_eq!(nonblocking_arg(true), 1);
    assert_eq!(nonblocking_arg(false), 0);
}

#[test]
fn buffer_lengths_are_capped() {
    assert_eq!(buf_len_arg(0), 0);
    assert_eq!(buf_len_arg(4096), 4096);
    assert_eq!(buf_len_arg(MAX_BUF_LEN), i32::MAX);
    assert_eq!(buf_len_arg(usize::MAX), i32::MAX);
    assert_eq!(bufs_count_arg(3), 3);
    assert_eq!(bufs_count_arg(usize::MAX), u32::MAX);
}

#[test]
fn recv_outcomes() {
    assert_eq!(recv_result(12, 0), Ok(12));
    assert_eq!(recv_result(SOCKET_ERROR, WSAESHUTDOWN), Ok(0));
    assert_eq!(recv_result(SOCKET_ERROR, 10054), Err(Error::Os(10054)));
}

#[test]
fn recv_vectored_outcomes() {
    assert_eq!(recv_vectored_result(0, 9, 0), Ok((9, RecvFlags(0))));
    assert_eq!(recv_vectored_result(SOCKET_ERROR, 9, WSAESHUTDOWN), Ok((0, RecvFlags(0))));
    let (n, flags) = recv_vectored_result(SOCKET_ERROR, 9, WSAEMSGSIZE).unwrap();
    assert_eq!(n, 9);
    assert!(flags.is_truncated());
    assert_eq!(flags, RecvFlags(MSG_TRUNC));
    assert!(!RecvFlags(0).is_truncated());
    assert_eq!(recv_vectored_result(SOCKET_ERROR, 9, 10035), Err(Error::Os(10035)));
}

#[test]
fn recv_from_vectored_outcomes() {
    assert_eq!(recv_from_vectored_result(0, 4, 0), Ok((4, RecvFlags(0))));
    // Unlike WSARecv, a shut-down socket keeps the count.
    assert_eq!(recv_from_vectored_result(SOCKET_ERROR, 4, WSAESHUTDOWN), Ok((4, RecvFlags(0))));
    assert_eq!(recv_from_vectored_result(SOCKET_ERROR, 4, WSAEMSGSIZE), Ok((4, RecvFlags(MSG_TRUNC))));
    assert_eq!(recv_from_vectored_result(SOCKET_ERROR, 4, 1), Err(Error::Os(1)));
}

#[test]
fn send_outcomes() {
    assert_eq!(send_result(100, 0), Ok(100));
    assert_eq!(send_result(SOCKET_ERROR, 10054), Err(Error::Os(10054)));
    assert_eq!(send_vectored_result(0, 77, 0), Ok(77));
    assert_eq!(send_vectored_result(SOCKET_ERROR, 77, 10038), Err(Error::Os(10038)));
}

#[test]
fn plain_outcomes() {
    assert_eq!(socket_result(5, 0), Ok(5));
    assert_eq!(socket_result(INVALID_SOCKET, 10047), Err(Error::Os(10047)));
    assert_eq!(int_result(3, 0), Ok(3));
    assert_eq!(int_result(SOCKET_ERROR, 10038), Err(Error::Os(10038)));
    assert_eq!(unit_result(0, 0), Ok(()));
    assert_eq!(unit_result(SOCKET_ERROR, 10038), Err(Error::Os(10038)));
    assert_eq!(zero_result(0, 0), Ok(()));
    assert_eq!(zero_result(SOCKET_ERROR, 10048), Err(Error::Os(10048)));
    assert_eq!(handle_result(1, 0), Ok(()));
    assert_eq!(handle_result(0, 6), Err(Error::Os(6)));
    assert_eq!(getsockopt_result(0, 42i32, 0), Ok(42));
    assert_eq!(getsockopt_result(SOCKET_ERROR, 42i32, 10042), Err(Error::Os(10042)));
}
