use mini_winclient::socket::{
    ConnectError, FlagsChangeError, ReadError, Socket, SocketIter, WriteError, LOCALHOST,
};
use mini_winclient::sys::io_sys::bits::O_NONBLOCK;
use mini_winclient::sys::io_sys::errno::{
    EACCES, EAFNOSUPPORT, EAGAIN, EBADF, ECONNREFUSED, EINTR, EINVAL, EIO, EMFILE, ENFILE,
    ENOBUFS, EPIPE, EPROTONOSUPPORT, ETIMEDOUT,
};

fn err(r: Result<Socket, ConnectError>) -> ConnectError {
    match r {
        Ok(_) => panic!("a connection where none was due"),
        Err(e) => e,
    }
}

#[test]
fn connect_gives_a_blocking_connection() {
    let s = match Socket::connect(Ok(5), Ok(())) {
        Ok(s) => s,
        Err(e) => panic!("{:?}", e),
    };
    assert_eq!(s.fd(), 5);
    assert_eq!(s.non_blocking(), false);
}

#[test]
fn connect_names_each_create_error() {
    assert_eq!(err(Socket::connect(Err(EACCES), Ok(()))), ConnectError::NoAccess);
    assert_eq!(err(Socket::connect(Err(EAFNOSUPPORT), Ok(()))), ConnectError::AfNoSupport);
    assert_eq!(err(Socket::connect(Err(EINVAL), Ok(()))), ConnectError::Invalid);
    assert_eq!(err(Socket::connect(Err(EMFILE), Ok(()))), ConnectError::MFile);
    assert_eq!(err(Socket::connect(Err(ENFILE), Ok(()))), ConnectError::NFile);
    assert_eq!(err(Socket::connect(Err(ENOBUFS), Ok(()))), ConnectError::NoBufs);
    assert_eq!(err(Socket::connect(Err(EPROTONOSUPPORT), Ok(()))), ConnectError::ProtoNoSupport);
    assert_eq!(err(Socket::connect(Err(EIO), Ok(()))), ConnectError::UnknownCreateErr(5));
    assert_eq!(err(Socket::connect(Err(9999), Ok(()))), ConnectError::UnknownCreateErr(9999));
    // Refused is a matter of connecting, not of creating.
    assert_eq!(
        err(Socket::connect(Err(ECONNREFUSED), Ok(()))),
        ConnectError::UnknownCreateErr(111)
    );
}

#[test]
fn connect_names_each_connect_error() {
    assert_eq!(err(Socket::connect(Ok(3), Err(ECONNREFUSED))), ConnectError::Refused);
    assert_eq!(err(Socket::connect(Ok(3), Err(ETIMEDOUT))), ConnectError::UnknownConnectErr(110));
    assert_eq!(err(Socket::connect(Ok(3), Err(EACCES))), ConnectError::UnknownConnectErr(13));
}

#[test]
fn connect_looks_at_creating_first() {
    assert_eq!(err(Socket::connect(Err(EMFILE), Err(ECONNREFUSED))), ConnectError::MFile);
}

#[test]
fn flags_to_set() {
    assert_eq!(Socket::non_blocking_flags(Ok(0), true), Ok(O_NONBLOCK));
    assert_eq!(Socket::non_blocking_flags(Ok(0o2), true), Ok(0o4002));
    assert_eq!(Socket::non_blocking_flags(Ok(0o4002), true), Ok(0o4002));
    assert_eq!(Socket::non_blocking_flags(Ok(0o4002), false), Ok(0o2));
    assert_eq!(Socket::non_blocking_flags(Ok(0o2), false), Ok(0o2));
    assert_eq!(Socket::non_blocking_flags(Ok(usize::MAX), false), Ok(usize::MAX - 2048));
    assert_eq!(Socket::non_blocking_flags(Err(EBADF), true), Err(FlagsChangeError::BadFd));
    assert_eq!(Socket::non_blocking_flags(Err(EINTR), false), Err(FlagsChangeError::Interrupted));
    assert_eq!(Socket::non_blocking_flags(Err(EINVAL), true), Err(FlagsChangeError::Unknown(22)));
}

#[test]
fn mode_changes_only_when_set() {
    let mut s = Socket::connect(Ok(4), Ok(())).ok().unwrap();
    assert_eq!(s.set_non_blocking_mode(true, Err(EBADF)), Err(FlagsChangeError::BadFd));
    assert_eq!(s.non_blocking(), false);
    assert_eq!(s.set_non_blocking_mode(true, Err(EINTR)), Err(FlagsChangeError::Interrupted));
    assert_eq!(s.set_non_blocking_mode(true, Err(77)), Err(FlagsChangeError::Unknown(77)));
    assert_eq!(s.non_blocking(), false);
    assert_eq!(s.set_non_blocking_mode(true, Ok(0)), Ok(()));
    assert_eq!(s.non_blocking(), true);
    assert_eq!(s.fd(), 4);
    assert_eq!(s.set_non_blocking_mode(false, Ok(0)), Ok(()));
    assert_eq!(s.non_blocking(), false);
}

#[test]
fn flags_change_error_from_errno() {
    assert_eq!(FlagsChangeError::from(EBADF), FlagsChangeError::BadFd);
    assert_eq!(FlagsChangeError::from(EINTR), FlagsChangeError::Interrupted);
    assert_eq!(FlagsChangeError::from(EAGAIN), FlagsChangeError::Unknown(11));
}

#[test]
fn reads_and_writes_are_classified() {
    let mut s = Socket::connect(Ok(4), Ok(())).ok().unwrap();
    assert_eq!(s.read_bytes(Ok(0)), Ok(0));
    assert_eq!(s.read_bytes(Ok(17)), Ok(17));
    assert_eq!(s.read_bytes(Err(EAGAIN)), Err(ReadError::Again));
    assert_eq!(s.read_bytes(Err(EBADF)), Err(ReadError::Unknown(9)));
    assert_eq!(s.read_bytes(Err(EIO)), Err(ReadError::Unknown(5)));
    assert_eq!(s.write_bytes(Ok(13)), Ok(13));
    assert_eq!(s.write_bytes(Err(EPIPE)), Err(WriteError::Unknown(32)));
    assert_eq!(s.write_bytes(Err(EAGAIN)), Err(WriteError::Unknown(11)));
    assert_eq!(s.fd(), 4);
}

#[test]
fn typed_values_in_wire_order() {
    let mut s = Socket::connect(Ok(4), Ok(())).ok().unwrap();
    let mut out = [0xaau8; 6];
    assert_eq!(s.write_transmuted(0x0a0b_0c0du32, &mut out), 4);
    assert_eq!(out, [0x0a, 0x0b, 0x0c, 0x0d, 0xaa, 0xaa]);
    assert_eq!(s.write_transmuted(0x0102u16, &mut out), 2);
    assert_eq!(out, [0x01, 0x02, 0x0c, 0x0d, 0xaa, 0xaa]);

    let mut size: u32 = 99;
    assert_eq!(s.read_transmuted(&mut size, Ok(&[0, 0, 0, 2][..])), Ok(4));
    assert_eq!(size, 2);
    // A short read leaves the value alone.
    assert_eq!(s.read_transmuted(&mut size, Ok(&[1, 1][..])), Ok(2));
    assert_eq!(size, 2);
    assert_eq!(s.read_transmuted(&mut size, Err(EAGAIN)), Err(ReadError::Again));
    assert_eq!(s.read_transmuted(&mut size, Err(EIO)), Err(ReadError::Unknown(5)));
    assert_eq!(size, 2);
    let mut id: u8 = 0;
    assert_eq!(s.read_transmuted(&mut id, Ok(&[7][..])), Ok(1));
    assert_eq!(id, 7);
}

#[test]
fn iterator_hands_out_what_was_read() {
    let mut s = Socket::connect(Ok(4), Ok(())).ok().unwrap();
    let mut it: SocketIter<4> = s.iter();
    assert_eq!(it.exhausted(), true);
    assert_eq!(it.next(&[1, 2, 3]), Some(1));
    assert_eq!(it.exhausted(), false);
    // Not exhausted: what is handed in does not count.
    assert_eq!(it.next(&[9, 9]), Some(2));
    assert_eq!(it.next(&[]), Some(3));
    assert_eq!(it.exhausted(), true);
    assert_eq!(it.next(&[4, 5, 6, 7]), Some(4));
    assert_eq!(it.next(&[]), Some(5));
    assert_eq!(it.next(&[]), Some(6));
    assert_eq!(it.next(&[]), Some(7));
    // The read gave nothing.
    assert_eq!(it.next(&[]), None);
    assert_eq!(it.exhausted(), true);
}

#[test]
fn localhost() {
    assert_eq!(LOCALHOST, [127, 0, 0, 1]);
}
