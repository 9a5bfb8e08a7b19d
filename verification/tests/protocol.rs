use mini_winclient::bufsocket::{BufSocket, Drain};
use mini_winclient::event::{Error, Event};
use mini_winclient::socket::{self, FlagsChangeError, ReadError};
use mini_winclient::sys::io_sys::errno::{EAGAIN, EBADF, ECONNREFUSED, EIO};
use mini_winclient::winclient::{
    Client, ConnectError, Format, Handshake, Package, PackageError, HANDSHAKE_LEN,
    PRESENT_HEADER_LEN, PROTO_VERSION,
};
use mini_winclient::wire::Wire;

type Sock = BufSocket<64, 16>;
type Session = Client<64, 16>;

fn connected() -> Sock {
    match BufSocket::connect(Ok(3), Ok(())) {
        Ok(s) => s,
        Err(e) => panic!("{:?}", e),
    }
}

fn holding(bytes: &[u8]) -> Sock {
    let mut s = connected();
    for chunk in bytes.chunks(16) {
        assert_eq!(s.bufferize_chunk(Ok(chunk)), Ok(chunk.len()));
    }
    s
}

fn session(id: u8) -> Session {
    match Client::connect(Ok(holding(&[0, 0, 0, 2, 0, id])), Ok(6)) {
        Ok(Handshake::Ready(c)) => c,
        Ok(Handshake::Connecting(_)) => panic!("the handshake is there in whole"),
        Err(e) => panic!("{:?}", e),
    }
}

fn feed(c: &mut Session, bytes: &[u8]) -> Result<usize, ReadError> {
    // The session owns its connection; bytes reach it through a drain.
    let mut total = 0;
    for b in bytes {
        match c.bufferize(total, Ok(core::slice::from_ref(b))) {
            Drain::More(t) => total = t,
            Drain::Done(r) => return r,
        }
    }
    match c.bufferize(total, Err(EAGAIN)) {
        Drain::More(_) => panic!("nothing was read"),
        Drain::Done(r) => r,
    }
}

#[test]
fn event_close() {
    let mut s = holding(&[0, 0xaa]);
    assert_eq!(Event::pull(&mut s), Ok(Event::Close));
    assert_eq!(s.bytes_available(), 1);
}

#[test]
fn event_resize() {
    let mut s = holding(&[1, 0x04, 0x00, 0x03, 0x00, 0xaa]);
    assert_eq!(Event::pull(&mut s), Ok(Event::Resize { w: 1024, h: 768 }));
    assert_eq!(s.bytes_available(), 1);
    let mut s = holding(&[1, 0xff, 0xff, 0x00, 0x01]);
    assert_eq!(Event::pull(&mut s), Ok(Event::Resize { w: 65535, h: 1 }));
    assert_eq!(s.bytes_available(), 0);
}

#[test]
fn event_unknown_tag() {
    let mut s = holding(&[2, 1, 1]);
    assert_eq!(Event::pull(&mut s), Err(Error::UnknownType(2)));
    assert_eq!(s.bytes_available(), 2);
    let mut s = holding(&[255]);
    assert_eq!(Event::pull(&mut s), Err(Error::UnknownType(255)));
}

#[test]
fn package_event() {
    let mut s = holding(&[1, 0]);
    assert_eq!(Package::pull(&mut s), Ok(Package::Event(Event::Close)));
    assert_eq!(s.bytes_available(), 0);
    let mut s = holding(&[1, 1, 0, 5, 0, 6, 9]);
    assert_eq!(Package::pull(&mut s), Ok(Package::Event(Event::Resize { w: 5, h: 6 })));
    assert_eq!(s.bytes_available(), 1);
}

#[test]
fn package_unknown_type() {
    // Once the session stands, the handshake's type is as unknown as any.
    let mut s = holding(&[0, 7]);
    assert_eq!(Package::pull(&mut s), Err(PackageError::UnknownType(0)));
    assert_eq!(s.bytes_available(), 1);
    let mut s = holding(&[2]);
    assert_eq!(Package::pull(&mut s), Err(PackageError::UnknownType(2)));
    let mut s = holding(&[200, 1, 1]);
    assert_eq!(Package::pull(&mut s), Err(PackageError::UnknownType(200)));
    assert_eq!(s.bytes_available(), 2);
}

#[test]
fn package_unknown_event_tag() {
    let mut s = holding(&[1, 9]);
    assert_eq!(Package::pull(&mut s), Err(PackageError::EventErr(Error::UnknownType(9))));
    assert_eq!(s.bytes_available(), 0);
}

#[test]
fn handshake_gives_the_id() {
    let c = match Client::connect(Ok(holding(&[0, 0, 0, 2, 0, 7])), Ok(6)) {
        Ok(Handshake::Ready(c)) => c,
        _ => panic!("no session"),
    };
    assert_eq!(c.id(), 7);
    assert_eq!(c.bytes_available(), 0);
}

#[test]
fn handshake_leaves_what_follows() {
    let c = match Client::connect(Ok(holding(&[0, 0, 0, 2, 0, 200, 0, 0, 0, 2, 1, 0])), Ok(12)) {
        Ok(Handshake::Ready(c)) => c,
        _ => panic!("no session"),
    };
    assert_eq!(c.id(), 200);
    assert_eq!(c.bytes_available(), 6);
}

#[test]
fn handshake_waits_for_the_whole_packet() {
    let frame = [0u8, 0, 0, 2, 0, 7];
    let mut s = connected();
    for (n, b) in frame.iter().enumerate() {
        s = match Client::connect(Ok(s), Ok(1)) {
            Ok(Handshake::Connecting(s)) => s,
            _ => panic!("a session after {} bytes", n),
        };
        assert_eq!(s.bytes_available(), n);
        assert_eq!(s.bufferize_chunk(Ok(core::slice::from_ref(b))), Ok(1));
    }
    match Client::connect(Ok(s), Ok(1)) {
        Ok(Handshake::Ready(c)) => assert_eq!(c.id(), 7),
        _ => panic!("no session after all bytes"),
    }
}

#[test]
fn handshake_step_by_step() {
    let mut s = holding(&[0, 0, 0]);
    assert_eq!(Client::wait_for_init(&mut s), Ok(None));
    assert_eq!(s.bufferize_chunk(Ok(&[2])), Ok(1));
    assert_eq!(Client::wait_for_init(&mut s), Ok(None));
    assert_eq!(s.bufferize_chunk(Ok(&[0])), Ok(1));
    assert_eq!(Client::wait_for_init(&mut s), Ok(None));
    assert_eq!(s.bytes_available(), 5);
    assert_eq!(s.bufferize_chunk(Ok(&[42, 1])), Ok(2));
    assert_eq!(Client::wait_for_init(&mut s), Ok(Some(42)));
    assert_eq!(s.bytes_available(), 1);
}

#[test]
fn handshake_of_another_length_is_refused() {
    let mut s = holding(&[0, 0, 0, 3, 0, 7, 0]);
    assert_eq!(Client::wait_for_init(&mut s), Err(ConnectError::HandshakeSize(3)));
    assert_eq!(s.bytes_available(), 7);
    // The length is read most significant byte first.
    let mut s = holding(&[2, 0, 0, 0, 0, 7]);
    assert_eq!(Client::wait_for_init(&mut s), Err(ConnectError::HandshakeSize(0x0200_0000)));
    let mut s = holding(&[0, 0, 0, 0]);
    assert_eq!(Client::wait_for_init(&mut s), Err(ConnectError::HandshakeSize(0)));
    match Client::connect(Ok(holding(&[0, 0, 1, 2])), Ok(4)) {
        Err(e) => assert_eq!(e, ConnectError::HandshakeSize(258)),
        Ok(_) => panic!("accepted"),
    }
}

#[test]
fn handshake_of_another_type_is_refused() {
    let mut s = holding(&[0, 0, 0, 2, 1, 7]);
    assert_eq!(Client::wait_for_init(&mut s), Err(ConnectError::HandshakeType(1)));
    assert_eq!(s.bytes_available(), 0);
    match Client::connect(Ok(holding(&[0, 0, 0, 2, 9, 7])), Ok(6)) {
        Err(e) => assert_eq!(e, ConnectError::HandshakeType(9)),
        Ok(_) => panic!("accepted"),
    }
}

#[test]
fn connect_hands_errors_on() {
    let none: Result<Sock, socket::ConnectError> = Err(socket::ConnectError::Refused);
    match Client::connect(none, Ok(0)) {
        Err(e) => assert_eq!(e, ConnectError::ConnectError(socket::ConnectError::Refused)),
        Ok(_) => panic!("accepted"),
    }
    let none: Result<Sock, socket::ConnectError> = BufSocket::connect(Ok(3), Err(ECONNREFUSED));
    match Client::connect(none, Ok(0)) {
        Err(e) => assert_eq!(e, ConnectError::ConnectError(socket::ConnectError::Refused)),
        Ok(_) => panic!("accepted"),
    }
    match Client::connect(Ok(holding(&[0, 0, 0, 2, 0, 7])), Err(ReadError::Unknown(EIO))) {
        Err(e) => assert_eq!(e, ConnectError::ReadError(ReadError::Unknown(5))),
        Ok(_) => panic!("accepted"),
    }
}

#[test]
fn connect_takes_would_block_for_not_yet() {
    match Client::connect(Ok(holding(&[0, 0, 0])), Err(ReadError::Again)) {
        Ok(Handshake::Connecting(s)) => assert_eq!(s.bytes_available(), 3),
        _ => panic!("not connecting"),
    }
}

#[test]
fn session_basics() {
    let mut c = session(7);
    assert_eq!(c.id(), 7);
    assert_eq!(Session::proto_version(), 0);
    assert_eq!(PROTO_VERSION, 0);
    assert_eq!(HANDSHAKE_LEN, 6);
    assert_eq!(c.chunk_request(), 16);
    assert_eq!(c.set_non_blocking_mode(true, Err(EBADF)), Err(FlagsChangeError::BadFd));
    assert_eq!(c.set_non_blocking_mode(true, Ok(0)), Ok(()));
    assert_eq!(c.id(), 7);
}

#[test]
fn poll_without_bytes_gives_nothing() {
    let mut c = session(1);
    assert_eq!(c.read_package(Ok(0)), Ok(None));
    assert_eq!(c.bytes_available(), 0);
}

#[test]
fn poll_after_would_block_gives_nothing() {
    let mut c = session(1);
    let drained = feed(&mut c, &[]);
    assert_eq!(drained, Ok(0));
    assert_eq!(c.read_package(drained), Ok(None));
    assert_eq!(c.read_package(Err(ReadError::Again)), Ok(None));
    assert_eq!(c.bytes_available(), 0);
}

#[test]
fn poll_hands_read_errors_on() {
    let mut c = session(1);
    assert_eq!(feed(&mut c, &[0, 0, 0, 2, 1, 0]), Ok(6));
    assert_eq!(
        c.read_package(Err(ReadError::Unknown(EIO))),
        Err(PackageError::ReadError(ReadError::Unknown(5)))
    );
    assert_eq!(c.bytes_available(), 6);
    assert_eq!(c.read_package(Ok(0)), Ok(Some(Package::Event(Event::Close))));
}

#[test]
fn poll_gives_no_packet_until_the_last_byte() {
    let frame = [0u8, 0, 0, 6, 1, 1, 0x04, 0x00, 0x03, 0x00];
    let mut c = session(1);
    for (n, b) in frame.iter().enumerate() {
        assert_eq!(c.read_package(Ok(1)), Ok(None), "after {} bytes", n);
        assert_eq!(c.bytes_available(), n);
        assert_eq!(feed(&mut c, core::slice::from_ref(b)), Ok(1));
    }
    assert_eq!(
        c.read_package(Ok(1)),
        Ok(Some(Package::Event(Event::Resize { w: 1024, h: 768 })))
    );
    assert_eq!(c.bytes_available(), 0);
    assert_eq!(c.read_package(Ok(0)), Ok(None));
}

#[test]
fn poll_gives_no_close_until_the_last_byte() {
    let frame = [0u8, 0, 0, 2, 1, 0];
    let mut c = session(1);
    for b in frame.iter() {
        assert_eq!(c.read_package(Ok(1)), Ok(None));
        assert_eq!(feed(&mut c, core::slice::from_ref(b)), Ok(1));
    }
    assert_eq!(c.read_package(Ok(1)), Ok(Some(Package::Event(Event::Close))));
    assert_eq!(c.bytes_available(), 0);
}

#[test]
fn poll_gives_one_packet_at_a_time() {
    let mut c = session(1);
    let two = [0u8, 0, 0, 2, 1, 0, 0, 0, 0, 6, 1, 1, 0, 8, 0, 9, 0, 0];
    assert_eq!(feed(&mut c, &two), Ok(18));
    assert_eq!(c.read_package(Ok(18)), Ok(Some(Package::Event(Event::Close))));
    assert_eq!(c.bytes_available(), 12);
    assert_eq!(c.read_package(Ok(0)), Ok(Some(Package::Event(Event::Resize { w: 8, h: 9 }))));
    assert_eq!(c.bytes_available(), 2);
    assert_eq!(c.read_package(Ok(0)), Ok(None));
    assert_eq!(c.bytes_available(), 2);
}

#[test]
fn poll_unknown_event_tag() {
    let mut c = session(1);
    assert_eq!(feed(&mut c, &[0, 0, 0, 1, 1, 9]), Ok(6));
    assert_eq!(c.read_package(Ok(6)), Err(PackageError::EventErr(Error::UnknownType(9))));
    assert_eq!(c.bytes_available(), 0);
}

#[test]
fn poll_unknown_type() {
    let mut c = session(1);
    assert_eq!(feed(&mut c, &[0, 0, 0, 1, 5]), Ok(5));
    assert_eq!(c.read_package(Ok(5)), Err(PackageError::UnknownType(5)));
    assert_eq!(c.bytes_available(), 0);
    assert_eq!(feed(&mut c, &[0, 0, 0, 2, 0, 7]), Ok(6));
    assert_eq!(c.read_package(Ok(6)), Err(PackageError::UnknownType(0)));
    assert_eq!(c.bytes_available(), 1);
}

#[test]
fn poll_waits_for_the_announced_length() {
    let mut c = session(1);
    // A close that announces four bytes more than it needs.
    assert_eq!(feed(&mut c, &[0, 0, 0, 6, 1, 0]), Ok(6));
    assert_eq!(c.read_package(Ok(6)), Ok(None));
    assert_eq!(feed(&mut c, &[0xaa, 0xbb, 0xcc]), Ok(3));
    assert_eq!(c.read_package(Ok(3)), Ok(None));
    assert_eq!(feed(&mut c, &[0xdd]), Ok(1));
    assert_eq!(c.read_package(Ok(1)), Ok(Some(Package::Event(Event::Close))));
    assert_eq!(c.bytes_available(), 4);
}

#[test]
fn poll_waits_for_the_bytes_that_decoding_takes() {
    let mut c = session(1);
    // The length announces nothing, yet a type has to be there.
    assert_eq!(feed(&mut c, &[0, 0, 0, 0]), Ok(4));
    assert_eq!(c.read_package(Ok(4)), Ok(None));
    assert_eq!(c.bytes_available(), 4);
    assert_eq!(feed(&mut c, &[1]), Ok(1));
    assert_eq!(c.read_package(Ok(1)), Ok(None));
    assert_eq!(feed(&mut c, &[1]), Ok(1));
    assert_eq!(c.read_package(Ok(1)), Ok(None));
    assert_eq!(feed(&mut c, &[0, 1, 0]), Ok(3));
    assert_eq!(c.read_package(Ok(3)), Ok(None));
    assert_eq!(c.bytes_available(), 9);
    assert_eq!(feed(&mut c, &[2]), Ok(1));
    assert_eq!(c.read_package(Ok(1)), Ok(Some(Package::Event(Event::Resize { w: 1, h: 2 }))));
    assert_eq!(c.bytes_available(), 0);
}

#[test]
fn present_header_bytes() {
    let c = session(7);
    let pixels = [0u32; 6];
    let header = c.present(Format::ARGB, 1024, 768, &pixels);
    assert_eq!(
        header,
        Some([0, 0, 0, 33, 0, 7, 0, 1, 4, 0x04, 0x00, 0x03, 0x00])
    );
    let grey = [0u8; 300];
    let header = c.present(Format::GS, 20, 15, &grey);
    assert_eq!(header, Some([0, 0, 1, 0x35, 0, 7, 0, 0, 1, 0, 20, 0, 15]));
    let none: [u16; 0] = [];
    let header = c.present(Format::GS, 0, 0, &none);
    assert_eq!(header, Some([0, 0, 0, 9, 0, 7, 0, 0, 2, 0, 0, 0, 0]));
}

#[test]
fn present_fields_read_back() {
    let c = session(3);
    let pixels = [0u32; 10];
    let header = c.present(Format::ARGB, 1024, 768, &pixels).unwrap();
    assert_eq!(header.len(), PRESENT_HEADER_LEN);
    assert_eq!(<u32 as Wire>::decode(&header[0..4]), 9 + 40);
    assert_eq!(header[4], PROTO_VERSION);
    assert_eq!(header[5], 3);
    assert_eq!(header[6], 0);
    let width = <u16 as Wire>::decode(&header[9..11]);
    let height = <u16 as Wire>::decode(&header[11..13]);
    assert_eq!((width, height, header[7], header[8]), (1024, 768, 1, 4));
    // The same bytes, whatever the host's order: the library's own decoders
    // agree with the standard ones for big-endian.
    assert_eq!(u16::from_be_bytes([header[9], header[10]]), 1024);
    assert_eq!(u16::from_be_bytes([header[11], header[12]]), 768);
    assert_eq!(u32::from_be_bytes([header[0], header[1], header[2], header[3]]), 49);
}

#[test]
fn present_refuses_what_does_not_fit() {
    let c = session(3);
    let wide = [[0u8; 256]; 1];
    assert_eq!(c.present(Format::GS, 1, 1, &wide), None);
    let widest = [[0u8; 255]; 2];
    assert_eq!(
        c.present(Format::GS, 2, 1, &widest),
        Some([0, 0, 2, 7, 0, 3, 0, 0, 255, 0, 2, 0, 1])
    );
    // Pixels without size take no bytes, however many there are.
    let units = [(); 5];
    assert_eq!(
        c.present(Format::GS, 5, 1, &units),
        Some([0, 0, 0, 9, 0, 3, 0, 0, 0, 0, 5, 0, 1])
    );
}

#[test]
fn format_codes() {
    assert_eq!(Format::GS.code(), 0);
    assert_eq!(Format::ARGB.code(), 1);
}
