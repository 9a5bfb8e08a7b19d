//! The session: the handshake, the frames that go out and the packets that
//! come in.
//!
//! A packet on the wire is a `u32` length and then that many bytes. What
//! comes in starts with a type byte. The handshake packet is the type 0 and
//! the client's id, so its length is 2. An event packet is the type 1 and
//! the event.

use crate::bufsocket::{BufSocket, Drain};
use crate::event::{self, Event};
use crate::socket::{self, FlagsChangeError, ReadError, Socket, WriteError};
use crate::sys::io_sys::ErrNo;
use crate::wire::Wire;
use core::mem::size_of;
use vstd::prelude::*;

pub mod in_package_types;
pub mod out_package_types;

verus! {

/// How the pixels of a frame are to be read.
#[derive(Debug, Clone, Copy, PartialEq, Eq, Structural)]
pub enum Format {
    /// Shades of grey.
    GS,
    /// Alpha, red, green, blue.
    ARGB,
}

pub const PROTO_VERSION: u8 = 0;

pub type PackageType = u8;

/// Number of bytes in the length that every packet starts with.
pub const SIZE_LEN: usize = 4;

/// The length that the handshake packet announces: a type and an id.
pub const HANDSHAKE_SIZE: u32 = 2;

/// Number of bytes in the handshake packet, its length included.
pub const HANDSHAKE_LEN: usize = 6;

/// Number of bytes that go before the pixels of a present packet.
pub const PRESENT_HEADER_LEN: usize = 13;

/// Number of bytes at the front of a packet that tell how many bytes
/// decoding it takes: the length, the type and the event's tag.
const ENVELOPE_LEN: usize = 6;

/// A packet that came in.
#[derive(Debug, Clone, Copy, PartialEq, Eq, Structural)]
pub enum Package {
    /// The handshake: the id that the server gave this client.
    Init(u8),
    Event(Event),
}

/// Why no packet could be handed out.
#[derive(Debug, Clone, Copy, PartialEq, Eq, Structural)]
pub enum PackageError {
    ReadError(ReadError),
    /// The packet's type is none of the known ones; here it is.
    UnknownType(u8),
    EventErr(event::Error),
}

/// Why no session came about.
#[derive(Debug, Clone, Copy, PartialEq, Eq, Structural)]
pub enum ConnectError {
    ConnectError(socket::ConnectError),
    ReadError(ReadError),
    /// The first packet announced this length where the handshake has 2.
    HandshakeSize(u32),
    /// The first packet had this type where the handshake has 0.
    HandshakeType(u8),
}

impl Format {
    /// The byte that stands for the format.
    pub open spec fn spec_code(self) -> u8 {
        match self {
            Format::GS => 0,
            Format::ARGB => 1,
        }
    }

    #[verifier::when_used_as_spec(spec_code)]
    pub fn code(self) -> (c: u8)
        ensures
            c == self.spec_code(),
    {
        match self {
            Format::GS => 0,
            Format::ARGB => 1,
        }
    }
}

impl Package {
    /// The bytes of the packet that carries the event `e`: the length of
    /// what follows, the type, the event.
    pub open spec fn event_frame(e: Event) -> Seq<u8> {
        ((1 + e.to_wire().len()) as u32).to_wire() + seq![in_package_types::EVENT] + e.to_wire()
    }

    /// Number of bytes that decoding takes from the front of `bytes`, which
    /// start behind a packet's length: the type and, for an event, the
    /// event.
    pub open spec fn wire_len(bytes: Seq<u8>) -> nat {
        if bytes.len() > 0 && bytes[0] == in_package_types::EVENT {
            1 + Event::wire_len(bytes.skip(1))
        } else {
            1
        }
    }

    /// What the front of `bytes`, which start behind a packet's length,
    /// decodes to. Only events come in once the session stands: every other
    /// type is an error that carries the type.
    pub open spec fn from_wire(bytes: Seq<u8>) -> Result<Package, PackageError> {
        if bytes[0] == in_package_types::EVENT {
            match Event::from_wire(bytes.skip(1)) {
                Ok(e) => Ok(Package::Event(e)),
                Err(err) => Err(PackageError::EventErr(err)),
            }
        } else {
            Err(PackageError::UnknownType(bytes[0]))
        }
    }

    /// Whether a whole packet lies at the front of `bytes`: its length is
    /// there, as many bytes as the length announces are there, and so are
    /// all bytes that decoding takes.
    pub open spec fn ready(bytes: Seq<u8>) -> bool {
        &&& bytes.len() >= SIZE_LEN
        &&& bytes.len() - SIZE_LEN >= u32::from_wire(bytes)
        &&& bytes.len() - SIZE_LEN >= Package::wire_len(bytes.skip(SIZE_LEN as int))
    }

    /// Takes one packet's type and what belongs to it from the front of the
    /// buffer, where the packet's length has been taken already. All those
    /// bytes must be buffered.
    pub fn pull<const CAPACITY: usize, const CHUNK_LEN: usize>(
        s: &mut BufSocket<CAPACITY, CHUNK_LEN>,
    ) -> (r: Result<Package, PackageError>)
        requires
            old(s).wf(),
            old(s)@.len() >= Package::wire_len(old(s)@),
        ensures
            final(s).wf(),
            final(s).socket() == old(s).socket(),
            r == Package::from_wire(old(s)@),
            final(s)@ == old(s)@.skip(Package::wire_len(old(s)@) as int),
    {
        let mut package_type: PackageType = 0;
        s.read_transmuted(&mut package_type);
        if package_type == in_package_types::EVENT {
            match Event::pull(s) {
                Ok(event) => Ok(Package::Event(event)),
                Err(err) => Err(PackageError::EventErr(err)),
            }
        } else {
            Err(PackageError::UnknownType(package_type))
        }
    }
}

/// A session: a buffered connection on which the handshake is done, and
/// the id that the handshake gave.
pub struct Client<const CAPACITY: usize, const CHUNK_LEN: usize> {
    s: BufSocket<CAPACITY, CHUNK_LEN>,
    id: u8,
}

/// Where making a session stands.
pub enum Handshake<const CAPACITY: usize, const CHUNK_LEN: usize> {
    /// The handshake is done: here is the session.
    Ready(Client<CAPACITY, CHUNK_LEN>),
    /// The handshake packet has not come in whole: here is the connection,
    /// to drain again.
    Connecting(BufSocket<CAPACITY, CHUNK_LEN>),
}

/// The number of bytes after the length of a present packet whose pixels
/// take `pixel_bytes` bytes: one byte each for version, id, type, format and
/// pixel size, two each for width and height, and the pixels.
pub open spec fn present_size(pixel_bytes: nat) -> nat {
    5 * u8::width() + 2 * u16::width() + pixel_bytes
}

/// The bytes that go before the pixels of a present packet.
pub open spec fn present_header(
    id: u8,
    format: Format,
    pixel_size: u8,
    w: u16,
    h: u16,
    pixel_bytes: nat,
) -> Seq<u8>
    recommends
        present_size(pixel_bytes) <= u32::MAX,
{
    (present_size(pixel_bytes) as u32).to_wire() + seq![
        PROTO_VERSION,
        id,
        out_package_types::PRESENT,
        format.spec_code(),
        pixel_size,
    ] + w.to_wire() + h.to_wire()
}

/// Byte order round trip: whoever decodes the header of a present packet
/// most significant byte first reads the very numbers that went in. Nothing
/// in this depends on the host.
pub proof fn lemma_present_round_trip(
    id: u8,
    format: Format,
    pixel_size: u8,
    w: u16,
    h: u16,
    pixel_bytes: nat,
)
    requires
        present_size(pixel_bytes) <= u32::MAX,
    ensures
        ({
            let header = present_header(id, format, pixel_size, w, h, pixel_bytes);
            &&& header.len() == PRESENT_HEADER_LEN
            &&& u32::from_wire(header) == present_size(pixel_bytes)
            &&& header[4] == PROTO_VERSION
            &&& header[5] == id
            &&& header[6] == out_package_types::PRESENT
            &&& header[7] == format.spec_code()
            &&& header[8] == pixel_size
            &&& u16::from_wire(header.skip(9)) == w
            &&& u16::from_wire(header.skip(11)) == h
        }),
{
    let header = present_header(id, format, pixel_size, w, h, pixel_bytes);
    let size = present_size(pixel_bytes) as u32;
    u32::lemma_value_round_trip(size);
    u16::lemma_value_round_trip(w);
    u16::lemma_value_round_trip(h);
    assert(header.take(4) =~= size.to_wire());
    assert(size.to_wire().take(4) =~= size.to_wire());
    u32::lemma_from_wire_prefix(size.to_wire(), header);
    assert(header.skip(9).take(2) =~= w.to_wire());
    assert(w.to_wire().take(2) =~= w.to_wire());
    u16::lemma_from_wire_prefix(w.to_wire(), header.skip(9));
    assert(header.skip(11).take(2) =~= h.to_wire());
    assert(h.to_wire().take(2) =~= h.to_wire());
    u16::lemma_from_wire_prefix(h.to_wire(), header.skip(11));
}

impl<const CAPACITY: usize, const CHUNK_LEN: usize> Client<CAPACITY, CHUNK_LEN> {
    /// The connection that the session runs on is well-formed.
    pub open spec fn wf(&self) -> bool {
        self.connection().wf()
    }

    /// The bytes that came in and were not taken yet, oldest first.
    pub open spec fn buffered(&self) -> Seq<u8> {
        self.connection()@
    }

    /// The buffered connection that the session runs on.
    pub closed spec fn connection(&self) -> BufSocket<CAPACITY, CHUNK_LEN> {
        self.s
    }

    /// The connection underneath.
    pub open spec fn socket(&self) -> Socket {
        self.connection().socket()
    }

    /// The most bytes that the next read of a drain may deliver.
    pub open spec fn spec_chunk_request(&self) -> nat {
        self.connection().spec_chunk_request()
    }

    pub closed spec fn spec_id(&self) -> u8 {
        self.id
    }

    /// The bytes of the handshake packet that gives the id `id`.
    pub open spec fn handshake_frame(id: u8) -> Seq<u8> {
        HANDSHAKE_SIZE.to_wire() + seq![in_package_types::INIT, id]
    }

    /// What polling makes of the buffered bytes `bytes` after a drain that
    /// ended with `drained`: the answer, and the bytes that stay buffered.
    pub open spec fn spec_read_package(bytes: Seq<u8>, drained: Result<usize, ReadError>) -> (
        Result<Option<Package>, PackageError>,
        Seq<u8>,
    ) {
        match drained {
            Err(ReadError::Again) => (Ok(None), bytes),
            Err(err) => (Err(PackageError::ReadError(err)), bytes),
            Ok(_) => if Package::ready(bytes) {
                let body = bytes.skip(SIZE_LEN as int);
                (
                    match Package::from_wire(body) {
                        Ok(p) => Ok(Some(p)),
                        Err(err) => Err(err),
                    },
                    body.skip(Package::wire_len(body) as int),
                )
            } else {
                (Ok(None), bytes)
            },
        }
    }

    /// Partial packets are left alone. While the bytes of an event's packet
    /// come in, polling answers that there is no packet and takes nothing,
    /// however far short of the whole the buffered bytes fall. Once the last
    /// byte is there, polling hands out that very event and takes just the
    /// packet's bytes, leaving whatever came behind them.
    pub proof fn lemma_partial_packet(e: Event, n: nat, rest: Seq<u8>, moved: usize)
        requires
            n < Package::event_frame(e).len(),
        ensures
            Self::spec_read_package(Package::event_frame(e).take(n as int), Ok(moved)) == (
                Ok::<Option<Package>, PackageError>(None),
                Package::event_frame(e).take(n as int),
            ),
            Self::spec_read_package(Package::event_frame(e) + rest, Ok(moved)) == (
                Ok::<Option<Package>, PackageError>(Some(Package::Event(e))),
                rest,
            ),
    {
        let frame = Package::event_frame(e);
        let size = (1 + e.to_wire().len()) as u32;
        u32::lemma_value_round_trip(size);
        e.lemma_round_trip(rest);
        match e {
            Event::Close => {},
            Event::Resize { w, h } => {
                u16::lemma_value_round_trip(w);
                u16::lemma_value_round_trip(h);
            },
        }
        assert(size.to_wire().take(4) =~= size.to_wire());
        // The whole packet, with anything behind it.
        let whole = frame + rest;
        assert(whole.take(4) =~= size.to_wire());
        u32::lemma_from_wire_prefix(size.to_wire(), whole);
        // A proper beginning of it.
        let part = frame.take(n as int);
        if n >= 4 {
            assert(part.take(4) =~= size.to_wire());
            u32::lemma_from_wire_prefix(size.to_wire(), part);
        }
    }

    /// What the buffered bytes `bytes` say of the handshake: nothing yet,
    /// the id, or that the server broke the protocol.
    pub open spec fn spec_wait_for_init(bytes: Seq<u8>) -> Result<Option<u8>, ConnectError> {
        if bytes.len() < SIZE_LEN {
            Ok(None)
        } else if u32::from_wire(bytes) != HANDSHAKE_SIZE {
            Err(ConnectError::HandshakeSize(u32::from_wire(bytes)))
        } else if bytes.len() < HANDSHAKE_LEN {
            Ok(None)
        } else if bytes[4] != in_package_types::INIT {
            Err(ConnectError::HandshakeType(bytes[4]))
        } else {
            Ok(Some(bytes[5]))
        }
    }

    /// Number of bytes that looking for the handshake takes from the buffered
    /// bytes `bytes`: the whole packet once it is there with the right
    /// length, and nothing before.
    pub open spec fn handshake_taken(bytes: Seq<u8>) -> nat {
        if bytes.len() >= HANDSHAKE_LEN && u32::from_wire(bytes) == HANDSHAKE_SIZE {
            HANDSHAKE_LEN as nat
        } else {
            0
        }
    }

    /// The handshake packet for an id is read as that id once all of it is
    /// there, whatever follows, and as nothing yet before.
    pub proof fn lemma_handshake(id: u8, n: nat, rest: Seq<u8>)
        requires
            n < HANDSHAKE_LEN,
        ensures
            Self::spec_wait_for_init(Self::handshake_frame(id).take(n as int)) == Ok::<
                Option<u8>,
                ConnectError,
            >(None),
            Self::spec_wait_for_init(Self::handshake_frame(id) + rest) == Ok::<
                Option<u8>,
                ConnectError,
            >(Some(id)),
            Self::handshake_taken(Self::handshake_frame(id) + rest) == HANDSHAKE_LEN,
    {
        let frame = Self::handshake_frame(id);
        u32::lemma_value_round_trip(HANDSHAKE_SIZE);
        let size = HANDSHAKE_SIZE.to_wire();
        assert(size.take(4) =~= size);
        let whole = frame + rest;
        assert(whole.take(4) =~= size);
        u32::lemma_from_wire_prefix(size, whole);
        let part = frame.take(n as int);
        if n >= 4 {
            assert(part.take(4) =~= size);
            u32::lemma_from_wire_prefix(size, part);
        }
    }

    /// Looks for the handshake packet at the front of the buffer. While it
    /// is not there in whole, nothing is taken and the answer is `None`. A
    /// first packet of another length is an error at once, and nothing is
    /// taken. Else the packet is taken; it gives the id, or it is an error
    /// for having another type.
    pub fn wait_for_init(s: &mut BufSocket<CAPACITY, CHUNK_LEN>) -> (r: Result<
        Option<u8>,
        ConnectError,
    >)
        requires
            old(s).wf(),
        ensures
            final(s).wf(),
            final(s).socket() == old(s).socket(),
            r == Self::spec_wait_for_init(old(s)@),
            final(s)@ == old(s)@.skip(Self::handshake_taken(old(s)@) as int),
            Self::handshake_taken(old(s)@) == 0 ==> *final(s) == *old(s),
    {
        let mut package_size: u32 = 0;
        if !s.peek_transmuted(&mut package_size) {
            return Ok(None);
        }
        if package_size != HANDSHAKE_SIZE {
            return Err(ConnectError::HandshakeSize(package_size));
        }
        if s.bytes_available() < HANDSHAKE_LEN {
            return Ok(None);
        }
        let mut package_type: u8 = 0;
        let mut client_id: u8 = 0;
        s.read_transmuted(&mut package_size);
        s.read_transmuted(&mut package_type);
        s.read_transmuted(&mut client_id);
        if package_type != in_package_types::INIT {
            return Err(ConnectError::HandshakeType(package_type));
        }
        Ok(Some(client_id))
    }

    /// One turn of making a session. `sock` is the connection, or why there
    /// is none; `drained` is what the last drain of it ended with. The
    /// session stands once the handshake packet is in the buffer: until
    /// then the connection comes back, to be drained and handed in again.
    /// That a read would block is no error.
    pub fn connect(
        sock: Result<BufSocket<CAPACITY, CHUNK_LEN>, socket::ConnectError>,
        drained: Result<usize, ReadError>,
    ) -> (r: Result<Handshake<CAPACITY, CHUNK_LEN>, ConnectError>)
        requires
            sock matches Ok(s) ==> s.wf(),
        ensures
            match sock {
                Err(err) => r matches Err(e) && e == ConnectError::ConnectError(err),
                Ok(s) => match drained {
                    Err(ReadError::Again) => r matches Ok(Handshake::Connecting(p)) && p == s,
                    Err(err) => r matches Err(e) && e == ConnectError::ReadError(err),
                    Ok(_) => match Self::spec_wait_for_init(s@) {
                        Err(err) => r matches Err(e) && e == err,
                        Ok(None) => r matches Ok(Handshake::Connecting(p)) && p == s,
                        Ok(Some(id)) => r matches Ok(Handshake::Ready(c)) && c.wf() && c.id()
                            == id && c.socket() == s.socket() && c.buffered() == s@.skip(
                            HANDSHAKE_LEN as int,
                        ),
                    },
                },
            },
    {
        match sock {
            Ok(mut s) => match drained {
                Ok(_) => match Self::wait_for_init(&mut s) {
                    Ok(Some(id)) => Ok(Handshake::Ready(Self { s, id })),
                    Ok(None) => Ok(Handshake::Connecting(s)),
                    Err(err) => Err(err),
                },
                Err(ReadError::Again) => Ok(Handshake::Connecting(s)),
                Err(err) => Err(ConnectError::ReadError(err)),
            },
            Err(err) => Err(ConnectError::ConnectError(err)),
        }
    }

    /// Takes note of what setting the flags for the mode `nbm` returned.
    pub fn set_non_blocking_mode(&mut self, nbm: bool, set: Result<usize, ErrNo>) -> (r: Result<
        (),
        FlagsChangeError,
    >)
        ensures
            final(self).buffered() == old(self).buffered(),
            final(self).wf() == old(self).wf(),
            final(self).id() == old(self).id(),
            final(self).socket().fd() == old(self).socket().fd(),
            match set {
                Ok(_) => r == Ok::<(), FlagsChangeError>(()) && final(self).socket().non_blocking()
                    == nbm,
                Err(errno) => r == Err::<(), FlagsChangeError>(FlagsChangeError::of(errno))
                    && *final(self) == *old(self),
            },
    {
        self.s.set_non_blocking_mode(nbm, set)
    }

    /// Reads what a write of a present packet's bytes returned.
    pub fn write_bytes(&mut self, written: Result<usize, ErrNo>) -> (r: Result<usize, WriteError>)
        ensures
            *final(self) == *old(self),
            r == match written {
                Ok(count) => Ok::<usize, WriteError>(count),
                Err(errno) => Err(WriteError::of(errno)),
            },
    {
        self.s.write_bytes(written)
    }

    /// Number of bytes that came in and were not taken yet.
    pub fn bytes_available(&self) -> (n: usize)
        requires
            self.wf(),
        ensures
            n == self.buffered().len(),
    {
        self.s.bytes_available()
    }

    /// The most bytes to ask the transport for in the next read of a drain;
    /// 0 where the buffer is full.
    pub fn chunk_request(&self) -> (want: usize)
        requires
            self.wf(),
        ensures
            want == self.spec_chunk_request(),
    {
        self.s.chunk_request()
    }

    /// One turn of a drain of the session's connection: see
    /// `BufSocket::bufferize`. What the drain ends with goes to
    /// `read_package`.
    pub fn bufferize(&mut self, bufferized: usize, read: Result<&[u8], ErrNo>) -> (next: Drain)
        requires
            old(self).wf(),
            bufferized <= old(self).buffered().len(),
            read matches Ok(bytes) ==> bytes@.len() <= old(self).spec_chunk_request(),
        ensures
            final(self).wf(),
            final(self).id() == old(self).id(),
            final(self).socket() == old(self).socket(),
            final(self).buffered() == old(self).connection().spec_bufferize_chunk(read),
            next == old(self).connection().spec_bufferize(bufferized, read),
            next matches Drain::More(total) ==> total <= final(self).buffered().len(),
    {
        self.s.bufferize(bufferized, read)
    }

    /// The id that the handshake gave.
    #[verifier::when_used_as_spec(spec_id)]
    pub fn id(&self) -> (id: u8)
        ensures
            id == self.spec_id(),
    {
        self.id
    }

    pub fn proto_version() -> (v: u8)
        ensures
            v == PROTO_VERSION,
    {
        PROTO_VERSION
    }

    /// Hands out the packet at the front of the buffer, if a whole one is
    /// there. `drained` is what the drain before this call ended with:
    /// where it failed, so does this, except that a read that would block
    /// means no packet now. At most one packet is taken, and none in part.
    pub fn read_package(&mut self, drained: Result<usize, ReadError>) -> (r: Result<
        Option<Package>,
        PackageError,
    >)
        requires
            old(self).wf(),
        ensures
            final(self).wf(),
            final(self).id() == old(self).id(),
            final(self).socket() == old(self).socket(),
            (r, final(self).buffered()) == Self::spec_read_package(old(self).buffered(), drained),
            drained is Err || !Package::ready(old(self).buffered()) ==> *final(self) == *old(self),
    {
        match drained {
            Ok(_) => {
                let mut package_size: u32 = 0;
                if self.s.peek_transmuted(&mut package_size) {
                    let behind: usize = self.s.bytes_available() - SIZE_LEN;
                    if behind >= package_size as usize && self.whole_behind(behind) {
                        self.s.read_transmuted(&mut package_size);
                        return match Package::pull(&mut self.s) {
                            Ok(p) => Ok(Some(p)),
                            Err(err) => Err(err),
                        };
                    }
                }
                Ok(None)
            },
            Err(err) => match err {
                ReadError::Again => Ok(None),
                err => Err(PackageError::ReadError(err)),
            },
        }
    }

    /// Whether all bytes that decoding a packet takes lie behind the
    /// packet's length, where `behind` bytes lie there.
    fn whole_behind(&mut self, behind: usize) -> (whole: bool)
        requires
            old(self).wf(),
            old(self).buffered().len() == SIZE_LEN + behind,
        ensures
            *final(self) == *old(self),
            whole <==> behind >= Package::wire_len(old(self).buffered().skip(SIZE_LEN as int)),
    {
        let mut front = [0u8; ENVELOPE_LEN];
        self.s.peek(&mut front);
        if behind < 1 {
            false
        } else if front[4] != in_package_types::EVENT {
            true
        } else if behind < 2 {
            false
        } else if front[5] != event::event_types::RESIZE {
            true
        } else {
            behind >= 6
        }
    }

    /// The bytes to write before the pixels of `pixels`, so that both
    /// together are the present packet for a frame of `w` by `h` pixels in
    /// the format `format`. There are none where a pixel takes more than
    /// 255 bytes or the packet's length does not fit its `u32`.
    pub fn present<P>(&self, format: Format, w: u16, h: u16, pixels: &[P]) -> (header: Option<
        [u8; PRESENT_HEADER_LEN],
    >)
        ensures
            header is Some <==> vstd::layout::size_of::<P>() <= u8::MAX && present_size(
                vstd::layout::size_of::<P>() * pixels@.len(),
            ) <= u32::MAX,
            header matches Some(bytes) ==> bytes@ == present_header(
                self.id(),
                format,
                vstd::layout::size_of::<P>() as u8,
                w,
                h,
                vstd::layout::size_of::<P>() * pixels@.len(),
            ),
    {
        let pixel_size: usize = size_of::<P>();
        if pixel_size > 0xff {
            return None;
        }
        let pixel_bytes: usize = match pixel_size.checked_mul(pixels.len()) {
            Some(n) => n,
            None => {
                return None;
            },
        };
        if pixel_bytes > 0xffff_ffff - 9 {
            return None;
        }
        let package_size: u32 = (u8::size() * 5 + u16::size() * 2 + pixel_bytes) as u32;
        let mut header = [0u8; PRESENT_HEADER_LEN];
        package_size.encode(&mut header, 0);
        Self::proto_version().encode(&mut header, 4);
        self.id.encode(&mut header, 5);
        out_package_types::PRESENT.encode(&mut header, 6);
        format.code().encode(&mut header, 7);
        (pixel_size as u8).encode(&mut header, 8);
        w.encode(&mut header, 9);
        h.encode(&mut header, 11);
        proof {
            assert(header@ =~= present_header(
                self.id(),
                format,
                pixel_size as u8,
                w,
                h,
                pixel_bytes as nat,
            ));
        }
        Some(header)
    }
}

} // verus!
