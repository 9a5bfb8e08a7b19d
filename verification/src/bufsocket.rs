//! The buffered connection: a connection and a ring of bytes between the
//! transport and the protocol.
//!
//! Bytes that the transport delivered enter the ring at the back, in chunks
//! of bounded size; the protocol takes whole values from the front, and only
//! once all their bytes are there.

use crate::socket::{ConnectError, FlagsChangeError, ReadError, Socket, WriteError};
use crate::sys::io_sys::errno::EAGAIN;
use crate::sys::io_sys::{ErrNo, Fd};
use crate::utils::CyclicBuf;
use crate::wire::{Wire, MAX_WIDTH};
use vstd::prelude::*;

verus! {

/// A connection with a ring of `CAPACITY` slots, which holds up to
/// `CAPACITY - 1` received bytes, filled by reads of at most `CHUNK_LEN`
/// bytes each.
pub struct BufSocket<const CAPACITY: usize, const CHUNK_LEN: usize> {
    s: Socket,
    buf: CyclicBuf<u8, CAPACITY>,
}

/// How a drain goes on after one read.
#[derive(Debug, Clone, Copy, PartialEq, Eq)]
pub enum Drain {
    /// Bytes came in: read again. The number counts the bytes moved so far.
    More(usize),
    /// The drain is over, with the number of bytes that it moved or with the
    /// error that ended it.
    Done(Result<usize, ReadError>),
}

impl<const CAPACITY: usize, const CHUNK_LEN: usize> BufSocket<CAPACITY, CHUNK_LEN> {
    /// The buffered bytes, oldest first.
    pub closed spec fn view(&self) -> Seq<u8> {
        self.buf@
    }

    /// The connection underneath.
    pub closed spec fn socket(&self) -> Socket {
        self.s
    }

    /// The ring underneath is well-formed; so `CAPACITY` is at least 1.
    pub closed spec fn wf(&self) -> bool {
        self.buf.wf()
    }

    /// The most bytes that can be buffered.
    pub open spec fn limit() -> nat {
        (CAPACITY - 1) as nat
    }

    /// The most bytes that the next read may deliver: the free space, but no
    /// more than one chunk.
    pub open spec fn spec_chunk_request(&self) -> nat {
        let free = Self::limit() - self@.len();
        if free <= CHUNK_LEN {
            free as nat
        } else {
            CHUNK_LEN as nat
        }
    }

    /// What one chunk's read leaves in the buffer: the bytes read go behind
    /// those buffered, unless there was no room to read into.
    pub open spec fn spec_bufferize_chunk(&self, read: Result<&[u8], ErrNo>) -> Seq<u8> {
        match read {
            Ok(bytes) if self@.len() < Self::limit() => self@ + bytes@,
            _ => self@,
        }
    }

    /// What one chunk's read amounts to: nothing where there was no room to
    /// read into, else the number of bytes read or the read's error.
    pub open spec fn spec_chunk_result(&self, read: Result<&[u8], ErrNo>) -> Result<
        usize,
        ReadError,
    > {
        if self@.len() >= Self::limit() {
            Ok(0)
        } else {
            match read {
                Ok(bytes) => Ok(bytes@.len() as usize),
                Err(errno) => Err(ReadError::of(errno)),
            }
        }
    }

    /// How a drain that has moved `bufferized` bytes goes on after one
    /// chunk's read: it reads again while bytes come in, and it ends, without
    /// error, when a read gives nothing or would block.
    pub open spec fn spec_bufferize(&self, bufferized: usize, read: Result<&[u8], ErrNo>) -> Drain {
        match self.spec_chunk_result(read) {
            Ok(count) => if count == 0 {
                Drain::Done(Ok(bufferized))
            } else {
                Drain::More((bufferized + count) as usize)
            },
            Err(ReadError::Again) => Drain::Done(Ok(bufferized)),
            Err(err) => Drain::Done(Err(err)),
        }
    }

    /// No more than `CAPACITY - 1` bytes are ever buffered.
    pub proof fn lemma_len_bounded(&self)
        requires
            self.wf(),
        ensures
            CAPACITY > 0,
            self@.len() <= Self::limit(),
    {
        self.buf.lemma_len_bounded();
    }

    /// The connection underneath, to work on in place.
    pub fn soc(&mut self) -> (s: &mut Socket)
        ensures
            *s == old(self).socket(),
            final(self).socket() == *final(s),
            final(self)@ == old(self)@,
            final(self).wf() == old(self).wf(),
    {
        &mut self.s
    }

    /// Makes the buffered connection out of what the two transport calls
    /// returned, as `Socket::connect` does. Nothing is buffered yet.
    pub fn connect(created: Result<Fd, ErrNo>, connected: Result<(), ErrNo>) -> (r: Result<
        Self,
        ConnectError,
    >)
        ensures
            match created {
                Err(errno) => r == Err::<Self, ConnectError>(ConnectError::on_create(errno)),
                Ok(fd) => match connected {
                    Err(errno) => r == Err::<Self, ConnectError>(ConnectError::on_connect(errno)),
                    Ok(_) => r matches Ok(b) && b.socket().fd() == fd && !b.socket().non_blocking()
                        && b@ == Seq::<u8>::empty() && (CAPACITY > 0 ==> b.wf()),
                },
            },
    {
        match Socket::connect(created, connected) {
            Ok(s) => Ok(Self { s, buf: Default::default() }),
            Err(err) => Err(err),
        }
    }

    /// Takes note of what setting the flags for the mode `nbm` returned.
    pub fn set_non_blocking_mode(&mut self, nbm: bool, set: Result<usize, ErrNo>) -> (r: Result<
        (),
        FlagsChangeError,
    >)
        ensures
            final(self)@ == old(self)@,
            final(self).wf() == old(self).wf(),
            final(self).socket().fd() == old(self).socket().fd(),
            match set {
                Ok(_) => r == Ok::<(), FlagsChangeError>(()) && final(self).socket().non_blocking()
                    == nbm,
                Err(errno) => r == Err::<(), FlagsChangeError>(FlagsChangeError::of(errno))
                    && *final(self) == *old(self),
            },
    {
        self.s.set_non_blocking_mode(nbm, set)
    }

    /// Number of buffered bytes.
    pub fn bytes_available(&self) -> (n: usize)
        requires
            self.wf(),
        ensures
            n == self@.len(),
    {
        self.buf.len()
    }

    /// Reads what a write returned.
    pub fn write_bytes(&mut self, written: Result<usize, ErrNo>) -> (r: Result<usize, WriteError>)
        ensures
            *final(self) == *old(self),
            r == match written {
                Ok(count) => Ok::<usize, WriteError>(count),
                Err(errno) => Err(WriteError::of(errno)),
            },
    {
        self.s.write_bytes(written)
    }

    /// Puts the bytes of `val` at the front of `out`, for the caller to
    /// write, and returns their number.
    pub fn write_transmuted<T: Wire>(&mut self, val: T, out: &mut [u8]) -> (count: usize)
        requires
            old(out)@.len() >= T::width(),
        ensures
            *final(self) == *old(self),
            count == T::width(),
            final(out)@ == val.to_wire() + old(out)@.skip(count as int),
    {
        self.s.write_transmuted(val, out)
    }

    /// Moves the `n` oldest bytes into the front of `out`.
    fn take_front(&mut self, out: &mut [u8], n: usize)
        requires
            old(self).wf(),
            n <= old(self)@.len(),
            n <= old(out)@.len(),
        ensures
            final(self).wf(),
            final(self).socket() == old(self).socket(),
            final(self)@ == old(self)@.skip(n as int),
            final(out)@ == old(self)@.take(n as int) + old(out)@.skip(n as int),
    {
        let mut i: usize = 0;
        while i < n
            invariant
                self.wf(),
                self.socket() == old(self).socket(),
                i <= n,
                n <= old(self)@.len(),
                n <= old(out)@.len(),
                out@.len() == old(out)@.len(),
                self@ == old(self)@.skip(i as int),
                forall|j: int| 0 <= j < i ==> out@[j] == old(self)@[j],
                forall|j: int| i <= j < out@.len() ==> out@[j] == old(out)@[j],
            decreases n - i,
        {
            let byte = self.buf.pop();
            out[i] = byte.unwrap();
            i += 1;
        }
    }

    /// Takes a value of type `T` from the front of the buffer into `dst`,
    /// if all its bytes are buffered; says whether they were.
    pub fn read_transmuted<T: Wire>(&mut self, dst: &mut T) -> (complete: bool)
        requires
            old(self).wf(),
        ensures
            final(self).wf(),
            final(self).socket() == old(self).socket(),
            complete <==> old(self)@.len() >= T::width(),
            complete ==> *final(dst) == T::from_wire(old(self)@) && final(self)@ == old(self)@.skip(
                T::width() as int,
            ),
            !complete ==> *final(dst) == *old(dst) && *final(self) == *old(self),
    {
        let n: usize = T::size();
        if self.buf.len() >= n {
            let mut raw = [0u8; MAX_WIDTH];
            self.take_front(&mut raw, n);
            *dst = T::decode(&raw);
            proof {
                assert(raw@.take(n as int) =~= old(self)@.take(n as int));
                T::lemma_from_wire_prefix(old(self)@, raw@);
            }
            true
        } else {
            false
        }
    }

    /// Like `read_transmuted`, but the bytes stay in the buffer.
    pub fn peek_transmuted<T: Wire>(&mut self, dst: &mut T) -> (complete: bool)
        requires
            old(self).wf(),
        ensures
            *final(self) == *old(self),
            complete <==> old(self)@.len() >= T::width(),
            complete ==> *final(dst) == T::from_wire(old(self)@),
            !complete ==> *final(dst) == *old(dst),
    {
        let n: usize = T::size();
        if self.buf.len() >= n {
            let mut raw = [0u8; MAX_WIDTH];
            self.buf.peek(&mut raw);
            *dst = T::decode(&raw);
            proof {
                assert(raw@.take(n as int) =~= self@.take(n as int));
                T::lemma_from_wire_prefix(self@, raw@);
            }
            true
        } else {
            false
        }
    }

    /// The most bytes to ask the transport for in the next read; 0 where the
    /// buffer is full, and then there is nothing to read for.
    pub fn chunk_request(&self) -> (want: usize)
        requires
            self.wf(),
        ensures
            want == self.spec_chunk_request(),
    {
        let free: usize = self.buf.push_ability();
        if free <= CHUNK_LEN {
            free
        } else {
            CHUNK_LEN
        }
    }

    /// Takes in what one read of at most `chunk_request()` bytes returned:
    /// the bytes read, which go into the buffer, or the error number.
    /// Where the buffer was full already, no read was due and `read` does
    /// not count.
    pub fn bufferize_chunk(&mut self, read: Result<&[u8], ErrNo>) -> (r: Result<usize, ReadError>)
        requires
            old(self).wf(),
            read matches Ok(bytes) ==> bytes@.len() <= old(self).spec_chunk_request(),
        ensures
            final(self).wf(),
            final(self).socket() == old(self).socket(),
            final(self)@ == old(self).spec_bufferize_chunk(read),
            r == old(self).spec_chunk_result(read),
    {
        let can_read_bytes: usize = self.buf.push_ability();
        if can_read_bytes > 0 {
            match read {
                Ok(bytes) => {
                    let bytes_read: usize = bytes.len();
                    let mut i: usize = 0;
                    while i < bytes_read
                        invariant
                            self.wf(),
                            self.socket() == old(self).socket(),
                            i <= bytes_read,
                            bytes_read == bytes@.len(),
                            old(self)@.len() + bytes_read <= Self::limit(),
                            self@ == old(self)@ + bytes@.take(i as int),
                        decreases bytes_read - i,
                    {
                        let ghost before = self@;
                        let pushed = self.buf.push(bytes[i]);
                        proof {
                            assert(before.push(bytes@[i as int]) =~= old(self)@ + bytes@.take(
                                i + 1,
                            ));
                        }
                        i += 1;
                    }
                    Ok(bytes_read)
                },
                Err(errno) => if errno == EAGAIN {
                    Err(ReadError::Again)
                } else {
                    Err(ReadError::Unknown(errno))
                },
            }
        } else {
            Ok(0)
        }
    }

    /// One turn of a drain: takes in what the read for one chunk returned,
    /// as `bufferize_chunk` does, and says whether to read again.
    /// `bufferized` is the number of bytes that this drain has moved so far,
    /// 0 at its start. The drain ends when a read gives nothing, be it that
    /// the buffer is full, that the transport has no more, or that it would
    /// block; the last is no error.
    pub fn bufferize(&mut self, bufferized: usize, read: Result<&[u8], ErrNo>) -> (next: Drain)
        requires
            old(self).wf(),
            bufferized <= old(self)@.len(),
            read matches Ok(bytes) ==> bytes@.len() <= old(self).spec_chunk_request(),
        ensures
            final(self).wf(),
            final(self).socket() == old(self).socket(),
            final(self)@ == old(self).spec_bufferize_chunk(read),
            next == old(self).spec_bufferize(bufferized, read),
            next matches Drain::More(total) ==> total <= final(self)@.len(),
    {
        match self.bufferize_chunk(read) {
            Ok(count) => {
                if count == 0 {
                    Drain::Done(Ok(bufferized))
                } else {
                    proof {
                        self.lemma_len_bounded();
                    }
                    Drain::More(bufferized + count)
                }
            },
            Err(err) => match err {
                ReadError::Again => Drain::Done(Ok(bufferized)),
                err => Drain::Done(Err(err)),
            },
        }
    }

    /// Copies the oldest bytes into the front of `b`, as many as both hold,
    /// and returns their number. The buffer stays as it is.
    pub fn peek(&mut self, b: &mut [u8]) -> (copied: usize)
        requires
            old(self).wf(),
        ensures
            *final(self) == *old(self),
            copied == if old(b)@.len() <= old(self)@.len() {
                old(b)@.len()
            } else {
                old(self)@.len()
            },
            final(b)@ == old(self)@.take(copied as int) + old(b)@.skip(copied as int),
    {
        self.buf.peek(b)
    }

    /// Moves the oldest bytes into the front of `b`, as many as both hold,
    /// and returns their number.
    pub fn read_bytes(&mut self, b: &mut [u8]) -> (moved: usize)
        requires
            old(self).wf(),
        ensures
            final(self).wf(),
            final(self).socket() == old(self).socket(),
            moved == if old(b)@.len() <= old(self)@.len() {
                old(b)@.len()
            } else {
                old(self)@.len()
            },
            final(self)@ == old(self)@.skip(moved as int),
            final(b)@ == old(self)@.take(moved as int) + old(b)@.skip(moved as int),
    {
        let stored: usize = self.buf.len();
        let bytes_to_read: usize = if b.len() <= stored {
            b.len()
        } else {
            stored
        };
        self.take_front(b, bytes_to_read);
        bytes_to_read
    }
}

} // verus!
