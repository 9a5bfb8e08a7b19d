//! The connection: one transport handle, and the reading of what the
//! transport's calls hand back.
//!
//! Nothing here calls the transport. Each function that stands for a call
//! takes the call's outcome, a byte count or bytes or a positive error
//! number, and says what the connection makes of it.

use crate::sys::io_sys::bits::O_NONBLOCK;
use crate::sys::io_sys::errno::{
    EACCES, EAFNOSUPPORT, EAGAIN, EBADF, ECONNREFUSED, EINTR, EINVAL, EMFILE, ENFILE, ENOBUFS,
    EPROTONOSUPPORT,
};
use crate::sys::io_sys::{ErrNo, Fd};
use crate::wire::Wire;
use core::marker::PhantomData;
use vstd::prelude::*;

verus! {

pub const LOCALHOST: [u8; 4] = [127, 0, 0, 1];

/// Why no connection came about.
#[derive(Debug, Clone, Copy, PartialEq, Eq, Structural)]
pub enum ConnectError {
    NoAccess,
    AfNoSupport,
    Invalid,
    MFile,
    NFile,
    NoBufs,
    ProtoNoSupport,
    /// Creating the handle failed with a code that has no variant of its own.
    UnknownCreateErr(ErrNo),
    Refused,
    /// Connecting the handle failed with a code that has no variant of its
    /// own.
    UnknownConnectErr(ErrNo),
}

/// Why a read gave no bytes.
#[derive(Debug, Clone, Copy, PartialEq, Eq, Structural)]
pub enum ReadError {
    /// Nothing to read right now: try later. Not a failure.
    Again,
    Unknown(ErrNo),
}

/// Why the blocking mode did not change.
#[derive(Debug, Clone, Copy, PartialEq, Eq, Structural)]
pub enum FlagsChangeError {
    BadFd,
    Interrupted,
    Unknown(ErrNo),
}

/// Why a write failed.
#[derive(Debug, Clone, Copy, PartialEq, Eq, Structural)]
pub enum WriteError {
    Unknown(ErrNo),
}

impl ConnectError {
    /// The error for the code with which creating the handle failed.
    pub open spec fn on_create(errno: ErrNo) -> ConnectError {
        if errno == EACCES {
            ConnectError::NoAccess
        } else if errno == EAFNOSUPPORT {
            ConnectError::AfNoSupport
        } else if errno == EINVAL {
            ConnectError::Invalid
        } else if errno == EMFILE {
            ConnectError::MFile
        } else if errno == ENFILE {
            ConnectError::NFile
        } else if errno == ENOBUFS {
            ConnectError::NoBufs
        } else if errno == EPROTONOSUPPORT {
            ConnectError::ProtoNoSupport
        } else {
            ConnectError::UnknownCreateErr(errno)
        }
    }

    /// The error for the code with which connecting the handle failed.
    pub open spec fn on_connect(errno: ErrNo) -> ConnectError {
        if errno == ECONNREFUSED {
            ConnectError::Refused
        } else {
            ConnectError::UnknownConnectErr(errno)
        }
    }
}

impl ReadError {
    /// The error for the code with which a read failed.
    pub open spec fn of(errno: ErrNo) -> ReadError {
        if errno == EAGAIN {
            ReadError::Again
        } else {
            ReadError::Unknown(errno)
        }
    }
}

impl WriteError {
    /// The error for the code with which a write failed.
    pub open spec fn of(errno: ErrNo) -> WriteError {
        WriteError::Unknown(errno)
    }
}

impl FlagsChangeError {
    /// The error for the code with which reading or setting the flags
    /// failed.
    pub open spec fn of(errno: ErrNo) -> FlagsChangeError {
        if errno == EBADF {
            FlagsChangeError::BadFd
        } else if errno == EINTR {
            FlagsChangeError::Interrupted
        } else {
            FlagsChangeError::Unknown(errno)
        }
    }
}

impl From<ErrNo> for FlagsChangeError {
    fn from(value: ErrNo) -> (e: Self) {
        if value == EBADF {
            FlagsChangeError::BadFd
        } else if value == EINTR {
            FlagsChangeError::Interrupted
        } else {
            FlagsChangeError::Unknown(value)
        }
    }
}

impl vstd::std_specs::convert::FromSpecImpl<ErrNo> for FlagsChangeError {
    open spec fn obeys_from_spec() -> bool {
        true
    }

    open spec fn from_spec(value: ErrNo) -> FlagsChangeError {
        FlagsChangeError::of(value)
    }
}

/// The file status flags `flags` with the non-blocking bit as `nbm` says and
/// every other bit as it was.
pub open spec fn spec_non_blocking_flags(flags: usize, nbm: bool) -> usize {
    if nbm {
        flags | O_NONBLOCK
    } else {
        flags & !O_NONBLOCK
    }
}

/// Changing the mode changes one bit: the flags to set have the non-blocking
/// bit as `nbm` says and every other bit as in `flags`.
pub proof fn lemma_non_blocking_flags(flags: usize, nbm: bool)
    ensures
        spec_non_blocking_flags(flags, nbm) & O_NONBLOCK == if nbm {
            O_NONBLOCK
        } else {
            0
        },
        spec_non_blocking_flags(flags, nbm) & !O_NONBLOCK == flags & !O_NONBLOCK,
{
    assert((flags | 0o4000) & 0o4000 == 0o4000) by (bit_vector);
    assert((flags | 0o4000) & !0o4000usize == flags & !0o4000usize) by (bit_vector);
    assert((flags & !0o4000usize) & 0o4000 == 0) by (bit_vector);
    assert((flags & !0o4000usize) & !0o4000usize == flags & !0o4000usize) by (bit_vector);
}

/// One connected transport handle. The owner closes it, once.
pub struct Socket {
    fd: Fd,
    non_blocking: bool,
}

/// The bytes of a connection one by one, read from the transport in chunks
/// of up to `BUF_SIZE` bytes. While it lives, nothing else uses the
/// connection.
pub struct SocketIter<'s, const BUF_SIZE: usize> {
    s: PhantomData<&'s mut Socket>,
    i: usize,
    count: usize,
    buf: [u8; BUF_SIZE],
}

impl<'s, const BUF_SIZE: usize> SocketIter<'s, BUF_SIZE> {
    /// The two cursors lie within the chunk, one behind the other.
    pub closed spec fn wf(&self) -> bool {
        self.i <= self.count <= BUF_SIZE
    }

    /// The bytes read and not handed out yet, in the order read.
    pub closed spec fn view(&self) -> Seq<u8> {
        self.buf@.subrange(self.i as int, self.count as int)
    }

    fn new(s: &'s mut Socket) -> (it: Self)
        ensures
            it.wf(),
            it@ == Seq::<u8>::empty(),
            *final(s) == *old(s),
    {
        Self { s: PhantomData, i: 0, count: 0, buf: [0u8; BUF_SIZE] }
    }

    /// Whether the next byte has to come from a read.
    pub fn exhausted(&self) -> (e: bool)
        requires
            self.wf(),
        ensures
            e <==> self@.len() == 0,
    {
        self.i >= self.count
    }

    /// The next byte. `read` holds what a read of up to `BUF_SIZE` bytes
    /// gave; it counts only where the iterator is exhausted, and then `None`
    /// means that the read gave nothing.
    pub fn next(&mut self, read: &[u8]) -> (byte: Option<u8>)
        requires
            old(self).wf(),
            read@.len() <= BUF_SIZE,
        ensures
            final(self).wf(),
            ({
                let pending = if old(self)@.len() == 0 {
                    read@
                } else {
                    old(self)@
                };
                if pending.len() == 0 {
                    byte == None::<u8> && final(self)@ == pending
                } else {
                    byte == Some(pending[0]) && final(self)@ == pending.skip(1)
                }
            }),
    {
        if self.i >= self.count {
            let count: usize = read.len();
            let mut k: usize = 0;
            while k < count
                invariant
                    k <= count,
                    count == read@.len(),
                    count <= BUF_SIZE,
                    forall|j: int| 0 <= j < k ==> self.buf@[j] == read@[j],
                decreases count - k,
            {
                self.buf[k] = read[k];
                k += 1;
            }
            self.count = count;
            self.i = 0;
        }
        if self.i < self.count {
            let byte = self.buf[self.i];
            self.i += 1;
            Some(byte)
        } else {
            None
        }
    }
}

impl Socket {
    pub closed spec fn spec_fd(&self) -> Fd {
        self.fd
    }

    pub closed spec fn spec_non_blocking(&self) -> bool {
        self.non_blocking
    }

    /// The handle.
    #[verifier::when_used_as_spec(spec_fd)]
    pub fn fd(&self) -> (fd: Fd)
        ensures
            fd == self.spec_fd(),
    {
        self.fd
    }

    /// Whether the handle was last put into non-blocking mode.
    #[verifier::when_used_as_spec(spec_non_blocking)]
    pub fn non_blocking(&self) -> (nbm: bool)
        ensures
            nbm == self.spec_non_blocking(),
    {
        self.non_blocking
    }

    /// Makes the connection out of what the two transport calls returned:
    /// `created` by the call that creates the handle, `connected` by the call
    /// that connects it. `connected` counts only where a handle was created.
    /// A new connection blocks. Where connecting failed the handle is the
    /// caller's to close.
    pub fn connect(created: Result<Fd, ErrNo>, connected: Result<(), ErrNo>) -> (r: Result<
        Self,
        ConnectError,
    >)
        ensures
            match created {
                Err(errno) => r == Err::<Self, ConnectError>(ConnectError::on_create(errno)),
                Ok(fd) => match connected {
                    Err(errno) => r == Err::<Self, ConnectError>(ConnectError::on_connect(errno)),
                    Ok(_) => r matches Ok(s) && s.fd() == fd && !s.non_blocking(),
                },
            },
    {
        match created {
            Ok(fd) => match connected {
                Ok(_) => Ok(Self { fd, non_blocking: false }),
                Err(errno) => if errno == ECONNREFUSED {
                    Err(ConnectError::Refused)
                } else {
                    Err(ConnectError::UnknownConnectErr(errno))
                },
            },
            Err(errno) => if errno == EACCES {
                Err(ConnectError::NoAccess)
            } else if errno == EAFNOSUPPORT {
                Err(ConnectError::AfNoSupport)
            } else if errno == EINVAL {
                Err(ConnectError::Invalid)
            } else if errno == EMFILE {
                Err(ConnectError::MFile)
            } else if errno == ENFILE {
                Err(ConnectError::NFile)
            } else if errno == ENOBUFS {
                Err(ConnectError::NoBufs)
            } else if errno == EPROTONOSUPPORT {
                Err(ConnectError::ProtoNoSupport)
            } else {
                Err(ConnectError::UnknownCreateErr(errno))
            },
        }
    }

    /// The flags to set so that the handle blocks or not, as `nbm` says,
    /// given what reading its flags returned.
    pub fn non_blocking_flags(got: Result<usize, ErrNo>, nbm: bool) -> (r: Result<
        usize,
        FlagsChangeError,
    >)
        ensures
            r == match got {
                Ok(flags) => Ok::<usize, FlagsChangeError>(spec_non_blocking_flags(flags, nbm)),
                Err(errno) => Err(FlagsChangeError::of(errno)),
            },
    {
        match got {
            Ok(flags) => if nbm {
                Ok(flags | O_NONBLOCK)
            } else {
                Ok(flags & !O_NONBLOCK)
            },
            Err(errno) => Err(FlagsChangeError::from(errno)),
        }
    }

    /// Takes note of what setting the flags for the mode `nbm` returned.
    pub fn set_non_blocking_mode(&mut self, nbm: bool, set: Result<usize, ErrNo>) -> (r: Result<
        (),
        FlagsChangeError,
    >)
        ensures
            final(self).fd() == old(self).fd(),
            match set {
                Ok(_) => r == Ok::<(), FlagsChangeError>(()) && final(self).non_blocking() == nbm,
                Err(errno) => r == Err::<(), FlagsChangeError>(FlagsChangeError::of(errno))
                    && *final(self) == *old(self),
            },
    {
        match set {
            Ok(_) => {
                self.non_blocking = nbm;
                Ok(())
            },
            Err(errno) => Err(FlagsChangeError::from(errno)),
        }
    }

    /// Reads what a write returned: the number of bytes taken, or why none
    /// were.
    pub fn write_bytes(&mut self, written: Result<usize, ErrNo>) -> (r: Result<usize, WriteError>)
        ensures
            *final(self) == *old(self),
            r == match written {
                Ok(count) => Ok::<usize, WriteError>(count),
                Err(errno) => Err(WriteError::of(errno)),
            },
    {
        match written {
            Ok(count) => Ok(count),
            Err(errno) => Err(WriteError::Unknown(errno)),
        }
    }

    /// Reads what a read returned: the number of bytes given, or why none
    /// were.
    pub fn read_bytes(&mut self, read: Result<usize, ErrNo>) -> (r: Result<usize, ReadError>)
        ensures
            *final(self) == *old(self),
            r == match read {
                Ok(count) => Ok::<usize, ReadError>(count),
                Err(errno) => Err(ReadError::of(errno)),
            },
    {
        match read {
            Ok(count) => Ok(count),
            Err(errno) => if errno == EAGAIN {
                Err(ReadError::Again)
            } else {
                Err(ReadError::Unknown(errno))
            },
        }
    }

    /// The bytes of the connection one by one.
    pub fn iter<'s, const BUF_SIZE: usize>(&'s mut self) -> (it: SocketIter<'s, BUF_SIZE>)
        ensures
            it.wf(),
            it@ == Seq::<u8>::empty(),
            *final(self) == *old(self),
    {
        SocketIter::new(self)
    }

    /// Puts the bytes of `val` at the front of `out`, for the caller to
    /// write, and returns their number.
    pub fn write_transmuted<T: Wire>(&mut self, val: T, out: &mut [u8]) -> (count: usize)
        requires
            old(out)@.len() >= T::width(),
        ensures
            *final(self) == *old(self),
            count == T::width(),
            final(out)@ == val.to_wire() + old(out)@.skip(count as int),
    {
        val.encode(out, 0);
        T::size()
    }

    /// Reads what a read for a value of type `T` returned. Where it gave all
    /// bytes of the value, `dst` becomes the value; else `dst` stays.
    pub fn read_transmuted<T: Wire>(&mut self, dst: &mut T, read: Result<&[u8], ErrNo>) -> (r:
        Result<usize, ReadError>)
        ensures
            *final(self) == *old(self),
            r == match read {
                Ok(bytes) => Ok::<usize, ReadError>(bytes@.len() as usize),
                Err(errno) => Err(ReadError::of(errno)),
            },
            *final(dst) == match read {
                Ok(bytes) => if bytes@.len() >= T::width() {
                    T::from_wire(bytes@)
                } else {
                    *old(dst)
                },
                Err(_) => *old(dst),
            },
    {
        match read {
            Ok(bytes) => {
                if bytes.len() >= T::size() {
                    *dst = T::decode(bytes);
                }
                Ok(bytes.len())
            },
            Err(errno) => if errno == EAGAIN {
                Err(ReadError::Again)
            } else {
                Err(ReadError::Unknown(errno))
            },
        }
    }
}

} // verus!
