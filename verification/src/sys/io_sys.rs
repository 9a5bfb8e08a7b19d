//! Numbers of the socket interface and the decoding of what a system call
//! returns.

use vstd::prelude::*;

pub mod bits;
pub mod errno;

verus! {

/// An error number, positive.
pub type ErrNo = usize;

/// A file descriptor.
pub type Fd = usize;

pub const STDOUT: usize = 1;

pub const STDERR: usize = 2;

pub const AF_INET: usize = 2;

pub const SOCK_STREAM: usize = 1;

pub const IPPROTO_TCP: usize = 6;

/// Duplicate file descriptor.
pub const F_DUPFD: usize = 0;

/// Get file descriptor flags.
pub const F_GETFD: usize = 1;

/// Set file descriptor flags.
pub const F_SETFD: usize = 2;

/// Get file status flags.
pub const F_GETFL: usize = 3;

/// Set file status flags.
pub const F_SETFL: usize = 4;

/// The error number in a negative return value: its magnitude.
pub open spec fn spec_errno(val: isize) -> ErrNo {
    (-val) as usize
}

/// The error number that the negative return value `val` carries.
fn errno_of(val: isize) -> (e: ErrNo)
    requires
        val < 0,
    ensures
        e == spec_errno(val),
        e == -val,
{
    let below: isize = -(val + 1);
    below as usize + 1
}

/// Reads the return value of a call that yields nothing: negative values
/// are errors.
pub fn separate_unit(val: isize) -> (r: Result<(), ErrNo>)
    ensures
        r == if val >= 0 {
            Ok::<(), ErrNo>(())
        } else {
            Err(spec_errno(val))
        },
{
    if val >= 0 {
        Ok(())
    } else {
        Err(errno_of(val))
    }
}

/// Reads the return value of a call that yields a count: negative values
/// are errors, the others the count.
pub fn separate_usize(val: isize) -> (r: Result<usize, ErrNo>)
    ensures
        r == if val >= 0 {
            Ok::<usize, ErrNo>(val as usize)
        } else {
            Err(spec_errno(val))
        },
{
    if val >= 0 {
        Ok(val as usize)
    } else {
        Err(errno_of(val))
    }
}

/// Reads the return value of a call that yields a descriptor.
pub fn separate_fd(val: isize) -> (r: Result<Fd, ErrNo>)
    ensures
        r == if val >= 0 {
            Ok::<Fd, ErrNo>(val as usize)
        } else {
            Err(spec_errno(val))
        },
{
    if val >= 0 {
        Ok(val as Fd)
    } else {
        Err(errno_of(val))
    }
}

/// `v` with its two bytes exchanged.
pub open spec fn spec_flip16(v: u16) -> u16 {
    ((v % 256) * 256 + v / 256) as u16
}

/// Exchanges the two bytes of `v`: host order to network order on a
/// little-endian host, and back.
pub fn flip16(v: u16) -> (r: u16)
    ensures
        r == spec_flip16(v),
{
    assert(((v << 8) | (v >> 8)) == ((v % 256) * 256 + v / 256) as u16) by (bit_vector);
    (v << 8) | (v >> 8)
}

/// An IPv4 socket address as a little-endian host lays it out for the
/// kernel: the port and the address are stored so that their bytes lie in
/// memory in network order.
pub struct SockAddr {
    family: u16,
    port: u16,
    addr: u32,
    zero: [u8; 8],
}

impl SockAddr {
    pub closed spec fn spec_family(&self) -> u16 {
        self.family
    }

    pub closed spec fn spec_port(&self) -> u16 {
        self.port
    }

    pub closed spec fn spec_addr(&self) -> u32 {
        self.addr
    }

    /// The address of `ip`:`port` in the family `family`.
    pub fn new(family: usize, port: u16, ip: [u8; 4]) -> (a: Self)
        ensures
            a.spec_family() == family % 0x1_0000,
            a.spec_port() == spec_flip16(port),
            a.spec_addr() == ip[0] + ip[1] * 0x100 + ip[2] * 0x1_0000 + ip[3] * 0x100_0000,
    {
        let b0: u32 = ip[0] as u32;
        let b1: u32 = ip[1] as u32;
        let b2: u32 = ip[2] as u32;
        let b3: u32 = ip[3] as u32;
        Self {
            family: (family % 0x1_0000) as u16,
            port: flip16(port),
            addr: b0 + b1 * 0x100 + b2 * 0x1_0000 + b3 * 0x100_0000,
            zero: [0; 8],
        }
    }

    #[verifier::when_used_as_spec(spec_family)]
    pub fn family(&self) -> (f: u16)
        ensures
            f == self.spec_family(),
    {
        self.family
    }

    #[verifier::when_used_as_spec(spec_port)]
    pub fn port(&self) -> (p: u16)
        ensures
            p == self.spec_port(),
    {
        self.port
    }

    #[verifier::when_used_as_spec(spec_addr)]
    pub fn addr(&self) -> (a: u32)
        ensures
            a == self.spec_addr(),
    {
        self.addr
    }
}

} // verus!
