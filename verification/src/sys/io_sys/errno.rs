//! Linux error numbers, as the kernel hands them back negated.

use vstd::prelude::*;

verus! {

pub const EPERM: usize = 1;

pub const EINTR: usize = 4;

pub const EIO: usize = 5;

pub const EBADF: usize = 9;

pub const EAGAIN: usize = 11;

pub const EACCES: usize = 13;

pub const EFAULT: usize = 14;

pub const EISDIR: usize = 21;

pub const EINVAL: usize = 22;

pub const ENFILE: usize = 23;

pub const EMFILE: usize = 24;

pub const EFBIG: usize = 27;

pub const ENOSPC: usize = 28;

pub const EPIPE: usize = 32;

pub const ENOTSOCK: usize = 88;

pub const EDESTADDRREQ: usize = 89;

pub const EPROTOTYPE: usize = 91;

pub const EPROTONOSUPPORT: usize = 93;

pub const EAFNOSUPPORT: usize = 97;

pub const EADDRINUSE: usize = 98;

pub const EADDRNOTAVAIL: usize = 99;

pub const ENETUNREACH: usize = 101;

pub const ENOBUFS: usize = 105;

pub const EISCONN: usize = 106;

pub const ETIMEDOUT: usize = 110;

pub const ECONNREFUSED: usize = 111;

pub const EALREADY: usize = 114;

pub const EINPROGRESS: usize = 115;

pub const EDQUOT: usize = 122;

} // verus!
