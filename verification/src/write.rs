//! A descriptor to send text to.

use crate::sys::io_sys::Fd;
use vstd::prelude::*;

verus! {

/// A descriptor that text is written to, such as the standard output.
#[derive(Debug, Clone, Copy, PartialEq, Eq, Structural)]
pub struct WriteFd(Fd);

impl WriteFd {
    pub closed spec fn spec_fd(&self) -> Fd {
        self.0
    }

    pub fn new(fd: Fd) -> (w: Self)
        ensures
            w.fd() == fd,
    {
        return Self(fd)
    }

    /// The descriptor.
    #[verifier::when_used_as_spec(spec_fd)]
    pub fn fd(&self) -> (fd: Fd)
        ensures
            fd == self.spec_fd(),
    {
        self.0
    }
}

} // verus!
