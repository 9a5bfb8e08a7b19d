//! What the operating system's interface looks like from here: its numbers
//! and the plain arithmetic on them. The calls themselves are the caller's.

pub mod io_sys;
pub mod time_sys;
