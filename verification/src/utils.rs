//! Allocation-free building blocks.

pub mod cyclicbuf;

pub use cyclicbuf::CyclicBuf;
