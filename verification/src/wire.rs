//! The byte form of the protocol's integers. Every multi-byte integer
//! travels most significant byte first, whatever the host's own order.

use vstd::prelude::*;

verus! {

/// No value on the wire is wider than this many bytes.
pub const MAX_WIDTH: usize = 4;

/// A fixed-width value with a byte form.
pub trait Wire: Copy + Sized {
    /// Number of bytes that a value takes.
    spec fn width() -> nat;

    /// The value that the first `width()` bytes of `bytes` stand for.
    spec fn from_wire(bytes: Seq<u8>) -> Self;

    /// The bytes that stand for the value.
    spec fn to_wire(self) -> Seq<u8>;

    /// Encoding and then decoding gives the value back.
    proof fn lemma_value_round_trip(v: Self)
        ensures
            v.to_wire().len() == Self::width(),
            Self::from_wire(v.to_wire()) == v,
    ;

    /// Decoding and then encoding gives the bytes back.
    proof fn lemma_bytes_round_trip(bytes: Seq<u8>)
        requires
            bytes.len() >= Self::width(),
        ensures
            Self::from_wire(bytes).to_wire() == bytes.take(Self::width() as int),
    ;

    /// Decoding looks at the first `width()` bytes only.
    proof fn lemma_from_wire_prefix(bytes: Seq<u8>, more: Seq<u8>)
        requires
            bytes.len() >= Self::width(),
            more.len() >= Self::width(),
            more.take(Self::width() as int) == bytes.take(Self::width() as int),
        ensures
            Self::from_wire(more) == Self::from_wire(bytes),
    ;

    fn size() -> (n: usize)
        ensures
            n == Self::width(),
            1 <= n <= MAX_WIDTH,
    ;

    /// Reads a value from the front of `bytes`.
    fn decode(bytes: &[u8]) -> (v: Self)
        requires
            bytes@.len() >= Self::width(),
        ensures
            v == Self::from_wire(bytes@),
    ;

    /// Writes the value's bytes into `out`, starting at index `at`.
    fn encode(self, out: &mut [u8], at: usize)
        requires
            at + Self::width() <= old(out)@.len(),
        ensures
            final(out)@ == old(out)@.take(at as int) + self.to_wire() + old(out)@.skip(
                at + Self::width(),
            ),
    ;
}

impl Wire for u8 {
    open spec fn width() -> nat {
        1
    }

    open spec fn from_wire(bytes: Seq<u8>) -> u8 {
        bytes[0]
    }

    open spec fn to_wire(self) -> Seq<u8> {
        seq![self]
    }

    proof fn lemma_value_round_trip(v: u8) {
    }

    proof fn lemma_bytes_round_trip(bytes: Seq<u8>) {
    }

    proof fn lemma_from_wire_prefix(bytes: Seq<u8>, more: Seq<u8>) {
        assert(bytes[0] == bytes.take(1)[0]);
    }

    fn size() -> (n: usize) {
        1
    }

    fn decode(bytes: &[u8]) -> (v: u8) {
        bytes[0]
    }

    fn encode(self, out: &mut [u8], at: usize) {
        out[at] = self;
    }
}

impl Wire for u16 {
    open spec fn width() -> nat {
        2
    }

    open spec fn from_wire(bytes: Seq<u8>) -> u16 {
        (bytes[0] * 0x100 + bytes[1]) as u16
    }

    open spec fn to_wire(self) -> Seq<u8> {
        seq![(self / 0x100) as u8, (self % 0x100) as u8]
    }

    proof fn lemma_value_round_trip(v: u16) {
    }

    proof fn lemma_bytes_round_trip(bytes: Seq<u8>) {
    }

    proof fn lemma_from_wire_prefix(bytes: Seq<u8>, more: Seq<u8>) {
        assert forall|i: int| 0 <= i < 2 implies more[i] == bytes[i] by {
            assert(bytes[i] == bytes.take(2)[i]);
        }
    }

    fn size() -> (n: usize) {
        2
    }

    fn decode(bytes: &[u8]) -> (v: u16) {
        let b0: u16 = bytes[0] as u16;
        let b1: u16 = bytes[1] as u16;
        b0 * 0x100 + b1
    }

    fn encode(self, out: &mut [u8], at: usize) {
        out[at] = (self / 0x100) as u8;
        out[at + 1] = (self % 0x100) as u8;
    }
}

impl Wire for u32 {
    open spec fn width() -> nat {
        4
    }

    open spec fn from_wire(bytes: Seq<u8>) -> u32 {
        (bytes[0] * 0x100_0000 + bytes[1] * 0x1_0000 + bytes[2] * 0x100 + bytes[3]) as u32
    }

    open spec fn to_wire(self) -> Seq<u8> {
        seq![
            (self / 0x100_0000) as u8,
            (self / 0x1_0000 % 0x100) as u8,
            (self / 0x100 % 0x100) as u8,
            (self % 0x100) as u8,
        ]
    }

    proof fn lemma_value_round_trip(v: u32) {
    }

    proof fn lemma_bytes_round_trip(bytes: Seq<u8>) {
        let b0 = bytes[0] as int;
        let b1 = bytes[1] as int;
        let b2 = bytes[2] as int;
        let b3 = bytes[3] as int;
        let v = b0 * 0x100_0000 + b1 * 0x1_0000 + b2 * 0x100 + b3;
        assert(v == Self::from_wire(bytes));
        assert(v / 0x100_0000 == b0);
        assert(v / 0x1_0000 == b0 * 0x100 + b1);
        assert(v / 0x100 == b0 * 0x1_0000 + b1 * 0x100 + b2);
        assert(v % 0x100 == b3);
        assert(Self::from_wire(bytes).to_wire() =~= bytes.take(4));
    }

    proof fn lemma_from_wire_prefix(bytes: Seq<u8>, more: Seq<u8>) {
        assert forall|i: int| 0 <= i < 4 implies more[i] == bytes[i] by {
            assert(bytes[i] == bytes.take(4)[i]);
        }
    }

    fn size() -> (n: usize) {
        4
    }

    fn decode(bytes: &[u8]) -> (v: u32) {
        let b0: u32 = bytes[0] as u32;
        let b1: u32 = bytes[1] as u32;
        let b2: u32 = bytes[2] as u32;
        let b3: u32 = bytes[3] as u32;
        b0 * 0x100_0000 + b1 * 0x1_0000 + b2 * 0x100 + b3
    }

    fn encode(self, out: &mut [u8], at: usize) {
        out[at] = (self / 0x100_0000) as u8;
        out[at + 1] = (self / 0x1_0000 % 0x100) as u8;
        out[at + 2] = (self / 0x100 % 0x100) as u8;
        out[at + 3] = (self % 0x100) as u8;
    }
}

} // verus!
