//! The events that the server reports, and their decoding.

use crate::bufsocket::BufSocket;
use crate::wire::Wire;
use vstd::prelude::*;

pub mod event_types;

verus! {

/// What the server reports.
#[derive(Debug, Clone, Copy, PartialEq, Eq, Structural)]
pub enum Event {
    /// The window was closed.
    Close,
    /// The window now is `w` by `h`.
    Resize { w: u16, h: u16 },
}

/// Why bytes are no event.
#[derive(Debug, Clone, Copy, PartialEq, Eq, Structural)]
pub enum Error {
    /// The tag is none of the known ones; here it is.
    UnknownType(u8),
}

impl Event {
    /// The bytes that stand for the event: its tag, then its fields.
    pub open spec fn to_wire(self) -> Seq<u8> {
        match self {
            Event::Close => seq![event_types::CLOSE],
            Event::Resize { w, h } => seq![event_types::RESIZE] + w.to_wire() + h.to_wire(),
        }
    }

    /// Number of bytes that decoding takes from the front of `bytes`: the
    /// tag and, for a resize, the two sizes.
    pub open spec fn wire_len(bytes: Seq<u8>) -> nat {
        if bytes.len() > 0 && bytes[0] == event_types::RESIZE {
            5
        } else {
            1
        }
    }

    /// What the front of `bytes` decodes to.
    pub open spec fn from_wire(bytes: Seq<u8>) -> Result<Event, Error> {
        if bytes[0] == event_types::CLOSE {
            Ok(Event::Close)
        } else if bytes[0] == event_types::RESIZE {
            Ok(Event::Resize { w: u16::from_wire(bytes.skip(1)), h: u16::from_wire(bytes.skip(3)) })
        } else {
            Err(Error::UnknownType(bytes[0]))
        }
    }

    /// Decoding the bytes of an event gives the event, whatever follows
    /// them, and takes just those bytes.
    pub proof fn lemma_round_trip(self, rest: Seq<u8>)
        ensures
            Event::wire_len(self.to_wire() + rest) == self.to_wire().len(),
            Event::from_wire(self.to_wire() + rest) == Ok::<Event, Error>(self),
    {
        let bytes = self.to_wire() + rest;
        match self {
            Event::Close => {},
            Event::Resize { w, h } => {
                u16::lemma_value_round_trip(w);
                u16::lemma_value_round_trip(h);
                assert(bytes.skip(1).take(2) =~= w.to_wire());
                assert(bytes.skip(3).take(2) =~= h.to_wire());
                assert(w.to_wire().take(2) =~= w.to_wire());
                assert(h.to_wire().take(2) =~= h.to_wire());
                u16::lemma_from_wire_prefix(w.to_wire(), bytes.skip(1));
                u16::lemma_from_wire_prefix(h.to_wire(), bytes.skip(3));
            },
        }
    }

    /// Takes one event from the front of the buffer. All its bytes must be
    /// buffered.
    pub fn pull<const CAPACITY: usize, const CHUNK_LEN: usize>(
        s: &mut BufSocket<CAPACITY, CHUNK_LEN>,
    ) -> (r: Result<Event, Error>)
        requires
            old(s).wf(),
            old(s)@.len() >= Event::wire_len(old(s)@),
        ensures
            final(s).wf(),
            final(s).socket() == old(s).socket(),
            r == Event::from_wire(old(s)@),
            final(s)@ == old(s)@.skip(Event::wire_len(old(s)@) as int),
    {
        let mut _type: u8 = 0;
        s.read_transmuted(&mut _type);
        if _type == event_types::CLOSE {
            Ok(Event::Close)
        } else if _type == event_types::RESIZE {
            let mut w: u16 = 0;
            let mut h: u16 = 0;
            s.read_transmuted(&mut w);
            s.read_transmuted(&mut h);
            Ok(Event::Resize { w, h })
        } else {
            Err(Error::UnknownType(_type))
        }
    }
}

} // verus!
