//! Transfer descriptors: the transport's unit of work.
//!
//! A descriptor names the bytes it clocks out and the place it stores the
//! bytes clocked in as spans of the buffers of the operation it belongs to.
//! It holds no data itself, so a plan can be computed from lengths alone.

use vstd::prelude::*;

verus! {

/// The longest delay, in microseconds, that a descriptor can carry.
pub const MAX_DELAY_US: u16 = 65535;

/// The duration that stands for a requested delay: the request itself
/// where it fits, the maximum where it does not.
pub open spec fn clamped(us: u32) -> u16 {
    if us > MAX_DELAY_US {
        MAX_DELAY_US
    } else {
        us as u16
    }
}

/// Converts a requested delay to the descriptor's duration field,
/// saturating at [`MAX_DELAY_US`].
pub fn clamp_delay(us: u32) -> (out: u16)
    ensures
        out == clamped(us),
        us <= MAX_DELAY_US ==> out == us,
        us > MAX_DELAY_US ==> out == MAX_DELAY_US,
{
    if us > 65535 {
        MAX_DELAY_US
    } else {
        us as u16
    }
}

/// A contiguous region of a buffer: `len` bytes from offset `start`.
#[derive(Clone, Copy, Debug, PartialEq, Eq, Structural)]
pub struct Span {
    pub start: usize,
    pub len: usize,
}

impl Span {
    /// The offset one past the region's last byte.
    pub open spec fn end(self) -> int {
        self.start + self.len
    }

    /// Whether the region lies inside a buffer of `n` bytes.
    pub open spec fn within(self, n: int) -> bool {
        self.end() <= n
    }

    /// The bytes of `buffer` that the region covers.
    pub open spec fn of(self, buffer: Seq<u8>) -> Seq<u8> {
        buffer.subrange(self.start as int, self.end())
    }

    /// `buffer` with the region's bytes replaced by `bytes`.
    pub open spec fn put(self, buffer: Seq<u8>, bytes: Seq<u8>) -> Seq<u8> {
        buffer.subrange(0, self.start as int) + bytes + buffer.subrange(
            self.end(),
            buffer.len() as int,
        )
    }

    /// The region that covers a whole buffer of `len` bytes.
    pub fn whole(len: usize) -> (span: Span)
        ensures
            span == whole(len),
    {
        Span { start: 0, len }
    }
}

/// The span that covers a whole buffer of `len` bytes.
pub open spec fn whole(len: usize) -> Span {
    Span { start: 0, len }
}

/// The span behind the first `at` bytes of a buffer of `len` bytes.
pub open spec fn rest(at: usize, len: usize) -> Span
    recommends
        at <= len,
{
    Span { start: at, len: (len - at) as usize }
}

/// One segment of work for the transport. Every descriptor reads, writes,
/// does both at once, or waits: there is no empty descriptor.
#[derive(Clone, Copy, Debug, PartialEq, Eq, Structural)]
pub enum Descriptor {
    /// Clock in `rx.len` bytes and store them at `rx`; what is clocked
    /// out meanwhile is not defined.
    Read { rx: Span },
    /// Clock out the bytes at `tx`; what is clocked in is dropped.
    Write { tx: Span },
    /// Clock out the bytes at `tx` and store what is clocked in
    /// meanwhile at `rx`.
    Duplex { tx: Span, rx: Span },
    /// Wait for `us` microseconds.
    Delay { us: u16 },
}

impl Descriptor {
    /// The write source, where the descriptor has one.
    pub open spec fn tx(self) -> Option<Span> {
        match self {
            Descriptor::Write { tx } => Some(tx),
            Descriptor::Duplex { tx, rx } => Some(tx),
            _ => None,
        }
    }

    /// The read target, where the descriptor has one.
    pub open spec fn rx(self) -> Option<Span> {
        match self {
            Descriptor::Read { rx } => Some(rx),
            Descriptor::Duplex { tx, rx } => Some(rx),
            _ => None,
        }
    }

    /// The delay, where the descriptor is one.
    pub open spec fn delay(self) -> Option<u16> {
        match self {
            Descriptor::Delay { us } => Some(us),
            _ => None,
        }
    }

    /// The transport duplexes regions of equal length only.
    pub open spec fn wf(self) -> bool {
        self matches Descriptor::Duplex { tx, rx } ==> tx.len == rx.len
    }

    /// Whether the descriptor's regions lie inside a read buffer of
    /// `read_len` bytes and a write source of `write_len` bytes.
    pub open spec fn fits(self, read_len: int, write_len: int) -> bool {
        &&& self.rx() matches Some(rx) ==> rx.within(read_len)
        &&& self.tx() matches Some(tx) ==> tx.within(write_len)
    }

    /// The number of bytes that the descriptor clocks over the bus.
    pub open spec fn clocked(self) -> nat {
        match self {
            Descriptor::Read { rx } => rx.len as nat,
            Descriptor::Write { tx } => tx.len as nat,
            Descriptor::Duplex { tx, rx } => tx.len as nat,
            Descriptor::Delay { us } => 0,
        }
    }

    /// The bytes that the descriptor clocks out of `source`; nothing
    /// where it has no write source.
    pub open spec fn transmitted(self, source: Seq<u8>) -> Seq<u8> {
        match self.tx() {
            Some(tx) => tx.of(source),
            None => Seq::empty(),
        }
    }

    /// The read buffer once the descriptor has completed, `received`
    /// being the bytes clocked in while it ran.
    pub open spec fn captured(self, target: Seq<u8>, received: Seq<u8>) -> Seq<u8> {
        match self.rx() {
            Some(rx) => rx.put(target, received),
            None => target,
        }
    }
}

} // verus!
