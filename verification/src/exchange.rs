//! What a plan does to the caller's buffers, and what the planner
//! guarantees of it.
//!
//! The transport clocks one byte in for every byte it clocks out. A plan's
//! effect is therefore told by two things: the bytes it sends, taken from
//! the write source, and the read buffer it leaves, given the bytes that
//! came in while it ran.

use crate::descriptor::{clamped, rest, whole, Descriptor, MAX_DELAY_US};
use crate::planner::{in_place_plan, operation_plan, transfer_plan, Operation};
use vstd::prelude::*;

verus! {

/// The number of bytes that a plan clocks over the bus.
pub open spec fn clocks(plan: Seq<Descriptor>) -> nat
    decreases plan.len(),
{
    if plan.len() == 0 {
        0
    } else {
        clocks(plan.drop_last()) + plan.last().clocked()
    }
}

/// The bytes that a plan clocks out of `source`, in the order in which
/// they leave. A descriptor without a write source adds nothing: what it
/// clocks out is not defined.
pub open spec fn sent(plan: Seq<Descriptor>, source: Seq<u8>) -> Seq<u8>
    decreases plan.len(),
{
    if plan.len() == 0 {
        Seq::empty()
    } else {
        sent(plan.drop_last(), source) + plan.last().transmitted(source)
    }
}

/// The read buffer that a plan leaves, `received` being the bytes clocked
/// in while it ran, one for each byte that the plan clocks. Each
/// descriptor consumes as many of them as it clocks, and stores them if it
/// has a read target.
pub open spec fn stored(plan: Seq<Descriptor>, target: Seq<u8>, received: Seq<u8>) -> Seq<u8>
    decreases plan.len(),
{
    if plan.len() == 0 {
        target
    } else {
        let before = plan.drop_last();
        let arrived = received.subrange(
            clocks(before) as int,
            (clocks(before) + plan.last().clocked()) as int,
        );
        plan.last().captured(stored(before, target, received), arrived)
    }
}

/// The longer of two lengths.
pub open spec fn longer(a: int, b: int) -> int {
    if a < b {
        b
    } else {
        a
    }
}

/// A read buffer shorter than the write buffer gives two descriptors. The
/// first duplexes the first `read_len` bytes of the write buffer against
/// the whole read buffer; the second writes the remaining bytes and
/// captures nothing.
pub proof fn lemma_transfer_short_read(read_len: usize, write: Seq<u8>)
    requires
        read_len < write.len() <= usize::MAX,
    ensures
        ({
            let plan = transfer_plan(read_len, write.len() as usize);
            &&& plan.len() == 2
            &&& plan[0] is Duplex
            &&& plan[0].transmitted(write) == write.take(read_len as int)
            &&& plan[0].rx() == Some(whole(read_len))
            &&& plan[1] is Write
            &&& plan[1].transmitted(write) == write.skip(read_len as int)
            &&& plan[1].rx() is None
        }),
{
}

/// Buffers of equal length give one descriptor, which duplexes the whole
/// write buffer against the whole read buffer.
pub proof fn lemma_transfer_equal_lengths(write: Seq<u8>)
    requires
        write.len() <= usize::MAX,
    ensures
        ({
            let len = write.len() as usize;
            let plan = transfer_plan(len, len);
            &&& plan.len() == 1
            &&& plan[0] is Duplex
            &&& plan[0].transmitted(write) == write
            &&& plan[0].rx() == Some(whole(len))
        }),
{
    assert(write.subrange(0, write.len() as int) == write);
}

/// A read buffer longer than the write buffer gives two descriptors. The
/// first duplexes the whole write buffer against the first `write.len()`
/// bytes of the read buffer; the second reads into the remaining bytes
/// and has no write source.
pub proof fn lemma_transfer_long_read(read_len: usize, write: Seq<u8>)
    requires
        write.len() < read_len,
    ensures
        ({
            let write_len = write.len() as usize;
            let plan = transfer_plan(read_len, write_len);
            &&& plan.len() == 2
            &&& plan[0] is Duplex
            &&& plan[0].transmitted(write) == write
            &&& plan[0].rx() == Some(whole(write_len))
            &&& plan[1] is Read
            &&& plan[1].tx() is None
            &&& plan[1].rx() == Some(rest(write_len, read_len))
            &&& rest(write_len, read_len).start == write_len
            &&& rest(write_len, read_len).end() == read_len
        }),
{
    assert(write.subrange(0, write.len() as int) == write);
}

/// Whatever the two lengths, the plan of a transfer is made of
/// descriptors that the transport accepts and that stay inside the two
/// buffers; it clocks as many bytes as the longer buffer holds.
pub proof fn lemma_transfer_fits(read_len: usize, write_len: usize)
    ensures
        ({
            let plan = transfer_plan(read_len, write_len);
            &&& 1 <= plan.len() <= 2
            &&& (plan.len() == 1 <==> read_len == write_len)
            &&& forall|i: int|
                0 <= i < plan.len() ==> (#[trigger] plan[i]).wf() && plan[i].fits(
                    read_len as int,
                    write_len as int,
                )
            &&& clocks(plan) == longer(read_len as int, write_len as int)
        }),
{
    let plan = transfer_plan(read_len, write_len);
    reveal_with_fuel(clocks, 3);
    if plan.len() == 2 {
        assert(plan.drop_last().drop_last().len() == 0);
        assert(plan.drop_last().last() == plan[0]);
    } else {
        assert(plan.drop_last().len() == 0);
    }
}

/// A transfer sends the write buffer, byte for byte and in order, and
/// leaves in the read buffer the first bytes that came in, as many as it
/// holds: nothing of the buffer's earlier content remains.
pub proof fn lemma_transfer_exchange(read: Seq<u8>, write: Seq<u8>, received: Seq<u8>)
    requires
        read.len() <= usize::MAX,
        write.len() <= usize::MAX,
        received.len() == longer(read.len() as int, write.len() as int),
    ensures
        sent(transfer_plan(read.len() as usize, write.len() as usize), write) == write,
        stored(transfer_plan(read.len() as usize, write.len() as usize), read, received)
            == received.take(read.len() as int),
{
    let plan = transfer_plan(read.len() as usize, write.len() as usize);
    reveal_with_fuel(clocks, 3);
    reveal_with_fuel(sent, 3);
    reveal_with_fuel(stored, 3);
    if plan.len() == 2 {
        let first = plan.drop_last();
        assert(first.drop_last().len() == 0);
        assert(first.last() == plan[0]);
        assert(sent(plan, write) == plan[0].transmitted(write) + plan[1].transmitted(write));
        assert(stored(first, read, received) == plan[0].captured(
            read,
            received.subrange(0, plan[0].clocked() as int),
        ));
    } else {
        assert(plan.drop_last().len() == 0);
    }
    assert(sent(plan, write) == write);
    assert(stored(plan, read, received) == received.take(read.len() as int));
}

/// An exchange in place is one duplex descriptor over the whole buffer.
/// With a copy of the buffer's content as its write source, it sends
/// exactly what the buffer held before the exchange and leaves in the
/// buffer exactly what came in.
pub proof fn lemma_in_place_exchange(before: Seq<u8>, received: Seq<u8>)
    requires
        before.len() <= usize::MAX,
        received.len() == before.len(),
    ensures
        ({
            let plan = in_place_plan(before.len() as usize);
            &&& plan.len() == 1
            &&& plan[0] is Duplex
            &&& plan[0].wf()
            &&& plan[0].fits(before.len() as int, before.len() as int)
            &&& plan[0].transmitted(before) == before
            &&& plan[0].captured(before, received) == received
            &&& sent(plan, before) == before
            &&& stored(plan, before, received) == received
        }),
{
    let plan = in_place_plan(before.len() as usize);
    reveal_with_fuel(clocks, 2);
    reveal_with_fuel(sent, 2);
    reveal_with_fuel(stored, 2);
    assert(plan.drop_last().len() == 0);
    assert(plan[0].transmitted(before) == before);
    assert(received.subrange(0, received.len() as int) == received);
    assert(plan[0].captured(before, received) == received);
}

/// A delay never exceeds the longest that a descriptor can carry, is kept
/// as it is where it fits, and is the longest where it does not.
pub proof fn lemma_delay_saturates(us: u32)
    ensures
        clamped(us) <= MAX_DELAY_US,
        us <= MAX_DELAY_US ==> clamped(us) == us,
        us > MAX_DELAY_US ==> clamped(us) == MAX_DELAY_US,
        operation_plan(Operation::DelayUs(us)) == seq![Descriptor::Delay { us: clamped(us) }],
{
}

} // verus!
