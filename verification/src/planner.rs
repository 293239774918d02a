//! The transfer planner: from operations to the descriptors of one
//! submission.

use crate::descriptor::{clamp_delay, clamped, rest, whole, Descriptor, Span};
use vstd::prelude::*;

verus! {

/// One operation of a transaction, by the lengths of its buffers.
#[derive(Clone, Copy, Debug, PartialEq, Eq, Structural)]
pub enum Operation {
    /// Read into a buffer of this many bytes.
    Read(usize),
    /// Write a buffer of this many bytes.
    Write(usize),
    /// Read into a buffer of the first length while writing one of the
    /// second.
    Transfer(usize, usize),
    /// Write a buffer of this many bytes while reading into the same
    /// buffer.
    TransferInPlace(usize),
    /// Wait for at least this many microseconds.
    DelayUs(u32),
}

impl Operation {
    /// The length of the buffer that the operation reads into; zero where
    /// it reads nothing.
    pub open spec fn read_len(self) -> int {
        match self {
            Operation::Read(len) => len as int,
            Operation::Transfer(read_len, write_len) => read_len as int,
            Operation::TransferInPlace(len) => len as int,
            _ => 0,
        }
    }

    /// The length of the operation's write source; zero where it writes
    /// nothing. An exchange in place writes from a copy of its buffer.
    pub open spec fn write_len(self) -> int {
        match self {
            Operation::Write(len) => len as int,
            Operation::Transfer(read_len, write_len) => write_len as int,
            Operation::TransferInPlace(len) => len as int,
            _ => 0,
        }
    }
}

/// A descriptor of a transaction's plan, with the index of the operation
/// whose buffers its spans refer to.
#[derive(Clone, Copy, Debug, PartialEq, Eq, Structural)]
pub struct Planned {
    pub op: usize,
    pub descriptor: Descriptor,
}

/// The descriptors of one duplex exchange that reads `read_len` bytes and
/// writes `write_len` bytes. The common prefix is duplexed; what the
/// longer buffer has beyond it follows in a descriptor of its own.
pub open spec fn transfer_plan(read_len: usize, write_len: usize) -> Seq<Descriptor> {
    if read_len < write_len {
        seq![
            Descriptor::Duplex { tx: whole(read_len), rx: whole(read_len) },
            Descriptor::Write { tx: rest(read_len, write_len) },
        ]
    } else if read_len == write_len {
        seq![Descriptor::Duplex { tx: whole(write_len), rx: whole(read_len) }]
    } else {
        seq![
            Descriptor::Duplex { tx: whole(write_len), rx: whole(write_len) },
            Descriptor::Read { rx: rest(write_len, read_len) },
        ]
    }
}

/// The descriptor of an exchange in place on a buffer of `len` bytes. Its
/// write source is a copy of the buffer taken before the exchange, its
/// read target the buffer itself.
pub open spec fn in_place_plan(len: usize) -> Seq<Descriptor> {
    seq![Descriptor::Duplex { tx: whole(len), rx: whole(len) }]
}

/// The descriptors that realise one operation.
pub open spec fn operation_plan(op: Operation) -> Seq<Descriptor> {
    match op {
        Operation::Read(len) => seq![Descriptor::Read { rx: whole(len) }],
        Operation::Write(len) => seq![Descriptor::Write { tx: whole(len) }],
        Operation::Transfer(read_len, write_len) => transfer_plan(read_len, write_len),
        Operation::TransferInPlace(len) => in_place_plan(len),
        Operation::DelayUs(us) => seq![Descriptor::Delay { us: clamped(us) }],
    }
}

/// `descriptors`, each attributed to the operation at index `op`.
pub open spec fn attributed(descriptors: Seq<Descriptor>, op: int) -> Seq<Planned> {
    Seq::new(
        descriptors.len(),
        |i: int| (Planned { op: op as usize, descriptor: descriptors[i] }),
    )
}

/// The plan of a transaction: the plans of its operations, one after the
/// other in the order of the operations.
pub open spec fn transaction_plan(ops: Seq<Operation>) -> Seq<Planned>
    decreases ops.len(),
{
    if ops.len() == 0 {
        Seq::empty()
    } else {
        transaction_plan(ops.drop_last()) + attributed(
            operation_plan(ops.last()),
            ops.len() - 1,
        )
    }
}

/// Plans one duplex exchange between a read buffer of `read_len` bytes and
/// a write buffer of `write_len` bytes.
pub fn plan_transfer(read_len: usize, write_len: usize) -> (plan: Vec<Descriptor>)
    ensures
        plan@ == transfer_plan(read_len, write_len),
        read_len == write_len ==> plan@.len() == 1,
        read_len != write_len ==> plan@.len() == 2,
{
    let mut plan: Vec<Descriptor> = Vec::new();
    if read_len < write_len {
        plan.push(Descriptor::Duplex { tx: Span::whole(read_len), rx: Span::whole(read_len) });
        plan.push(Descriptor::Write { tx: Span { start: read_len, len: write_len - read_len } });
    } else if read_len == write_len {
        plan.push(Descriptor::Duplex { tx: Span::whole(write_len), rx: Span::whole(read_len) });
    } else {
        plan.push(Descriptor::Duplex { tx: Span::whole(write_len), rx: Span::whole(write_len) });
        plan.push(Descriptor::Read { rx: Span { start: write_len, len: read_len - write_len } });
    }
    plan
}

/// Plans an exchange in place on a buffer of `len` bytes.
pub fn plan_in_place(len: usize) -> (plan: Vec<Descriptor>)
    ensures
        plan@ == in_place_plan(len),
{
    let mut plan: Vec<Descriptor> = Vec::new();
    plan.push(Descriptor::Duplex { tx: Span::whole(len), rx: Span::whole(len) });
    plan
}

/// Copies a buffer, so that an exchange in place has a write source that
/// the transport does not overwrite while it reads from it.
pub fn snapshot(words: &[u8]) -> (tx: Vec<u8>)
    ensures
        tx@ == words@,
{
    let mut tx: Vec<u8> = Vec::new();
    let mut i: usize = 0;
    while i < words.len()
        invariant
            i <= words.len(),
            tx@ == words@.take(i as int),
        decreases words.len() - i,
    {
        tx.push(words[i]);
        i += 1;
    }
    tx
}

/// Plans one operation.
pub fn plan_operation(op: &Operation) -> (plan: Vec<Descriptor>)
    ensures
        plan@ == operation_plan(*op),
{
    match *op {
        Operation::Read(len) => {
            let mut plan: Vec<Descriptor> = Vec::new();
            plan.push(Descriptor::Read { rx: Span::whole(len) });
            plan
        },
        Operation::Write(len) => {
            let mut plan: Vec<Descriptor> = Vec::new();
            plan.push(Descriptor::Write { tx: Span::whole(len) });
            plan
        },
        Operation::Transfer(read_len, write_len) => plan_transfer(read_len, write_len),
        Operation::TransferInPlace(len) => plan_in_place(len),
        Operation::DelayUs(us) => {
            let mut plan: Vec<Descriptor> = Vec::new();
            plan.push(Descriptor::Delay { us: clamp_delay(us) });
            plan
        },
    }
}

/// Plans a transaction: every descriptor of one submission, in the order
/// of the operations.
pub fn plan_transaction(ops: &[Operation]) -> (plan: Vec<Planned>)
    ensures
        plan@ == transaction_plan(ops@),
{
    let mut plan: Vec<Planned> = Vec::new();
    let mut i: usize = 0;
    while i < ops.len()
        invariant
            i <= ops.len(),
            plan@ == transaction_plan(ops@.take(i as int)),
        decreases ops.len() - i,
    {
        let part = plan_operation(&ops[i]);
        let ghost before = plan@;
        let mut j: usize = 0;
        while j < part.len()
            invariant
                j <= part.len(),
                i < ops.len(),
                part@ == operation_plan(ops@[i as int]),
                plan@ == before + attributed(part@, i as int).take(j as int),
            decreases part.len() - j,
        {
            plan.push(Planned { op: i, descriptor: part[j] });
            j += 1;
        }
        proof {
            let next = ops@.take(i + 1);
            assert(next.drop_last() == ops@.take(i as int));
            assert(next.last() == ops@[i as int]);
            assert(attributed(part@, i as int).take(part@.len() as int) == attributed(
                part@,
                i as int,
            ));
        }
        i += 1;
    }
    proof {
        assert(ops@.take(ops@.len() as int) == ops@);
    }
    plan
}

} // verus!
