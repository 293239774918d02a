//! What the planner guarantees of a transaction's plan: the operations
//! keep their order, each stands in one piece at its place, and every
//! descriptor stays inside the buffers of its operation.

use crate::descriptor::{clamped, whole, Descriptor};
use crate::planner::{
    attributed, operation_plan, transaction_plan, transfer_plan, Operation, Planned,
};
use vstd::prelude::*;

verus! {

/// The number of descriptors that stand before those of the operation at
/// index `k`.
pub open spec fn offset(ops: Seq<Operation>, k: int) -> nat {
    transaction_plan(ops.take(k)).len()
}

/// The plan of the first `k` operations is the beginning of the plan of
/// all of them: what follows an operation changes nothing of what was
/// planned for it.
pub proof fn lemma_plan_prefix(ops: Seq<Operation>, k: int)
    requires
        0 <= k <= ops.len(),
    ensures
        offset(ops, k) <= transaction_plan(ops).len(),
        transaction_plan(ops).take(offset(ops, k) as int) == transaction_plan(ops.take(k)),
    decreases ops.len(),
{
    if k == ops.len() {
        assert(ops.take(k) == ops);
    } else {
        let front = ops.drop_last();
        assert(front.take(k) == ops.take(k));
        lemma_plan_prefix(front, k);
    }
}

/// The descriptors of the operation at index `k` stand together, in the
/// order of its own plan, behind those of the operations before it.
pub proof fn lemma_plan_position(ops: Seq<Operation>, k: int)
    requires
        0 <= k < ops.len(),
    ensures
        offset(ops, k + 1) == offset(ops, k) + operation_plan(ops[k]).len(),
        offset(ops, k + 1) <= transaction_plan(ops).len(),
        transaction_plan(ops).subrange(offset(ops, k) as int, offset(ops, k + 1) as int)
            == attributed(operation_plan(ops[k]), k),
{
    let upto = ops.take(k + 1);
    assert(upto.drop_last() == ops.take(k));
    assert(upto.last() == ops[k]);
    lemma_plan_prefix(ops, k + 1);
    let plan = transaction_plan(ops);
    let head = transaction_plan(upto);
    assert(plan.subrange(offset(ops, k) as int, offset(ops, k + 1) as int) == head.subrange(
        offset(ops, k) as int,
        offset(ops, k + 1) as int,
    ));
}

/// Every descriptor of a plan belongs to an operation of the transaction,
/// and the descriptors stand in the order of their operations.
pub proof fn lemma_plan_ordered(ops: Seq<Operation>)
    requires
        ops.len() <= usize::MAX,
    ensures
        forall|i: int|
            0 <= i < transaction_plan(ops).len() ==> (#[trigger] transaction_plan(ops)[i]).op
                < ops.len(),
        forall|i: int, j: int|
            0 <= i <= j < transaction_plan(ops).len() ==> (#[trigger] transaction_plan(ops)[i]).op
                <= (#[trigger] transaction_plan(ops)[j]).op,
    decreases ops.len(),
{
    if ops.len() > 0 {
        lemma_plan_ordered(ops.drop_last());
        let front = transaction_plan(ops.drop_last());
        let back = attributed(operation_plan(ops.last()), ops.len() - 1);
        let plan = transaction_plan(ops);
        assert forall|i: int| 0 <= i < plan.len() implies (#[trigger] plan[i]).op < ops.len()
            && (i < front.len() ==> plan[i] == front[i]) && (i >= front.len() ==> plan[i].op
            == ops.len() - 1) by {
            if i >= front.len() {
                assert(plan[i] == back[i - front.len()]);
            }
        }
    }
}

/// Every descriptor of a plan is one of the plan of its operation, is
/// accepted by the transport, and stays inside that operation's buffers.
pub proof fn lemma_plan_fits(ops: Seq<Operation>, i: int)
    requires
        ops.len() <= usize::MAX,
        0 <= i < transaction_plan(ops).len(),
    ensures
        ({
            let planned = transaction_plan(ops)[i];
            let op = ops[planned.op as int];
            &&& planned.op < ops.len()
            &&& operation_plan(op).contains(planned.descriptor)
            &&& planned.descriptor.wf()
            &&& planned.descriptor.fits(op.read_len(), op.write_len())
        }),
    decreases ops.len(),
{
    let front = transaction_plan(ops.drop_last());
    let part = operation_plan(ops.last());
    if i < front.len() {
        lemma_plan_fits(ops.drop_last(), i);
    } else {
        let at = i - front.len();
        assert(transaction_plan(ops)[i] == attributed(part, ops.len() - 1)[at]);
        assert(part[at] == transaction_plan(ops)[i].descriptor);
    }
}

/// A write, a read, a delay and a transfer, in this order, give the write
/// descriptor, the read descriptor, the delay descriptor with its
/// duration saturated, and then the one or two descriptors of the
/// transfer: each operation keeps its place.
pub proof fn lemma_write_read_delay_transfer(
    write_len: usize,
    read_len: usize,
    us: u32,
    transfer_read_len: usize,
    transfer_write_len: usize,
)
    ensures
        transaction_plan(
            seq![
                Operation::Write(write_len),
                Operation::Read(read_len),
                Operation::DelayUs(us),
                Operation::Transfer(transfer_read_len, transfer_write_len),
            ],
        ) == seq![
            Planned { op: 0, descriptor: Descriptor::Write { tx: whole(write_len) } },
            Planned { op: 1, descriptor: Descriptor::Read { rx: whole(read_len) } },
            Planned { op: 2, descriptor: Descriptor::Delay { us: clamped(us) } },
        ] + attributed(transfer_plan(transfer_read_len, transfer_write_len), 3),
{
    let ops = seq![
        Operation::Write(write_len),
        Operation::Read(read_len),
        Operation::DelayUs(us),
        Operation::Transfer(transfer_read_len, transfer_write_len),
    ];
    let three = ops.drop_last();
    let two = three.drop_last();
    let one = two.drop_last();
    assert(one.drop_last().len() == 0);
    assert(transaction_plan(one.drop_last()) == Seq::<Planned>::empty());
    assert(transaction_plan(one) == seq![
        Planned { op: 0, descriptor: Descriptor::Write { tx: whole(write_len) } },
    ]);
    assert(transaction_plan(two) == seq![
        Planned { op: 0, descriptor: Descriptor::Write { tx: whole(write_len) } },
        Planned { op: 1, descriptor: Descriptor::Read { rx: whole(read_len) } },
    ]);
    assert(transaction_plan(three) == seq![
        Planned { op: 0, descriptor: Descriptor::Write { tx: whole(write_len) } },
        Planned { op: 1, descriptor: Descriptor::Read { rx: whole(read_len) } },
        Planned { op: 2, descriptor: Descriptor::Delay { us: clamped(us) } },
    ]);
}

} // verus!
