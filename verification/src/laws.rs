use vstd::prelude::*;

verus! {

use crate::campaign::Campaign;
use crate::campaign::RECORD_SPACE;
use crate::campaign::spec_storage_reserve;
use crate::store::addrs_unique;
use crate::store::contains_addr;
use crate::store::lemma_get_addr_push;
use crate::store::lemma_get_addr_remove;

/// One record-level operation, as applied by the store once all of its
/// authorization and funding checks have passed.
pub enum Op {
    Donate(u64),
    Withdraw(u64),
}

/// The record after one allowed operation.
pub open spec fn apply_op(c: Campaign, op: Op) -> Campaign {
    match op {
        Op::Donate(amount) => c.donated(amount),
        Op::Withdraw(amount) => c.withdrawn(amount),
    }
}

/// Whether the record accepts the operation.
pub open spec fn op_allowed(c: Campaign, op: Op) -> bool {
    match op {
        Op::Donate(amount) => c.donate_allowed(amount),
        Op::Withdraw(amount) => c.withdraw_allowed(amount),
    }
}

/// The record after a sequence of operations, applied front to back.
pub open spec fn apply_ops(c: Campaign, ops: Seq<Op>) -> Campaign
    decreases ops.len(),
{
    if ops.len() == 0 {
        c
    } else {
        apply_ops(apply_op(c, ops[0]), ops.drop_first())
    }
}

/// Whether every operation in the sequence is accepted by the record state
/// it meets.
pub open spec fn ops_allowed(c: Campaign, ops: Seq<Op>) -> bool
    decreases ops.len(),
{
    ops.len() == 0
        || (op_allowed(c, ops[0]) && ops_allowed(apply_op(c, ops[0]), ops.drop_first()))
}

/// The sum of the donated amounts in the sequence; withdrawals contribute
/// nothing.
pub open spec fn donated_total(ops: Seq<Op>) -> int
    decreases ops.len(),
{
    if ops.len() == 0 {
        0
    } else {
        (match ops[0] {
            Op::Donate(amount) => amount as int,
            Op::Withdraw(_) => 0,
        }) + donated_total(ops.drop_first())
    }
}

/// A closed address is reusable: removing the record at an address leaves
/// nothing at that address, so a subsequent creation there passes its
/// duplicate check (and, by the creation contract, starts the new record's
/// collected counter at zero).
pub proof fn lemma_address_reusable_after_close(cs: Seq<Campaign>, i: int)
    requires
        addrs_unique(cs),
        0 <= i < cs.len(),
    ensures
        !contains_addr(cs.remove(i), cs[i].admin, cs[i].name@),
{
    lemma_get_addr_remove(cs, i);
}

/// Creation occupies its address: once a record is appended at a fresh
/// address, that address holds a record, so a second creation there without
/// an intervening close is refused as a duplicate by the creation contract.
pub proof fn lemma_created_address_occupied(cs: Seq<Campaign>, c: Campaign)
    requires
        addrs_unique(cs),
        !contains_addr(cs, c.admin, c.name@),
    ensures
        contains_addr(cs.push(c), c.admin, c.name@),
{
    lemma_get_addr_push(cs, c);
}

/// The reserve is never withdrawable: after any allowed sequence of
/// donations and withdrawals, the record stays well-formed and its held
/// balance stays at or above the storage reserve.
pub proof fn lemma_reserve_preserved(c: Campaign, ops: Seq<Op>)
    requires
        c.wf(),
        ops_allowed(c, ops),
    ensures
        apply_ops(c, ops).wf(),
        apply_ops(c, ops).held_balance >= spec_storage_reserve(RECORD_SPACE),
    decreases ops.len(),
{
    if ops.len() > 0 {
        assert(apply_op(c, ops[0]).wf());
        lemma_reserve_preserved(apply_op(c, ops[0]), ops.drop_first());
    }
}

/// The collected counter is the exact sum of the donated amounts: after any
/// allowed sequence of donations and withdrawals it equals its starting
/// value plus the total donated, and withdrawals never decrement it.
pub proof fn lemma_collected_is_donation_sum(c: Campaign, ops: Seq<Op>)
    requires
        ops_allowed(c, ops),
    ensures
        apply_ops(c, ops).amount_collected == c.amount_collected + donated_total(ops),
    decreases ops.len(),
{
    if ops.len() > 0 {
        lemma_collected_is_donation_sum(apply_op(c, ops[0]), ops.drop_first());
    }
}

} // verus!
