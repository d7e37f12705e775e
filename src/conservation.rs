use vstd::prelude::*;
use crate::escrow::{vault_step, VaultOp};

verus! {

/// The vault balance after applying `ops` in order from `start`, or `None`
/// where one of them is refused on the vault's side.
pub open spec fn run_ops(start: int, ops: Seq<VaultOp>) -> Option<int>
    decreases ops.len(),
{
    if ops.len() == 0 {
        Some(start)
    } else {
        match run_ops(start, ops.drop_last()) {
            Some(b) => vault_step(b, ops.last()),
            None => None,
        }
    }
}

/// The sum of the deposited amounts in `ops`.
pub open spec fn total_deposits(ops: Seq<VaultOp>) -> int
    decreases ops.len(),
{
    if ops.len() == 0 {
        0
    } else {
        total_deposits(ops.drop_last()) + match ops.last() {
            VaultOp::Deposit(a) => a as int,
            VaultOp::Payout(_) => 0,
        }
    }
}

/// The sum of the paid-out amounts in `ops`.
pub open spec fn total_payouts(ops: Seq<VaultOp>) -> int
    decreases ops.len(),
{
    if ops.len() == 0 {
        0
    } else {
        total_payouts(ops.drop_last()) + match ops.last() {
            VaultOp::Deposit(_) => 0,
            VaultOp::Payout(a) => a as int,
        }
    }
}

/// Conservation of value: after any sequence of deposits and payouts that all
/// succeed, the vault holds its starting balance plus everything deposited less
/// everything paid out, and that amount is never negative nor above `u64::MAX`.
/// From an empty vault it is exactly the deposits less the payouts.
pub proof fn lemma_conservation(start: u64, ops: Seq<VaultOp>)
    requires
        run_ops(start as int, ops) is Some,
    ensures
        run_ops(start as int, ops) == Some(start + total_deposits(ops) - total_payouts(ops)),
        0 <= start + total_deposits(ops) - total_payouts(ops) <= u64::MAX,
    decreases ops.len(),
{
    if ops.len() > 0 {
        lemma_conservation(start, ops.drop_last());
    }
}

} // verus!
