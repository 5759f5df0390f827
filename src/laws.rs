use vstd::prelude::*;
use crate::pubkey::Pubkey;
use crate::error::VaultError;
use crate::state::{SecureVault, PendingOperation, after_daily_reset, signatures_complete};
use crate::validation::pending_check;
use crate::processor::{
    withdraw_outcome, execute_decision, effect_check, measured, sign_decision, add_manager_decision,
    remove_manager_decision,
};

verus! {

/// Every well-formed vault keeps its manager list within the configured
/// cap and never lists the admin as a manager. Each operation that changes
/// the managers (adding, removing, executing a pending change, transferring
/// the admin) keeps the vault well formed, so this holds after any sequence
/// of them.
pub proof fn lemma_manager_bounds(v: SecureVault)
    requires
        v.wf(),
    ensures
        v.managers@.len() <= v.config.max_managers,
        !v.managers@.contains(v.admin),
{
}

/// Adding a manager keeps the bounds: when the decision admits `m`, the
/// vault that results (the accounted-for vault with `m` appended) still has
/// at most `max_managers` managers and does not list its admin.
pub proof fn lemma_add_manager_keeps_bounds(v: SecureVault, after: SecureVault, performer: Pubkey, m: Pubkey, now: i64)
    requires
        v.wf(),
        add_manager_decision(v, performer, m, now) is Ok,
        after == (SecureVault { managers: after.managers, ..measured(v, now)->Some_0 }),
        after.managers@ == v.managers@.push(m),
    ensures
        after.managers@.len() <= after.config.max_managers,
        !after.managers@.contains(after.admin),
{
    if after.managers@.contains(after.admin) {
        let j = choose|j: int| 0 <= j < after.managers@.len() && after.managers@[j] == after.admin;
        if j < v.managers@.len() {
            assert(v.managers@[j] == v.admin);
        }
    }
}

/// Removing a manager keeps the bounds: the list only shrinks, so the cap
/// and the admin's absence carry over.
pub proof fn lemma_remove_manager_keeps_bounds(v: SecureVault, after: SecureVault, performer: Pubkey, m: Pubkey, now: i64, i: int)
    requires
        v.wf(),
        remove_manager_decision(v, performer, m, now) is Ok,
        after == (SecureVault { managers: after.managers, ..measured(v, now)->Some_0 }),
        0 <= i < v.managers@.len(),
        after.managers@ == v.managers@.remove(i),
    ensures
        after.managers@.len() <= after.config.max_managers,
        !after.managers@.contains(after.admin),
{
    if after.managers@.contains(after.admin) {
        let j = choose|j: int| 0 <= j < after.managers@.len() && after.managers@[j] == after.admin;
        if j < i {
            assert(v.managers@[j] == v.admin);
        } else {
            assert(v.managers@[j + 1] == v.admin);
        }
    }
}

/// A direct withdrawal that would take the day's total, after any day
/// rollover reset, past the daily limit fails with `DailyLimitExceeded`;
/// a failed withdrawal leaves the vault, and so its balance, unchanged.
pub proof fn lemma_daily_limit_enforced(v: SecureVault, performer: Pubkey, amount: u64, now: i64)
    requires
        after_daily_reset(v, now).daily_withdrawn_amount + amount > v.daily_withdrawal_limit,
    ensures
        withdraw_outcome(v, performer, amount, now) == Err::<SecureVault, VaultError>(VaultError::DailyLimitExceeded),
{
}

/// For a live operation, execution needs both the elapsed time-lock and
/// every required signature: it never succeeds without both; missing only
/// the time gives `TimeLockNotElapsed`; missing only signatures gives
/// `InsufficientSignatures`; with both, it succeeds whenever the effect
/// itself is possible and the counters do not overflow.
pub proof fn lemma_execution_readiness(v: SecureVault, op: PendingOperation, now: i64)
    requires
        pending_check(op, now) is Ok,
    ensures
        execute_decision(v, op, now) is Ok ==> now >= op.scheduled_execution && signatures_complete(op),
        now < op.scheduled_execution && signatures_complete(op) ==> execute_decision(v, op, now)
            == Err::<(), VaultError>(VaultError::TimeLockNotElapsed),
        now >= op.scheduled_execution && !signatures_complete(op) ==> execute_decision(v, op, now)
            == Err::<(), VaultError>(VaultError::InsufficientSignatures),
        now >= op.scheduled_execution && signatures_complete(op) && effect_check(v, op, now) is Ok
            && measured(v, now) is Some ==> execute_decision(v, op, now) is Ok,
{
}

/// Signing twice: once a signature by `signer` has been accepted (taking
/// `first` to `second`), the same signature on `second` is refused with
/// `AlreadySigned`, and a refused signature changes nothing.
pub proof fn lemma_signature_idempotent(first: PendingOperation, second: PendingOperation, signer: Pubkey, now: i64)
    requires
        sign_decision(first, signer, now) is Ok,
        second == (PendingOperation { received_signatures: second.received_signatures, ..first }),
        second.received_signatures@ == first.received_signatures@.push(signer),
    ensures
        sign_decision(second, signer, now) == Err::<(), VaultError>(VaultError::AlreadySigned),
{
    assert(second.received_signatures@[first.received_signatures@.len() as int] == signer);
    assert(pending_check(second, now) == pending_check(first, now));
}

} // verus!
