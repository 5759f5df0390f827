use vstd::prelude::*;
use crate::pubkey::{Pubkey, contains_key};
use crate::error::VaultError;
use crate::state::{
    SecureVault, SecurityConfig, OperationType, OperationStatus, PendingOperation, config_is_sane,
    after_daily_reset, add_manager_check, signature_check, withdraw_check,
};
use crate::security::{
    SecurityManager, AnomalyPolicy, measures_applied, multisig_needed, policy_delay, required_signers, suspicious,
};
use crate::validation::{Validator, context_check, moves_funds, pending_check, ready_check};
use crate::audit::{AuditTrail, entry_for};
use crate::state::AuditLog;

verus! {

/// The vault after an operation at `now` is accounted for; `None` when a
/// counter would overflow.
pub open spec fn measured(v: SecureVault, now: i64) -> Option<SecureVault> {
    match measures_applied(v, now, false) {
        Ok(m) => Some(m),
        Err(_) => None,
    }
}

/// `t1` is `t0` with the record of one more attempt.
pub open spec fn appended(t0: AuditTrail, t1: AuditTrail, entry: AuditLog) -> bool {
    &&& t1.wf()
    &&& t1.next_operation_id == t0.next_operation_id + 1
    &&& t1.entries@ == t0.entries@.push(entry)
}

/// Precondition shared by all top-level operations.
pub open spec fn ready_to_record(v: SecureVault, t: AuditTrail) -> bool {
    v.wf() && t.wf() && t.next_operation_id < u64::MAX
}

pub open spec fn deposit_outcome(v: SecureVault, performer: Pubkey, amount: u64, now: i64) -> Result<SecureVault, VaultError> {
    if context_check(v, OperationType::Deposit, performer, Some(amount), now) is Err {
        Err(context_check(v, OperationType::Deposit, performer, Some(amount), now)->Err_0)
    } else if v.total_balance + amount > u64::MAX {
        Err(VaultError::ArithmeticOverflow)
    } else {
        match measured(v, now) {
            None => Err(VaultError::ArithmeticOverflow),
            Some(m) => Ok(SecureVault { total_balance: (m.total_balance + amount) as u64, ..m }),
        }
    }
}

/// A direct withdrawal: the daily limit is checked first, then the admission checks,
/// the multisig threshold (larger amounts go through a time-lock), and the
/// balance.
pub open spec fn withdraw_outcome(v: SecureVault, performer: Pubkey, amount: u64, now: i64) -> Result<SecureVault, VaultError> {
    if after_daily_reset(v, now).daily_withdrawn_amount + amount > v.daily_withdrawal_limit {
        Err(VaultError::DailyLimitExceeded)
    } else if context_check(v, OperationType::Withdraw, performer, Some(amount), now) is Err {
        Err(context_check(v, OperationType::Withdraw, performer, Some(amount), now)->Err_0)
    } else if multisig_needed(v, OperationType::Withdraw, Some(amount)) {
        Err(VaultError::InsufficientSignatures)
    } else if amount > v.total_balance {
        Err(VaultError::InsufficientBalance)
    } else {
        match measured(v, now) {
            None => Err(VaultError::ArithmeticOverflow),
            Some(m) => Ok(
                SecureVault {
                    total_balance: (m.total_balance - amount) as u64,
                    daily_withdrawn_amount: (m.daily_withdrawn_amount + amount) as u64,
                    ..m
                },
            ),
        }
    }
}

pub open spec fn pause_outcome(v: SecureVault, performer: Pubkey, now: i64) -> Result<SecureVault, VaultError> {
    if context_check(v, OperationType::EmergencyPause, performer, None, now) is Err {
        Err(context_check(v, OperationType::EmergencyPause, performer, None, now)->Err_0)
    } else {
        match measured(v, now) {
            None => Err(VaultError::ArithmeticOverflow),
            Some(m) => Ok(SecureVault { is_paused: true, ..m }),
        }
    }
}

pub open spec fn resume_outcome(v: SecureVault, performer: Pubkey, now: i64) -> Result<SecureVault, VaultError> {
    if context_check(v, OperationType::Resume, performer, None, now) is Err {
        Err(context_check(v, OperationType::Resume, performer, None, now)->Err_0)
    } else if !v.is_paused {
        Err(VaultError::InvalidOperationStatus)
    } else {
        match measured(v, now) {
            None => Err(VaultError::ArithmeticOverflow),
            Some(m) => Ok(SecureVault { is_paused: false, ..m }),
        }
    }
}

pub open spec fn update_config_outcome(v: SecureVault, performer: Pubkey, c: SecurityConfig, now: i64) -> Result<SecureVault, VaultError> {
    if context_check(v, OperationType::UpdateConfig, performer, None, now) is Err {
        Err(context_check(v, OperationType::UpdateConfig, performer, None, now)->Err_0)
    } else if !config_is_sane(c) || v.managers@.len() > c.max_managers {
        Err(VaultError::InvalidSecurityConfig)
    } else {
        match measured(v, now) {
            None => Err(VaultError::ArithmeticOverflow),
            Some(m) => Ok(SecureVault { config: c, ..m }),
        }
    }
}

pub open spec fn transfer_admin_outcome(v: SecureVault, performer: Pubkey, new_admin: Pubkey, now: i64) -> Result<SecureVault, VaultError> {
    if context_check(v, OperationType::TransferAdmin, performer, None, now) is Err {
        Err(context_check(v, OperationType::TransferAdmin, performer, None, now)->Err_0)
    } else if new_admin.bytes@ == Seq::new(32, |i: int| 0u8) {
        Err(VaultError::InvalidPubkey)
    } else if v.managers@.contains(new_admin) {
        Err(VaultError::AdminCannotBeManager)
    } else {
        match measured(v, now) {
            None => Err(VaultError::ArithmeticOverflow),
            Some(m) => Ok(SecureVault { admin: new_admin, ..m }),
        }
    }
}

pub open spec fn emergency_withdraw_outcome(v: SecureVault, performer: Pubkey, amount: u64, now: i64) -> Result<SecureVault, VaultError> {
    if context_check(v, OperationType::EmergencyWithdraw, performer, Some(amount), now) is Err {
        Err(context_check(v, OperationType::EmergencyWithdraw, performer, Some(amount), now)->Err_0)
    } else if amount > v.total_balance {
        Err(VaultError::InsufficientBalance)
    } else {
        match measured(v, now) {
            None => Err(VaultError::ArithmeticOverflow),
            Some(m) => Ok(SecureVault { total_balance: (m.total_balance - amount) as u64, ..m }),
        }
    }
}

/// The decision on adding a manager; on success the manager is appended
/// to the accounted-for vault.
pub open spec fn add_manager_decision(v: SecureVault, performer: Pubkey, m: Pubkey, now: i64) -> Result<(), VaultError> {
    if context_check(v, OperationType::AddManager, performer, None, now) is Err {
        Err(context_check(v, OperationType::AddManager, performer, None, now)->Err_0)
    } else if add_manager_check(v, m) is Err {
        add_manager_check(v, m)
    } else if measured(v, now) is None {
        Err(VaultError::ArithmeticOverflow)
    } else {
        Ok(())
    }
}

pub open spec fn remove_manager_decision(v: SecureVault, performer: Pubkey, m: Pubkey, now: i64) -> Result<(), VaultError> {
    if context_check(v, OperationType::RemoveManager, performer, None, now) is Err {
        Err(context_check(v, OperationType::RemoveManager, performer, None, now)->Err_0)
    } else if !v.managers@.contains(m) {
        Err(VaultError::ManagerNotFound)
    } else if measured(v, now) is None {
        Err(VaultError::ArithmeticOverflow)
    } else {
        Ok(())
    }
}

/// `v1` is `v0` as the outcome says, or unchanged on failure.
pub open spec fn follows(v0: SecureVault, v1: SecureVault, outcome: Result<SecureVault, VaultError>, r: Result<(), VaultError>) -> bool {
    match outcome {
        Ok(v) => r is Ok && v1 == v,
        Err(e) => r == Err::<(), VaultError>(e) && v1 == v0,
    }
}

/// Operations that may wait behind a time-lock.
pub open spec fn timelockable(op: OperationType) -> bool {
    match op {
        OperationType::Withdraw
        | OperationType::EmergencyWithdraw
        | OperationType::AddManager
        | OperationType::RemoveManager
        | OperationType::TransferAdmin => true,
        _ => false,
    }
}

/// The amount the admission checks see for an operation of kind `op`.
pub open spec fn gated_amount(op: OperationType, amount: u64) -> Option<u64> {
    if moves_funds(op) {
        Some(amount)
    } else {
        None
    }
}

/// The delay actually applied: the larger of the requested and the policy's.
pub open spec fn effective_delay(v: SecureVault, op: OperationType, amount: u64, requested: i64) -> i64 {
    let p = policy_delay(v, op, Some(amount));
    if requested >= p {
        requested
    } else {
        p
    }
}

pub open spec fn create_decision(
    v: SecureVault,
    performer: Pubkey,
    op: OperationType,
    amount: u64,
    delay_seconds: i64,
    now: i64,
) -> Result<(), VaultError> {
    if context_check(v, op, performer, gated_amount(op, amount), now) is Err {
        Err(context_check(v, op, performer, gated_amount(op, amount), now)->Err_0)
    } else if !timelockable(op) {
        Err(VaultError::InvalidOperationType)
    } else if delay_seconds < 0 {
        Err(VaultError::InvalidTimestamp)
    } else if now + effective_delay(v, op, amount, delay_seconds) > i64::MAX {
        Err(VaultError::ArithmeticOverflow)
    } else if measured(v, now) is None {
        Err(VaultError::ArithmeticOverflow)
    } else {
        Ok(())
    }
}

/// The signatures a new operation starts with: the performer's own, when
/// the performer is a required signer.
pub open spec fn initial_signatures(v: SecureVault, performer: Pubkey) -> Seq<Pubkey> {
    if required_signers(v).contains(performer) {
        seq![performer]
    } else {
        Seq::empty()
    }
}

pub open spec fn sign_decision(op: PendingOperation, signer: Pubkey, now: i64) -> Result<(), VaultError> {
    if pending_check(op, now) is Err {
        pending_check(op, now)
    } else if signature_check(op, signer) is Some {
        Err(signature_check(op, signer)->Some_0)
    } else {
        Ok(())
    }
}

pub open spec fn cancel_decision(v: SecureVault, op: PendingOperation, performer: Pubkey) -> Result<(), VaultError> {
    if performer != v.admin && performer != op.performer {
        Err(VaultError::Unauthorized)
    } else if op.status == OperationStatus::Executed {
        Err(VaultError::OperationAlreadyExecuted)
    } else if op.status != OperationStatus::Pending {
        Err(VaultError::OperationCancelled)
    } else {
        Ok(())
    }
}

/// What the operation itself asks of the vault at execution.
pub open spec fn effect_check(v: SecureVault, op: PendingOperation, now: i64) -> Result<(), VaultError> {
    match op.operation_type {
        OperationType::Withdraw => withdraw_check(v, op.amount, now),
        OperationType::EmergencyWithdraw => if op.amount > v.total_balance {
            Err(VaultError::InsufficientBalance)
        } else {
            Ok(())
        },
        OperationType::AddManager => if v.is_paused {
            Err(VaultError::EmergencyModeActive)
        } else {
            add_manager_check(v, op.target_account)
        },
        OperationType::RemoveManager => if v.is_paused {
            Err(VaultError::EmergencyModeActive)
        } else if !v.managers@.contains(op.target_account) {
            Err(VaultError::ManagerNotFound)
        } else {
            Ok(())
        },
        OperationType::TransferAdmin => if v.is_paused {
            Err(VaultError::EmergencyModeActive)
        } else if op.target_account.bytes@ == Seq::new(32, |i: int| 0u8) {
            Err(VaultError::InvalidPubkey)
        } else if v.managers@.contains(op.target_account) {
            Err(VaultError::AdminCannotBeManager)
        } else {
            Ok(())
        },
        _ => Err(VaultError::InvalidOperationType),
    }
}

/// Execution: the operation must be live and ready (time-lock elapsed and
/// all signatures in), then its effect must be possible.
pub open spec fn execute_decision(v: SecureVault, op: PendingOperation, now: i64) -> Result<(), VaultError> {
    if ready_check(op, now) is Err {
        ready_check(op, now)
    } else if effect_check(v, op, now) is Err {
        effect_check(v, op, now)
    } else if measured(v, now) is None {
        Err(VaultError::ArithmeticOverflow)
    } else {
        Ok(())
    }
}

/// The vault after a successful execution of `op`, for the operations whose
/// effect leaves the manager list alone.
pub open spec fn executed_vault(m: SecureVault, op: PendingOperation) -> SecureVault {
    match op.operation_type {
        OperationType::Withdraw => SecureVault {
            total_balance: (m.total_balance - op.amount) as u64,
            daily_withdrawn_amount: (m.daily_withdrawn_amount + op.amount) as u64,
            ..m
        },
        OperationType::EmergencyWithdraw => SecureVault { total_balance: (m.total_balance - op.amount) as u64, ..m },
        OperationType::TransferAdmin => SecureVault { admin: op.target_account, ..m },
        _ => m,
    }
}

pub struct Processor;

impl Processor {
    /// A new vault of `admin` with the given policy and signature quorum.
    pub fn process_initialize_vault(
        admin: Pubkey,
        config: SecurityConfig,
        min_signatures_required: u8,
        current_timestamp: i64,
    ) -> (r: Result<SecureVault, VaultError>)
        ensures
            admin.bytes@ == Seq::new(32, |i: int| 0u8) ==> r == Err::<SecureVault, VaultError>(VaultError::InvalidPubkey),
            admin.bytes@ != Seq::new(32, |i: int| 0u8) && (!config_is_sane(config) || min_signatures_required == 0)
                ==> r == Err::<SecureVault, VaultError>(VaultError::InvalidSecurityConfig),
            admin.bytes@ != Seq::new(32, |i: int| 0u8) && config_is_sane(config) && min_signatures_required > 0 ==> r is Ok,
            r is Ok ==> {
                let v = r->Ok_0;
                &&& v.wf()
                &&& v.admin == admin
                &&& v.config == config
                &&& v.min_signatures_required == min_signatures_required
                &&& v.managers@.len() == 0
                &&& v.emergency_contacts@.len() == 0
                &&& v.total_balance == 0
                &&& !v.is_paused
                &&& v.operation_count == 0
                &&& v.created_at == current_timestamp
                &&& v.last_operation_timestamp == current_timestamp
                &&& v.daily_withdrawal_limit == u64::MAX
                &&& v.discriminator@ == crate::state::vault_tag()
            },
    {
        let checked = Validator::validate_vault_initialization(&admin, &config);
        match checked {
            Err(e) => Err(e),
            Ok(()) => {
                if min_signatures_required == 0 {
                    return Err(VaultError::InvalidSecurityConfig);
                }
                let mut v = SecureVault::new(admin, current_timestamp);
                v.config = config;
                v.min_signatures_required = min_signatures_required;
                Ok(v)
            },
        }
    }

    pub fn process_deposit(
        vault: &mut SecureVault,
        trail: &mut AuditTrail,
        performer: Pubkey,
        amount: u64,
        current_timestamp: i64,
    ) -> (r: Result<(), VaultError>)
        requires
            ready_to_record(*old(vault), *old(trail)),
        ensures
            follows(*old(vault), *final(vault), deposit_outcome(*old(vault), performer, amount, current_timestamp), r),
            final(vault).wf(),
            appended(*old(trail), *final(trail), entry_for(old(trail).next_operation_id, OperationType::Deposit, performer, current_timestamp, Some(amount), None, r)),
    {
        let r = Self::deposit_effect(vault, performer, amount, current_timestamp);
        trail.record(OperationType::Deposit, performer, current_timestamp, Some(amount), None, r);
        r
    }

    fn deposit_effect(vault: &mut SecureVault, performer: Pubkey, amount: u64, now: i64) -> (r: Result<(), VaultError>)
        requires
            old(vault).wf(),
        ensures
            follows(*old(vault), *final(vault), deposit_outcome(*old(vault), performer, amount, now), r),
            final(vault).wf(),
    {
        let admission = Validator::validate_operation_context(vault, &OperationType::Deposit, &performer, Some(amount), now);
        if let Err(e) = admission {
            return Err(e);
        }
        let balance = match vault.total_balance.checked_add(amount) {
            Some(b) => b,
            None => {
                return Err(VaultError::ArithmeticOverflow);
            },
        };
        let measures = SecurityManager::apply_security_measures(vault, &OperationType::Deposit, now, false);
        if let Err(e) = measures {
            return Err(e);
        }
        vault.total_balance = balance;
        Ok(())
    }

    pub fn process_withdraw(
        vault: &mut SecureVault,
        trail: &mut AuditTrail,
        performer: Pubkey,
        amount: u64,
        recipient: Pubkey,
        current_timestamp: i64,
    ) -> (r: Result<(), VaultError>)
        requires
            ready_to_record(*old(vault), *old(trail)),
        ensures
            follows(*old(vault), *final(vault), withdraw_outcome(*old(vault), performer, amount, current_timestamp), r),
            final(vault).wf(),
            appended(*old(trail), *final(trail), entry_for(old(trail).next_operation_id, OperationType::Withdraw, performer, current_timestamp, Some(amount), Some(recipient), r)),
    {
        let r = Self::withdraw_effect(vault, performer, amount, current_timestamp);
        trail.record(OperationType::Withdraw, performer, current_timestamp, Some(amount), Some(recipient), r);
        r
    }

    fn withdraw_effect(vault: &mut SecureVault, performer: Pubkey, amount: u64, now: i64) -> (r: Result<(), VaultError>)
        requires
            old(vault).wf(),
        ensures
            follows(*old(vault), *final(vault), withdraw_outcome(*old(vault), performer, amount, now), r),
            final(vault).wf(),
    {
        let limit = Validator::validate_daily_limits(vault, amount, now);
        if let Err(e) = limit {
            return Err(e);
        }
        let admission = Validator::validate_operation_context(vault, &OperationType::Withdraw, &performer, Some(amount), now);
        if let Err(e) = admission {
            return Err(e);
        }
        if SecurityManager::requires_multisig(vault, &OperationType::Withdraw, Some(amount)) {
            return Err(VaultError::InsufficientSignatures);
        }
        if amount > vault.total_balance {
            return Err(VaultError::InsufficientBalance);
        }
        let measures = SecurityManager::apply_security_measures(vault, &OperationType::Withdraw, now, false);
        if let Err(e) = measures {
            return Err(e);
        }
        vault.total_balance = vault.total_balance - amount;
        vault.daily_withdrawn_amount = vault.daily_withdrawn_amount + amount;
        Ok(())
    }

    pub fn process_emergency_pause(
        vault: &mut SecureVault,
        trail: &mut AuditTrail,
        performer: Pubkey,
        current_timestamp: i64,
    ) -> (r: Result<(), VaultError>)
        requires
            ready_to_record(*old(vault), *old(trail)),
        ensures
            follows(*old(vault), *final(vault), pause_outcome(*old(vault), performer, current_timestamp), r),
            final(vault).wf(),
            appended(*old(trail), *final(trail), entry_for(old(trail).next_operation_id, OperationType::EmergencyPause, performer, current_timestamp, None, None, r)),
    {
        let r = Self::pause_effect(vault, performer, current_timestamp);
        trail.record(OperationType::EmergencyPause, performer, current_timestamp, None, None, r);
        r
    }

    fn pause_effect(vault: &mut SecureVault, performer: Pubkey, now: i64) -> (r: Result<(), VaultError>)
        requires
            old(vault).wf(),
        ensures
            follows(*old(vault), *final(vault), pause_outcome(*old(vault), performer, now), r),
            final(vault).wf(),
    {
        let admission = Validator::validate_operation_context(vault, &OperationType::EmergencyPause, &performer, None, now);
        if let Err(e) = admission {
            return Err(e);
        }
        let measures = SecurityManager::apply_security_measures(vault, &OperationType::EmergencyPause, now, false);
        if let Err(e) = measures {
            return Err(e);
        }
        vault.is_paused = true;
        Ok(())
    }

    pub fn process_resume(
        vault: &mut SecureVault,
        trail: &mut AuditTrail,
        performer: Pubkey,
        current_timestamp: i64,
    ) -> (r: Result<(), VaultError>)
        requires
            ready_to_record(*old(vault), *old(trail)),
        ensures
            follows(*old(vault), *final(vault), resume_outcome(*old(vault), performer, current_timestamp), r),
            final(vault).wf(),
            appended(*old(trail), *final(trail), entry_for(old(trail).next_operation_id, OperationType::Resume, performer, current_timestamp, None, None, r)),
    {
        let r = Self::resume_effect(vault, performer, current_timestamp);
        trail.record(OperationType::Resume, performer, current_timestamp, None, None, r);
        r
    }

    fn resume_effect(vault: &mut SecureVault, performer: Pubkey, now: i64) -> (r: Result<(), VaultError>)
        requires
            old(vault).wf(),
        ensures
            follows(*old(vault), *final(vault), resume_outcome(*old(vault), performer, now), r),
            final(vault).wf(),
    {
        let admission = Validator::validate_operation_context(vault, &OperationType::Resume, &performer, None, now);
        if let Err(e) = admission {
            return Err(e);
        }
        if !vault.is_paused {
            return Err(VaultError::InvalidOperationStatus);
        }
        let measures = SecurityManager::apply_security_measures(vault, &OperationType::Resume, now, false);
        if let Err(e) = measures {
            return Err(e);
        }
        vault.is_paused = false;
        Ok(())
    }

    pub fn process_update_config(
        vault: &mut SecureVault,
        trail: &mut AuditTrail,
        performer: Pubkey,
        new_config: SecurityConfig,
        current_timestamp: i64,
    ) -> (r: Result<(), VaultError>)
        requires
            ready_to_record(*old(vault), *old(trail)),
        ensures
            follows(*old(vault), *final(vault), update_config_outcome(*old(vault), performer, new_config, current_timestamp), r),
            final(vault).wf(),
            appended(*old(trail), *final(trail), entry_for(old(trail).next_operation_id, OperationType::UpdateConfig, performer, current_timestamp, None, None, r)),
    {
        let r = Self::update_config_effect(vault, performer, new_config, current_timestamp);
        trail.record(OperationType::UpdateConfig, performer, current_timestamp, None, None, r);
        r
    }

    fn update_config_effect(vault: &mut SecureVault, performer: Pubkey, new_config: SecurityConfig, now: i64) -> (r: Result<(), VaultError>)
        requires
            old(vault).wf(),
        ensures
            follows(*old(vault), *final(vault), update_config_outcome(*old(vault), performer, new_config, now), r),
            final(vault).wf(),
    {
        let admission = Validator::validate_operation_context(vault, &OperationType::UpdateConfig, &performer, None, now);
        if let Err(e) = admission {
            return Err(e);
        }
        if !new_config.is_valid() || vault.managers.len() > new_config.max_managers as usize {
            return Err(VaultError::InvalidSecurityConfig);
        }
        let measures = SecurityManager::apply_security_measures(vault, &OperationType::UpdateConfig, now, false);
        if let Err(e) = measures {
            return Err(e);
        }
        vault.config = new_config;
        Ok(())
    }

    pub fn process_transfer_admin(
        vault: &mut SecureVault,
        trail: &mut AuditTrail,
        performer: Pubkey,
        new_admin: Pubkey,
        current_timestamp: i64,
    ) -> (r: Result<(), VaultError>)
        requires
            ready_to_record(*old(vault), *old(trail)),
        ensures
            follows(*old(vault), *final(vault), transfer_admin_outcome(*old(vault), performer, new_admin, current_timestamp), r),
            final(vault).wf(),
            appended(*old(trail), *final(trail), entry_for(old(trail).next_operation_id, OperationType::TransferAdmin, performer, current_timestamp, None, Some(new_admin), r)),
    {
        let r = Self::transfer_admin_effect(vault, performer, new_admin, current_timestamp);
        trail.record(OperationType::TransferAdmin, performer, current_timestamp, None, Some(new_admin), r);
        r
    }

    fn transfer_admin_effect(vault: &mut SecureVault, performer: Pubkey, new_admin: Pubkey, now: i64) -> (r: Result<(), VaultError>)
        requires
            old(vault).wf(),
        ensures
            follows(*old(vault), *final(vault), transfer_admin_outcome(*old(vault), performer, new_admin, now), r),
            final(vault).wf(),
    {
        let admission = Validator::validate_operation_context(vault, &OperationType::TransferAdmin, &performer, None, now);
        if let Err(e) = admission {
            return Err(e);
        }
        let zero = Pubkey::zeroed();
        let is_zero = new_admin.same_as(&zero);
        proof {
            assert(zero.bytes@ =~= Seq::new(32, |i: int| 0u8));
            if !is_zero && new_admin.bytes@ == zero.bytes@ {
                vstd::array::axiom_array_ext_equal(new_admin.bytes, zero.bytes);
            }
        }
        if is_zero {
            return Err(VaultError::InvalidPubkey);
        }
        if contains_key(&vault.managers, &new_admin) {
            return Err(VaultError::AdminCannotBeManager);
        }
        let measures = SecurityManager::apply_security_measures(vault, &OperationType::TransferAdmin, now, false);
        if let Err(e) = measures {
            return Err(e);
        }
        vault.admin = new_admin;
        Ok(())
    }

    pub fn process_emergency_withdraw(
        vault: &mut SecureVault,
        trail: &mut AuditTrail,
        performer: Pubkey,
        amount: u64,
        emergency_recipient: Pubkey,
        current_timestamp: i64,
    ) -> (r: Result<(), VaultError>)
        requires
            ready_to_record(*old(vault), *old(trail)),
        ensures
            follows(*old(vault), *final(vault), emergency_withdraw_outcome(*old(vault), performer, amount, current_timestamp), r),
            final(vault).wf(),
            appended(*old(trail), *final(trail), entry_for(old(trail).next_operation_id, OperationType::EmergencyWithdraw, performer, current_timestamp, Some(amount), Some(emergency_recipient), r)),
    {
        let r = Self::emergency_withdraw_effect(vault, performer, amount, current_timestamp);
        trail.record(OperationType::EmergencyWithdraw, performer, current_timestamp, Some(amount), Some(emergency_recipient), r);
        r
    }

    fn emergency_withdraw_effect(vault: &mut SecureVault, performer: Pubkey, amount: u64, now: i64) -> (r: Result<(), VaultError>)
        requires
            old(vault).wf(),
        ensures
            follows(*old(vault), *final(vault), emergency_withdraw_outcome(*old(vault), performer, amount, now), r),
            final(vault).wf(),
    {
        let admission = Validator::validate_operation_context(vault, &OperationType::EmergencyWithdraw, &performer, Some(amount), now);
        if let Err(e) = admission {
            return Err(e);
        }
        if amount > vault.total_balance {
            return Err(VaultError::InsufficientBalance);
        }
        let measures = SecurityManager::apply_security_measures(vault, &OperationType::EmergencyWithdraw, now, false);
        if let Err(e) = measures {
            return Err(e);
        }
        vault.total_balance = vault.total_balance - amount;
        Ok(())
    }
    pub fn process_add_manager(
        vault: &mut SecureVault,
        trail: &mut AuditTrail,
        performer: Pubkey,
        new_manager: Pubkey,
        current_timestamp: i64,
    ) -> (r: Result<(), VaultError>)
        requires
            ready_to_record(*old(vault), *old(trail)),
        ensures
            r == add_manager_decision(*old(vault), performer, new_manager, current_timestamp),
            r is Ok ==> *final(vault) == (SecureVault { managers: final(vault).managers, ..measured(*old(vault), current_timestamp)->Some_0 })
                && final(vault).managers@ == old(vault).managers@.push(new_manager),
            r is Err ==> *final(vault) == *old(vault),
            final(vault).wf(),
            appended(*old(trail), *final(trail), entry_for(old(trail).next_operation_id, OperationType::AddManager, performer, current_timestamp, None, Some(new_manager), r)),
    {
        let r = Self::add_manager_effect(vault, performer, new_manager, current_timestamp);
        trail.record(OperationType::AddManager, performer, current_timestamp, None, Some(new_manager), r);
        r
    }

    fn add_manager_effect(vault: &mut SecureVault, performer: Pubkey, new_manager: Pubkey, now: i64) -> (r: Result<(), VaultError>)
        requires
            old(vault).wf(),
        ensures
            r == add_manager_decision(*old(vault), performer, new_manager, now),
            r is Ok ==> *final(vault) == (SecureVault { managers: final(vault).managers, ..measured(*old(vault), now)->Some_0 })
                && final(vault).managers@ == old(vault).managers@.push(new_manager),
            r is Err ==> *final(vault) == *old(vault),
            final(vault).wf(),
    {
        let admission = Validator::validate_operation_context(vault, &OperationType::AddManager, &performer, None, now);
        if let Err(e) = admission {
            return Err(e);
        }
        if vault.managers.len() >= crate::state::MAX_MANAGER || vault.managers.len() >= vault.config.max_managers as usize {
            return Err(VaultError::MaxManagersReached);
        }
        if contains_key(&vault.managers, &new_manager) {
            return Err(VaultError::ManagerAlreadyExists);
        }
        if new_manager.same_as(&vault.admin) {
            return Err(VaultError::AdminCannotBeManager);
        }
        let measures = SecurityManager::apply_security_measures(vault, &OperationType::AddManager, now, false);
        if let Err(e) = measures {
            return Err(e);
        }
        let added = vault.add_manager(new_manager);
        assert(added is Ok);
        Ok(())
    }

    pub fn process_remove_manager(
        vault: &mut SecureVault,
        trail: &mut AuditTrail,
        performer: Pubkey,
        manager_to_remove: Pubkey,
        current_timestamp: i64,
    ) -> (r: Result<(), VaultError>)
        requires
            ready_to_record(*old(vault), *old(trail)),
        ensures
            r == remove_manager_decision(*old(vault), performer, manager_to_remove, current_timestamp),
            r is Ok ==> *final(vault) == (SecureVault { managers: final(vault).managers, ..measured(*old(vault), current_timestamp)->Some_0 })
                && exists|i: int| 0 <= i < old(vault).managers@.len() && old(vault).managers@[i] == manager_to_remove
                    && final(vault).managers@ == old(vault).managers@.remove(i),
            r is Ok ==> !final(vault).managers@.contains(manager_to_remove),
            r is Err ==> *final(vault) == *old(vault),
            final(vault).wf(),
            appended(*old(trail), *final(trail), entry_for(old(trail).next_operation_id, OperationType::RemoveManager, performer, current_timestamp, None, Some(manager_to_remove), r)),
    {
        let r = Self::remove_manager_effect(vault, performer, manager_to_remove, current_timestamp);
        trail.record(OperationType::RemoveManager, performer, current_timestamp, None, Some(manager_to_remove), r);
        r
    }

    fn remove_manager_effect(vault: &mut SecureVault, performer: Pubkey, manager_to_remove: Pubkey, now: i64) -> (r: Result<(), VaultError>)
        requires
            old(vault).wf(),
        ensures
            r == remove_manager_decision(*old(vault), performer, manager_to_remove, now),
            r is Ok ==> *final(vault) == (SecureVault { managers: final(vault).managers, ..measured(*old(vault), now)->Some_0 })
                && exists|i: int| 0 <= i < old(vault).managers@.len() && old(vault).managers@[i] == manager_to_remove
                    && final(vault).managers@ == old(vault).managers@.remove(i),
            r is Ok ==> !final(vault).managers@.contains(manager_to_remove),
            r is Err ==> *final(vault) == *old(vault),
            final(vault).wf(),
    {
        let admission = Validator::validate_operation_context(vault, &OperationType::RemoveManager, &performer, None, now);
        if let Err(e) = admission {
            return Err(e);
        }
        if !contains_key(&vault.managers, &manager_to_remove) {
            return Err(VaultError::ManagerNotFound);
        }
        let measures = SecurityManager::apply_security_measures(vault, &OperationType::RemoveManager, now, false);
        if let Err(e) = measures {
            return Err(e);
        }
        let removed = vault.remove_manager(manager_to_remove);
        assert(removed is Ok);
        Ok(())
    }

    /// Creates a time-locked operation: the admission checks and the policy are checked,
    /// the id is the vault's operation count, the required signers are the
    /// admin and the first managers, the performer's own signature is
    /// recorded when required, and the operation may run after the larger of
    /// the requested and the policy delay.
    pub fn process_create_timelock_operation(
        vault: &mut SecureVault,
        trail: &mut AuditTrail,
        performer: Pubkey,
        operation_type: OperationType,
        amount: u64,
        target_account: Pubkey,
        delay_seconds: i64,
        current_timestamp: i64,
    ) -> (r: Result<PendingOperation, VaultError>)
        requires
            ready_to_record(*old(vault), *old(trail)),
        ensures
            match create_decision(*old(vault), performer, operation_type, amount, delay_seconds, current_timestamp) {
                Err(e) => r == Err::<PendingOperation, VaultError>(e) && *final(vault) == *old(vault),
                Ok(_) => r is Ok && *final(vault) == measured(*old(vault), current_timestamp)->Some_0,
            },
            r is Ok ==> {
                let op = r->Ok_0;
                &&& op.id == old(vault).operation_count
                &&& op.operation_type == operation_type
                &&& op.performer == performer
                &&& op.amount == amount
                &&& op.target_account == target_account
                &&& op.scheduled_execution == current_timestamp + effective_delay(*old(vault), operation_type, amount, delay_seconds)
                &&& op.required_signatures@ == required_signers(*old(vault))
                &&& op.received_signatures@ == initial_signatures(*old(vault), performer)
                &&& op.created_at == current_timestamp
                &&& op.status == OperationStatus::Pending
                &&& op.bump == 0
                &&& op.wf()
            },
            final(vault).wf(),
            appended(*old(trail), *final(trail), entry_for(old(trail).next_operation_id, operation_type, performer, current_timestamp, Some(amount), Some(target_account), match r { Ok(_) => Ok(()), Err(e) => Err(e) })),
    {
        let r = Self::create_effect(vault, performer, operation_type, amount, target_account, delay_seconds, current_timestamp);
        let outcome: Result<(), VaultError> = match &r {
            Ok(_) => Ok(()),
            Err(e) => Err(*e),
        };
        trail.record(operation_type, performer, current_timestamp, Some(amount), Some(target_account), outcome);
        r
    }

    fn create_effect(
        vault: &mut SecureVault,
        performer: Pubkey,
        operation_type: OperationType,
        amount: u64,
        target_account: Pubkey,
        delay_seconds: i64,
        now: i64,
    ) -> (r: Result<PendingOperation, VaultError>)
        requires
            old(vault).wf(),
        ensures
            match create_decision(*old(vault), performer, operation_type, amount, delay_seconds, now) {
                Err(e) => r == Err::<PendingOperation, VaultError>(e) && *final(vault) == *old(vault),
                Ok(_) => r is Ok && *final(vault) == measured(*old(vault), now)->Some_0,
            },
            r is Ok ==> {
                let op = r->Ok_0;
                &&& op.id == old(vault).operation_count
                &&& op.operation_type == operation_type
                &&& op.performer == performer
                &&& op.amount == amount
                &&& op.target_account == target_account
                &&& op.scheduled_execution == now + effective_delay(*old(vault), operation_type, amount, delay_seconds)
                &&& op.required_signatures@ == required_signers(*old(vault))
                &&& op.received_signatures@ == initial_signatures(*old(vault), performer)
                &&& op.created_at == now
                &&& op.status == OperationStatus::Pending
                &&& op.bump == 0
                &&& op.wf()
            },
            final(vault).wf(),
    {
        let gated: Option<u64> = match operation_type {
            OperationType::Deposit | OperationType::Withdraw | OperationType::EmergencyWithdraw => Some(amount),
            _ => None,
        };
        let admission = Validator::validate_operation_context(vault, &operation_type, &performer, gated, now);
        if let Err(e) = admission {
            return Err(e);
        }
        match operation_type {
            OperationType::Withdraw
            | OperationType::EmergencyWithdraw
            | OperationType::AddManager
            | OperationType::RemoveManager
            | OperationType::TransferAdmin => {},
            _ => {
                return Err(VaultError::InvalidOperationType);
            },
        }
        if delay_seconds < 0 {
            return Err(VaultError::InvalidTimestamp);
        }
        let policy = SecurityManager::calculate_required_delay(vault, &operation_type, Some(amount));
        let delay = if delay_seconds >= policy { delay_seconds } else { policy };
        let scheduled = match now.checked_add(delay) {
            Some(t) => t,
            None => {
                return Err(VaultError::ArithmeticOverflow);
            },
        };
        let required = SecurityManager::get_required_signers(vault, &operation_type, Some(amount));
        let performer_required = contains_key(&required, &performer);
        let id = crate::utils::Utils::generate_operation_id(vault, &performer, now);
        let measures = SecurityManager::apply_security_measures(vault, &operation_type, now, false);
        if let Err(e) = measures {
            return Err(e);
        }
        let mut op = PendingOperation::new(id, operation_type, performer, amount, target_account, delay, required, now);
        if performer_required {
            let signed = op.add_signature(performer);
            assert(signed);
            assert(op.received_signatures@ =~= seq![performer]);
        }
        assert(op.scheduled_execution == scheduled);
        Ok(op)
    }

    /// Records a signature on a live operation; a repeated or unrequired
    /// signer is refused and nothing changes.
    pub fn process_sign_pending_operation(
        operation: &mut PendingOperation,
        trail: &mut AuditTrail,
        signer: Pubkey,
        current_timestamp: i64,
    ) -> (r: Result<(), VaultError>)
        requires
            old(operation).wf(),
            old(trail).wf(),
            old(trail).next_operation_id < u64::MAX,
        ensures
            r == sign_decision(*old(operation), signer, current_timestamp),
            r is Ok ==> *final(operation) == (PendingOperation { received_signatures: final(operation).received_signatures, ..*old(operation) })
                && final(operation).received_signatures@ == old(operation).received_signatures@.push(signer),
            r is Err ==> *final(operation) == *old(operation),
            final(operation).wf(),
            appended(*old(trail), *final(trail), entry_for(old(trail).next_operation_id, old(operation).operation_type, signer, current_timestamp, Some(old(operation).amount), Some(old(operation).target_account), r)),
    {
        let op_type = operation.operation_type;
        let amount = operation.amount;
        let target = operation.target_account;
        let r = Self::sign_effect(operation, signer, current_timestamp);
        trail.record(op_type, signer, current_timestamp, Some(amount), Some(target), r);
        r
    }

    fn sign_effect(operation: &mut PendingOperation, signer: Pubkey, now: i64) -> (r: Result<(), VaultError>)
        requires
            old(operation).wf(),
        ensures
            r == sign_decision(*old(operation), signer, now),
            r is Ok ==> *final(operation) == (PendingOperation { received_signatures: final(operation).received_signatures, ..*old(operation) })
                && final(operation).received_signatures@ == old(operation).received_signatures@.push(signer),
            r is Err ==> *final(operation) == *old(operation),
            final(operation).wf(),
    {
        let live = Validator::validate_pending_operation(operation, now);
        if let Err(e) = live {
            return Err(e);
        }
        if contains_key(&operation.received_signatures, &signer) {
            return Err(VaultError::AlreadySigned);
        }
        if !contains_key(&operation.required_signatures, &signer) {
            return Err(VaultError::Unauthorized);
        }
        let added = operation.add_signature(signer);
        assert(added);
        Ok(())
    }

    /// Cancels a live or expired operation; only the admin or the operation's
    /// performer may, and never after execution.
    pub fn process_cancel_pending_operation(
        vault: &SecureVault,
        operation: &mut PendingOperation,
        trail: &mut AuditTrail,
        performer: Pubkey,
        current_timestamp: i64,
    ) -> (r: Result<(), VaultError>)
        requires
            old(trail).wf(),
            old(trail).next_operation_id < u64::MAX,
        ensures
            r == cancel_decision(*vault, *old(operation), performer),
            r is Ok ==> *final(operation) == (PendingOperation { status: OperationStatus::Rejected, ..*old(operation) }),
            r is Err ==> *final(operation) == *old(operation),
            appended(*old(trail), *final(trail), entry_for(old(trail).next_operation_id, old(operation).operation_type, performer, current_timestamp, Some(old(operation).amount), Some(old(operation).target_account), r)),
    {
        let op_type = operation.operation_type;
        let amount = operation.amount;
        let target = operation.target_account;
        let r = if !vault.admin.same_as(&performer) && !operation.performer.same_as(&performer) {
            Err(VaultError::Unauthorized)
        } else {
            match operation.status {
                OperationStatus::Executed => Err(VaultError::OperationAlreadyExecuted),
                OperationStatus::Pending => {
                    operation.status = OperationStatus::Rejected;
                    Ok(())
                },
                _ => Err(VaultError::OperationCancelled),
            }
        };
        trail.record(op_type, performer, current_timestamp, Some(amount), Some(target), r);
        r
    }

    /// Executes a ready operation: all-or-nothing; on success the effect is
    /// applied to the vault and the operation becomes `Executed`.
    pub fn process_execute_pending_operation(
        vault: &mut SecureVault,
        operation: &mut PendingOperation,
        trail: &mut AuditTrail,
        performer: Pubkey,
        current_timestamp: i64,
    ) -> (r: Result<(), VaultError>)
        requires
            ready_to_record(*old(vault), *old(trail)),
            old(operation).wf(),
        ensures
            r == execute_decision(*old(vault), *old(operation), current_timestamp),
            r is Ok ==> *final(operation) == (PendingOperation { status: OperationStatus::Executed, ..*old(operation) }),
            r is Ok ==> {
                let m = measured(*old(vault), current_timestamp)->Some_0;
                match old(operation).operation_type {
                    OperationType::AddManager => *final(vault) == (SecureVault { managers: final(vault).managers, ..m })
                        && final(vault).managers@ == old(vault).managers@.push(old(operation).target_account),
                    OperationType::RemoveManager => *final(vault) == (SecureVault { managers: final(vault).managers, ..m })
                        && !final(vault).managers@.contains(old(operation).target_account)
                        && exists|i: int| 0 <= i < old(vault).managers@.len() && old(vault).managers@[i] == old(operation).target_account
                            && final(vault).managers@ == old(vault).managers@.remove(i),
                    _ => *final(vault) == executed_vault(m, *old(operation)),
                }
            },
            r is Err ==> *final(vault) == *old(vault) && *final(operation) == *old(operation),
            final(vault).wf(),
            final(operation).wf(),
            appended(*old(trail), *final(trail), entry_for(old(trail).next_operation_id, old(operation).operation_type, performer, current_timestamp, Some(old(operation).amount), Some(old(operation).target_account), r)),
    {
        let op_type = operation.operation_type;
        let amount = operation.amount;
        let target = operation.target_account;
        let r = Self::execute_effect(vault, operation, current_timestamp);
        trail.record(op_type, performer, current_timestamp, Some(amount), Some(target), r);
        r
    }

    fn execute_effect(vault: &mut SecureVault, operation: &mut PendingOperation, now: i64) -> (r: Result<(), VaultError>)
        requires
            old(vault).wf(),
            old(operation).wf(),
        ensures
            r == execute_decision(*old(vault), *old(operation), now),
            r is Ok ==> *final(operation) == (PendingOperation { status: OperationStatus::Executed, ..*old(operation) }),
            r is Ok ==> {
                let m = measured(*old(vault), now)->Some_0;
                match old(operation).operation_type {
                    OperationType::AddManager => *final(vault) == (SecureVault { managers: final(vault).managers, ..m })
                        && final(vault).managers@ == old(vault).managers@.push(old(operation).target_account),
                    OperationType::RemoveManager => *final(vault) == (SecureVault { managers: final(vault).managers, ..m })
                        && !final(vault).managers@.contains(old(operation).target_account)
                        && exists|i: int| 0 <= i < old(vault).managers@.len() && old(vault).managers@[i] == old(operation).target_account
                            && final(vault).managers@ == old(vault).managers@.remove(i),
                    _ => *final(vault) == executed_vault(m, *old(operation)),
                }
            },
            r is Err ==> *final(vault) == *old(vault) && *final(operation) == *old(operation),
            final(vault).wf(),
            final(operation).wf(),
    {
        let ready = Validator::validate_ready_to_execute(operation, now);
        if let Err(e) = ready {
            return Err(e);
        }
        let target = operation.target_account;
        let amount = operation.amount;
        match operation.operation_type {
            OperationType::Withdraw => {
                let ok = vault.can_withdraw(amount, now);
                if let Err(e) = ok {
                    return Err(e);
                }
            },
            OperationType::EmergencyWithdraw => {
                if amount > vault.total_balance {
                    return Err(VaultError::InsufficientBalance);
                }
            },
            OperationType::AddManager => {
                if vault.is_paused {
                    return Err(VaultError::EmergencyModeActive);
                }
                if vault.managers.len() >= crate::state::MAX_MANAGER || vault.managers.len() >= vault.config.max_managers as usize {
                    return Err(VaultError::MaxManagersReached);
                }
                if contains_key(&vault.managers, &target) {
                    return Err(VaultError::ManagerAlreadyExists);
                }
                if target.same_as(&vault.admin) {
                    return Err(VaultError::AdminCannotBeManager);
                }
            },
            OperationType::RemoveManager => {
                if vault.is_paused {
                    return Err(VaultError::EmergencyModeActive);
                }
                if !contains_key(&vault.managers, &target) {
                    return Err(VaultError::ManagerNotFound);
                }
            },
            OperationType::TransferAdmin => {
                if vault.is_paused {
                    return Err(VaultError::EmergencyModeActive);
                }
                let zero = Pubkey::zeroed();
                let is_zero = target.same_as(&zero);
                proof {
                    assert(zero.bytes@ =~= Seq::new(32, |i: int| 0u8));
                    if !is_zero && target.bytes@ == zero.bytes@ {
                        vstd::array::axiom_array_ext_equal(target.bytes, zero.bytes);
                    }
                }
                if is_zero {
                    return Err(VaultError::InvalidPubkey);
                }
                if contains_key(&vault.managers, &target) {
                    return Err(VaultError::AdminCannotBeManager);
                }
            },
            _ => {
                return Err(VaultError::InvalidOperationType);
            },
        }
        let measures = SecurityManager::apply_security_measures(vault, &operation.operation_type, now, false);
        if let Err(e) = measures {
            return Err(e);
        }
        match operation.operation_type {
            OperationType::Withdraw => {
                vault.total_balance = vault.total_balance - amount;
                vault.daily_withdrawn_amount = vault.daily_withdrawn_amount + amount;
            },
            OperationType::EmergencyWithdraw => {
                vault.total_balance = vault.total_balance - amount;
            },
            OperationType::AddManager => {
                let added = vault.add_manager(target);
                assert(added is Ok);
            },
            OperationType::RemoveManager => {
                let removed = vault.remove_manager(target);
                assert(removed is Ok);
            },
            _ => {
                vault.admin = target;
            },
        }
        operation.status = OperationStatus::Executed;
        Ok(())
    }
    /// Screens an intended operation against the vault's audit history.
    /// A suspicious one is refused with `SuspiciousActivity`, recorded as a
    /// failed attempt, and pauses the vault when the policy asks for it; an
    /// unsuspicious one changes nothing and may proceed.
    pub fn process_screening(
        vault: &mut SecureVault,
        trail: &mut AuditTrail,
        performer: Pubkey,
        operation_type: OperationType,
        amount: Option<u64>,
        current_timestamp: i64,
        policy: &AnomalyPolicy,
    ) -> (r: Result<(), VaultError>)
        requires
            ready_to_record(*old(vault), *old(trail)),
        ensures
            r is Err <==> suspicious(old(trail).entries@, operation_type, performer, amount, current_timestamp, *policy),
            r is Ok ==> *final(vault) == *old(vault) && *final(trail) == *old(trail),
            r is Err ==> r == Err::<(), VaultError>(VaultError::SuspiciousActivity)
                && *final(vault) == (SecureVault {
                    is_paused: old(vault).is_paused || old(vault).config.auto_pause_on_suspicious_activity,
                    ..*old(vault)
                })
                && appended(*old(trail), *final(trail), entry_for(old(trail).next_operation_id, operation_type, performer, current_timestamp, amount, None, r)),
            final(vault).wf(),
    {
        if !SecurityManager::detect_suspicious_activity(&trail.entries, &operation_type, &performer, amount, current_timestamp, policy) {
            return Ok(());
        }
        if vault.config.auto_pause_on_suspicious_activity {
            vault.is_paused = true;
        }
        let r: Result<(), VaultError> = Err(VaultError::SuspiciousActivity);
        trail.record(operation_type, performer, current_timestamp, amount, None, r);
        r
    }
}

} // verus!
