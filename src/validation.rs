use vstd::prelude::*;
use crate::pubkey::{Pubkey, contains_key, all_distinct};
use crate::error::VaultError;
use crate::state::{
    SecureVault, SecurityConfig, PendingOperation, OperationType, OperationStatus, config_is_sane,
    authorized, after_daily_reset, withdraw_check, signatures_complete, expired_at, day_of, day_number,
    OPERATION_EXPIRY_HOURS,
};
use crate::security::{SecurityManager, AnomalyPolicy, rate_check, suspicious};
use crate::state::AuditLog;

verus! {

/// Operations that stay open while the vault is paused.
pub open spec fn allowed_while_paused(op: OperationType) -> bool {
    op == OperationType::Resume || op == OperationType::EmergencyWithdraw
}

/// Emergency actions are never rate limited.
pub open spec fn rate_limited_op(op: OperationType) -> bool {
    !(op == OperationType::EmergencyPause || op == OperationType::Resume || op == OperationType::EmergencyWithdraw)
}

/// Operations that carry an amount.
pub open spec fn moves_funds(op: OperationType) -> bool {
    op == OperationType::Deposit || op == OperationType::Withdraw || op == OperationType::EmergencyWithdraw
}

/// The admission checks of every top-level operation, in order: authorization,
/// pause state, rate limits, and a positive amount where one is moved.
pub open spec fn context_check(v: SecureVault, op: OperationType, performer: Pubkey, amount: Option<u64>, now: i64) -> Result<(), VaultError> {
    if !authorized(v, performer, op) {
        Err(VaultError::Unauthorized)
    } else if v.is_paused && op == OperationType::Withdraw {
        Err(VaultError::VaultPaused)
    } else if v.is_paused && !allowed_while_paused(op) {
        Err(VaultError::EmergencyModeActive)
    } else if rate_limited_op(op) && rate_check(v, now) is Err {
        Err(VaultError::RateLimited)
    } else if moves_funds(op) && (amount is None || amount == Some(0u64)) {
        Err(VaultError::AmountTooSmall)
    } else {
        Ok(())
    }
}

/// Where a pending operation stands before it may be signed or run.
pub open spec fn pending_check(op: PendingOperation, now: i64) -> Result<(), VaultError> {
    if op.status == OperationStatus::Executed {
        Err(VaultError::OperationAlreadyExecuted)
    } else if op.status != OperationStatus::Pending {
        Err(VaultError::OperationCancelled)
    } else if expired_at(op, now, OPERATION_EXPIRY_HOURS) {
        Err(VaultError::OperationExpired)
    } else {
        Ok(())
    }
}

/// Readiness: live, time-lock elapsed, all signatures in.
pub open spec fn ready_check(op: PendingOperation, now: i64) -> Result<(), VaultError> {
    if pending_check(op, now) is Err {
        pending_check(op, now)
    } else if now < op.scheduled_execution {
        Err(VaultError::TimeLockNotElapsed)
    } else if !signatures_complete(op) {
        Err(VaultError::InsufficientSignatures)
    } else {
        Ok(())
    }
}

pub open spec fn amount_check(amount: u64, min_amount: Option<u64>, max_amount: Option<u64>) -> Result<(), VaultError> {
    if amount == 0 {
        Err(VaultError::AmountTooSmall)
    } else if min_amount is Some && amount < min_amount->0 {
        Err(VaultError::AmountTooSmall)
    } else if max_amount is Some && amount > max_amount->0 {
        Err(VaultError::AmountTooLarge)
    } else {
        Ok(())
    }
}

pub struct Validator;

impl Validator {
    /// A vault needs a real admin key and a sane policy.
    pub fn validate_vault_initialization(admin: &Pubkey, config: &SecurityConfig) -> (r: Result<(), VaultError>)
        ensures
            admin.bytes@ == Seq::new(32, |i: int| 0u8) ==> r == Err::<(), VaultError>(VaultError::InvalidPubkey),
            admin.bytes@ != Seq::new(32, |i: int| 0u8) ==> (r is Ok <==> config_is_sane(*config)),
            admin.bytes@ != Seq::new(32, |i: int| 0u8) && !config_is_sane(*config) ==> r == Err::<(), VaultError>(
                VaultError::InvalidSecurityConfig,
            ),
    {
        let zero = Pubkey::zeroed();
        let is_zero = admin.same_as(&zero);
        proof {
            assert(zero.bytes@ =~= Seq::new(32, |i: int| 0u8));
            if !is_zero && admin.bytes@ == zero.bytes@ {
                vstd::array::axiom_array_ext_equal(admin.bytes, zero.bytes);
            }
        }
        if is_zero {
            return Err(VaultError::InvalidPubkey);
        }
        SecurityManager::validate_security_config(config)
    }

    pub fn validate_authorization(vault: &SecureVault, performer: &Pubkey, operation: &OperationType) -> (r: Result<(), VaultError>)
        ensures
            r is Ok <==> authorized(*vault, *performer, *operation),
            r is Err ==> r == Err::<(), VaultError>(VaultError::Unauthorized),
    {
        if vault.check_authorization(performer, operation) {
            Ok(())
        } else {
            Err(VaultError::Unauthorized)
        }
    }

    /// A withdrawal must come from the admin or a manager, move a positive
    /// amount to a real account, and pass the pause, balance and daily-limit
    /// checks.
    pub fn validate_withdrawal_request(
        vault: &SecureVault,
        performer: &Pubkey,
        amount: u64,
        recipient: &Pubkey,
        current_timestamp: i64,
    ) -> (r: Result<(), VaultError>)
        ensures
            r == (if !authorized(*vault, *performer, OperationType::Withdraw) {
                Err(VaultError::Unauthorized)
            } else if amount == 0 {
                Err(VaultError::AmountTooSmall)
            } else if recipient.bytes@ == Seq::new(32, |i: int| 0u8) {
                Err(VaultError::InvalidAccount)
            } else {
                withdraw_check(*vault, amount, current_timestamp)
            }),
    {
        if !vault.check_authorization(performer, &OperationType::Withdraw) {
            return Err(VaultError::Unauthorized);
        }
        if amount == 0 {
            return Err(VaultError::AmountTooSmall);
        }
        let zero = Pubkey::zeroed();
        let to_zero = recipient.same_as(&zero);
        proof {
            assert(zero.bytes@ =~= Seq::new(32, |i: int| 0u8));
            if !to_zero && recipient.bytes@ == zero.bytes@ {
                vstd::array::axiom_array_ext_equal(recipient.bytes, zero.bytes);
            }
        }
        if to_zero {
            return Err(VaultError::InvalidAccount);
        }
        vault.can_withdraw(amount, current_timestamp)
    }

    /// Fails `DailyLimitExceeded` when the day's total, after any reset,
    /// would pass the daily limit.
    pub fn validate_daily_limits(vault: &SecureVault, amount: u64, current_timestamp: i64) -> (r: Result<(), VaultError>)
        ensures
            r is Ok <==> after_daily_reset(*vault, current_timestamp).daily_withdrawn_amount + amount
                <= vault.daily_withdrawal_limit,
            r is Err ==> r == Err::<(), VaultError>(VaultError::DailyLimitExceeded),
    {
        let withdrawn: u64 = if day_number(current_timestamp) > day_number(vault.last_reset_day) {
            0
        } else {
            vault.daily_withdrawn_amount
        };
        if withdrawn as u128 + amount as u128 > vault.daily_withdrawal_limit as u128 {
            Err(VaultError::DailyLimitExceeded)
        } else {
            Ok(())
        }
    }

    pub fn validate_rate_limiting(vault: &SecureVault, current_timestamp: i64) -> (r: Result<(), VaultError>)
        ensures
            r == rate_check(*vault, current_timestamp),
    {
        SecurityManager::check_rate_limits(vault, current_timestamp)
    }

    pub fn validate_not_paused(vault: &SecureVault) -> (r: Result<(), VaultError>)
        ensures
            r is Ok <==> !vault.is_paused,
            r is Err ==> r == Err::<(), VaultError>(VaultError::VaultPaused),
    {
        if vault.is_paused {
            Err(VaultError::VaultPaused)
        } else {
            Ok(())
        }
    }

    pub fn validate_sufficient_balance(vault: &SecureVault, amount: u64) -> (r: Result<(), VaultError>)
        ensures
            r is Ok <==> amount <= vault.total_balance,
            r is Err ==> r == Err::<(), VaultError>(VaultError::InsufficientBalance),
    {
        if amount > vault.total_balance {
            Err(VaultError::InsufficientBalance)
        } else {
            Ok(())
        }
    }

    pub fn validate_security_config(config: &SecurityConfig) -> (r: Result<(), VaultError>)
        ensures
            r is Ok <==> config_is_sane(*config),
            r is Err ==> r == Err::<(), VaultError>(VaultError::InvalidSecurityConfig),
    {
        SecurityManager::validate_security_config(config)
    }

    /// A pending operation may be acted on while neither executed,
    /// cancelled nor expired.
    pub fn validate_pending_operation(operation: &PendingOperation, current_timestamp: i64) -> (r: Result<(), VaultError>)
        ensures
            r == pending_check(*operation, current_timestamp),
    {
        match operation.status {
            OperationStatus::Executed => Err(VaultError::OperationAlreadyExecuted),
            OperationStatus::Pending => {
                if operation.is_expired(current_timestamp, OPERATION_EXPIRY_HOURS) {
                    Err(VaultError::OperationExpired)
                } else {
                    Ok(())
                }
            },
            _ => Err(VaultError::OperationCancelled),
        }
    }

    /// Ready means live, past its scheduled time, and fully signed; a
    /// missing condition is reported as `TimeLockNotElapsed` or
    /// `InsufficientSignatures`.
    pub fn validate_ready_to_execute(operation: &PendingOperation, current_timestamp: i64) -> (r: Result<(), VaultError>)
        ensures
            r == ready_check(*operation, current_timestamp),
    {
        let live = Self::validate_pending_operation(operation, current_timestamp);
        if live.is_err() {
            return live;
        }
        if current_timestamp < operation.scheduled_execution {
            return Err(VaultError::TimeLockNotElapsed);
        }
        if !operation.has_sufficient_signatures() {
            return Err(VaultError::InsufficientSignatures);
        }
        Ok(())
    }

    /// Every signer the operation was created with has signed; the vault's
    /// later membership changes do not alter that set.
    pub fn validate_required_signatures(operation: &PendingOperation, vault: &SecureVault) -> (r: Result<(), VaultError>)
        ensures
            r is Ok <==> signatures_complete(*operation),
            r is Err ==> r == Err::<(), VaultError>(VaultError::InsufficientSignatures),
    {
        if operation.has_sufficient_signatures() {
            Ok(())
        } else {
            Err(VaultError::InsufficientSignatures)
        }
    }

    /// A positive amount within the optional bounds.
    pub fn validate_amount(amount: u64, min_amount: Option<u64>, max_amount: Option<u64>) -> (r: Result<(), VaultError>)
        ensures
            r == amount_check(amount, min_amount, max_amount),
    {
        if amount == 0 {
            return Err(VaultError::AmountTooSmall);
        }
        if let Some(min) = min_amount {
            if amount < min {
                return Err(VaultError::AmountTooSmall);
            }
        }
        if let Some(max) = max_amount {
            if amount > max {
                return Err(VaultError::AmountTooLarge);
            }
        }
        Ok(())
    }

    /// Timestamps must be positive.
    pub fn validate_timestamp(timestamp: i64) -> (r: Result<(), VaultError>)
        ensures
            r is Ok <==> timestamp > 0,
            r is Err ==> r == Err::<(), VaultError>(VaultError::InvalidTimestamp),
    {
        if timestamp <= 0 {
            Err(VaultError::InvalidTimestamp)
        } else {
            Ok(())
        }
    }

    pub fn validate_no_overflow(a: u64, b: u64) -> (r: Result<u64, VaultError>)
        ensures
            a + b <= u64::MAX ==> r == Ok::<u64, VaultError>((a + b) as u64),
            a + b > u64::MAX ==> r == Err::<u64, VaultError>(VaultError::ArithmeticOverflow),
    {
        match a.checked_add(b) {
            Some(s) => Ok(s),
            None => Err(VaultError::ArithmeticOverflow),
        }
    }

    pub fn validate_no_underflow(a: u64, b: u64) -> (r: Result<u64, VaultError>)
        ensures
            b <= a ==> r == Ok::<u64, VaultError>((a - b) as u64),
            b > a ==> r == Err::<u64, VaultError>(VaultError::ArithmeticUnderflow),
    {
        match a.checked_sub(b) {
            Some(d) => Ok(d),
            None => Err(VaultError::ArithmeticUnderflow),
        }
    }

    /// At most `max_managers` managers, all distinct.
    pub fn validate_managers_list(managers: &Vec<Pubkey>, max_managers: u8) -> (r: Result<(), VaultError>)
        ensures
            managers@.len() > max_managers ==> r == Err::<(), VaultError>(VaultError::MaxManagersReached),
            managers@.len() <= max_managers ==> (r is Ok <==> managers@.no_duplicates()),
            managers@.len() <= max_managers && !managers@.no_duplicates() ==> r == Err::<(), VaultError>(
                VaultError::ManagerAlreadyExists,
            ),
    {
        if managers.len() > max_managers as usize {
            return Err(VaultError::MaxManagersReached);
        }
        if !all_distinct(managers) {
            return Err(VaultError::ManagerAlreadyExists);
        }
        Ok(())
    }

    pub fn validate_manager_exists(vault: &SecureVault, manager: &Pubkey) -> (r: Result<(), VaultError>)
        ensures
            r is Ok <==> vault.managers@.contains(*manager),
            r is Err ==> r == Err::<(), VaultError>(VaultError::ManagerNotFound),
    {
        if contains_key(&vault.managers, manager) {
            Ok(())
        } else {
            Err(VaultError::ManagerNotFound)
        }
    }

    pub fn validate_manager_not_exists(vault: &SecureVault, manager: &Pubkey) -> (r: Result<(), VaultError>)
        ensures
            r is Ok <==> !vault.managers@.contains(*manager),
            r is Err ==> r == Err::<(), VaultError>(VaultError::ManagerAlreadyExists),
    {
        if contains_key(&vault.managers, manager) {
            Err(VaultError::ManagerAlreadyExists)
        } else {
            Ok(())
        }
    }

    /// Emergency operations are pause, resume and emergency withdrawal; a
    /// pause comes from the admin or an emergency contact, the others from
    /// the admin.
    pub fn validate_emergency_operation(vault: &SecureVault, performer: &Pubkey, operation: &OperationType) -> (r: Result<(), VaultError>)
        ensures
            r == (match *operation {
                OperationType::EmergencyPause => if authorized(*vault, *performer, *operation) {
                    Ok(())
                } else {
                    Err(VaultError::EmergencyContactUnauthorized)
                },
                OperationType::Resume | OperationType::EmergencyWithdraw => if vault.admin == *performer {
                    Ok(())
                } else {
                    Err(VaultError::Unauthorized)
                },
                _ => Err(VaultError::InvalidEmergencyOperation),
            }),
    {
        match operation {
            OperationType::EmergencyPause => {
                if vault.check_authorization(performer, operation) {
                    Ok(())
                } else {
                    Err(VaultError::EmergencyContactUnauthorized)
                }
            },
            OperationType::Resume | OperationType::EmergencyWithdraw => {
                if vault.admin.same_as(performer) {
                    Ok(())
                } else {
                    Err(VaultError::Unauthorized)
                }
            },
            _ => Err(VaultError::InvalidEmergencyOperation),
        }
    }

    /// Refuses with `SuspiciousActivity` an operation that the anomaly
    /// checks flag against the audit history.
    pub fn validate_not_suspicious(
        history: &Vec<AuditLog>,
        operation: &OperationType,
        performer: &Pubkey,
        amount: Option<u64>,
        current_timestamp: i64,
        policy: &AnomalyPolicy,
    ) -> (r: Result<(), VaultError>)
        ensures
            r is Err <==> suspicious(history@, *operation, *performer, amount, current_timestamp, *policy),
            r is Err ==> r == Err::<(), VaultError>(VaultError::SuspiciousActivity),
    {
        if SecurityManager::detect_suspicious_activity(history, operation, performer, amount, current_timestamp, policy) {
            Err(VaultError::SuspiciousActivity)
        } else {
            Ok(())
        }
    }

    /// The admission checks of every top-level operation: authorization, pause state,
    /// rate limits and amount.
    pub fn validate_operation_context(
        vault: &SecureVault,
        operation: &OperationType,
        performer: &Pubkey,
        amount: Option<u64>,
        current_timestamp: i64,
    ) -> (r: Result<(), VaultError>)
        ensures
            r == context_check(*vault, *operation, *performer, amount, current_timestamp),
    {
        if !vault.check_authorization(performer, operation) {
            return Err(VaultError::Unauthorized);
        }
        let op = *operation;
        if vault.is_paused && op == OperationType::Withdraw {
            return Err(VaultError::VaultPaused);
        }
        if vault.is_paused && !(op == OperationType::Resume || op == OperationType::EmergencyWithdraw) {
            return Err(VaultError::EmergencyModeActive);
        }
        if !(op == OperationType::EmergencyPause || op == OperationType::Resume || op == OperationType::EmergencyWithdraw) {
            if SecurityManager::check_rate_limits(vault, current_timestamp).is_err() {
                return Err(VaultError::RateLimited);
            }
        }
        if op == OperationType::Deposit || op == OperationType::Withdraw || op == OperationType::EmergencyWithdraw {
            match amount {
                None => {
                    return Err(VaultError::AmountTooSmall);
                },
                Some(a) => {
                    if a == 0 {
                        return Err(VaultError::AmountTooSmall);
                    }
                },
            }
        }
        Ok(())
    }
}

pub struct ValidationUtils;

impl ValidationUtils {
    pub fn same_day(timestamp1: i64, timestamp2: i64) -> (r: bool)
        ensures
            r == (day_of(timestamp1 as int) == day_of(timestamp2 as int)),
    {
        day_number(timestamp1) == day_number(timestamp2)
    }

    /// Calendar days from the first timestamp's day to the second's.
    pub fn days_between(timestamp1: i64, timestamp2: i64) -> (r: i64)
        ensures
            r == day_of(timestamp2 as int) - day_of(timestamp1 as int),
    {
        day_number(timestamp2) - day_number(timestamp1)
    }

    /// Large amounts are those from the multisig threshold up.
    pub fn is_large_amount(amount: u64, config: &SecurityConfig) -> (r: bool)
        ensures
            r == (amount >= config.require_multisig_for_large_amounts),
    {
        amount >= config.require_multisig_for_large_amounts
    }
}

} // verus!
