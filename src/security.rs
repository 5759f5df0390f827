use vstd::prelude::*;
use crate::pubkey::Pubkey;
use crate::error::VaultError;
use crate::state::{
    AuditLog, SecureVault, SecurityConfig, OperationType, config_is_sane, day_number, after_daily_reset,
    CONTESTATION_DELAY, MAX_MANAGER,
};

verus! {

/// Operations that move funds or change who controls the vault.
pub open spec fn privileged(op: OperationType) -> bool {
    match op {
        OperationType::Withdraw
        | OperationType::EmergencyWithdraw
        | OperationType::AddManager
        | OperationType::RemoveManager
        | OperationType::UpdateConfig
        | OperationType::TransferAdmin => true,
        _ => false,
    }
}

pub open spec fn multisig_needed(v: SecureVault, op: OperationType, amount: Option<u64>) -> bool {
    privileged(op) && match amount {
        None => true,
        Some(a) => a >= v.config.require_multisig_for_large_amounts,
    }
}

/// The policy delay of an operation: none for deposits and instant
/// operations; the configured withdrawal delay for withdrawals, doubled from
/// the multisig threshold up; a fixed contestation delay for admin transfer
/// and configuration changes.
pub open spec fn policy_delay(v: SecureVault, op: OperationType, amount: Option<u64>) -> i64 {
    match op {
        OperationType::Withdraw | OperationType::EmergencyWithdraw => match amount {
            Some(a) => if a >= v.config.require_multisig_for_large_amounts {
                (2 * v.config.withdrawal_delay_seconds) as i64
            } else {
                v.config.withdrawal_delay_seconds
            },
            None => v.config.withdrawal_delay_seconds,
        },
        OperationType::TransferAdmin | OperationType::UpdateConfig => CONTESTATION_DELAY,
        _ => 0,
    }
}

/// Rate limiting: too soon after the previous operation, or the day's
/// operation budget is spent.
pub open spec fn rate_check(v: SecureVault, now: i64) -> Result<(), VaultError> {
    if now - v.last_operation_timestamp < v.config.min_time_between_operations {
        Err(VaultError::RateLimited)
    } else if after_daily_reset(v, now).daily_operation_count >= v.config.max_daily_operations {
        Err(VaultError::RateLimited)
    } else {
        Ok(())
    }
}

/// The admin, then the first managers, up to `min_signatures_required` of them.
pub open spec fn required_signers(v: SecureVault) -> Seq<Pubkey> {
    let m = if v.min_signatures_required as int <= v.managers@.len() {
        v.min_signatures_required as int
    } else {
        v.managers@.len() as int
    };
    seq![v.admin] + v.managers@.subrange(0, m)
}

/// The vault after an operation at `now` is accounted for: daily counters
/// reset on a new day, both operation counters advance, the timestamp moves,
/// and a suspicious operation pauses the vault when the policy says so.
pub open spec fn measures_applied(v: SecureVault, now: i64, suspicious: bool) -> Result<SecureVault, VaultError> {
    let r = after_daily_reset(v, now);
    if r.operation_count == u64::MAX || r.daily_operation_count == u32::MAX {
        Err(VaultError::ArithmeticOverflow)
    } else {
        Ok(SecureVault {
            operation_count: (r.operation_count + 1) as u64,
            daily_operation_count: (r.daily_operation_count + 1) as u32,
            last_operation_timestamp: now,
            is_paused: r.is_paused || (suspicious && r.config.auto_pause_on_suspicious_activity),
            ..r
        })
    }
}

/// The outcome of an integrity check of `v`.
pub open spec fn integrity_check(v: SecureVault) -> Result<(), VaultError> {
    if v.discriminator@ != crate::state::vault_tag() {
        Err(VaultError::AccountNotInitialized)
    } else if !config_is_sane(v.config) {
        Err(VaultError::InvalidSecurityConfig)
    } else if !v.wf() {
        Err(VaultError::InvalidAccount)
    } else {
        Ok(())
    }
}

pub struct SecurityManager;

impl SecurityManager {
    pub fn requires_multisig(vault: &SecureVault, operation: &OperationType, amount: Option<u64>) -> (r: bool)
        ensures
            r == multisig_needed(*vault, *operation, amount),
    {
        match operation {
            OperationType::Withdraw
            | OperationType::EmergencyWithdraw
            | OperationType::AddManager
            | OperationType::RemoveManager
            | OperationType::UpdateConfig
            | OperationType::TransferAdmin => match amount {
                None => true,
                Some(a) => a >= vault.config.require_multisig_for_large_amounts,
            },
            _ => false,
        }
    }

    pub fn calculate_required_delay(vault: &SecureVault, operation: &OperationType, amount: Option<u64>) -> (r: i64)
        requires
            vault.wf(),
        ensures
            r == policy_delay(*vault, *operation, amount),
            0 <= r <= 2 * crate::state::MAX_WITHDRAWAL_DELAY,
    {
        match operation {
            OperationType::Withdraw | OperationType::EmergencyWithdraw => match amount {
                Some(a) => if a >= vault.config.require_multisig_for_large_amounts {
                    2 * vault.config.withdrawal_delay_seconds
                } else {
                    vault.config.withdrawal_delay_seconds
                },
                None => vault.config.withdrawal_delay_seconds,
            },
            OperationType::TransferAdmin | OperationType::UpdateConfig => CONTESTATION_DELAY,
            _ => 0,
        }
    }

    /// Fails `RateLimited` when less than the configured interval has passed
    /// since the last operation, or when the day's budget is spent.
    pub fn check_rate_limits(vault: &SecureVault, current_timestamp: i64) -> (r: Result<(), VaultError>)
        ensures
            r == rate_check(*vault, current_timestamp),
    {
        let since: i128 = current_timestamp as i128 - vault.last_operation_timestamp as i128;
        if since < vault.config.min_time_between_operations as i128 {
            return Err(VaultError::RateLimited);
        }
        let today: u32 = if day_number(current_timestamp) > day_number(vault.last_reset_day) {
            0
        } else {
            vault.daily_operation_count
        };
        if today >= vault.config.max_daily_operations {
            return Err(VaultError::RateLimited);
        }
        Ok(())
    }

    /// The signers an operation needs: the admin, plus managers in order up
    /// to `min_signatures_required` of them. The set is the same for every
    /// operation and amount.
    pub fn get_required_signers(vault: &SecureVault, operation: &OperationType, amount: Option<u64>) -> (r: Vec<Pubkey>)
        ensures
            r@ == required_signers(*vault),
    {
        let m: usize = if (vault.min_signatures_required as usize) <= vault.managers.len() {
            vault.min_signatures_required as usize
        } else {
            vault.managers.len()
        };
        let mut r: Vec<Pubkey> = Vec::new();
        r.push(vault.admin);
        let mut i: usize = 0;
        while i < m
            invariant
                0 <= i <= m,
                m <= vault.managers@.len(),
                r@ == seq![vault.admin] + vault.managers@.subrange(0, i as int),
            decreases m - i,
        {
            r.push(vault.managers[i]);
            i = i + 1;
            assert(r@ =~= seq![vault.admin] + vault.managers@.subrange(0, i as int));
        }
        r
    }

    pub fn is_emergency_mode(vault: &SecureVault) -> (r: bool)
        ensures
            r == vault.is_paused,
    {
        vault.is_paused
    }

    /// Accounts for an operation of any kind at `current_timestamp`; `suspicious` says
    /// whether the anomaly checks flagged it. Leaves the vault unchanged on
    /// counter overflow.
    pub fn apply_security_measures(
        vault: &mut SecureVault,
        operation: &OperationType,
        current_timestamp: i64,
        suspicious: bool,
    ) -> (r: Result<(), VaultError>)
        ensures
            match measures_applied(*old(vault), current_timestamp, suspicious) {
                Ok(v) => r is Ok && *final(vault) == v,
                Err(e) => r == Err::<(), VaultError>(e) && *final(vault) == *old(vault),
            },
            old(vault).wf() ==> final(vault).wf(),
    {
        let reset = day_number(current_timestamp) > day_number(vault.last_reset_day);
        let count = vault.operation_count;
        let daily: u32 = if reset { 0 } else { vault.daily_operation_count };
        if count == u64::MAX || daily == u32::MAX {
            return Err(VaultError::ArithmeticOverflow);
        }
        vault.reset_daily_limits_if_needed(current_timestamp);
        vault.operation_count = count + 1;
        vault.daily_operation_count = daily + 1;
        vault.last_operation_timestamp = current_timestamp;
        if suspicious && vault.config.auto_pause_on_suspicious_activity {
            vault.is_paused = true;
        }
        Ok(())
    }

    /// Checks the vault's invariant: a vault record, a sane policy, the
    /// admin outside the distinct managers, within the caps and limits.
    pub fn verify_vault_integrity(vault: &SecureVault) -> (r: Result<(), VaultError>)
        ensures
            r == integrity_check(*vault),
            r is Ok <==> vault.wf() && vault.discriminator@ == crate::state::vault_tag(),
    {
        if !tag_matches(vault) {
            return Err(VaultError::AccountNotInitialized);
        }
        if !vault.config.is_valid() {
            return Err(VaultError::InvalidSecurityConfig);
        }
        if vault.managers.len() > MAX_MANAGER || vault.managers.len() > vault.config.max_managers as usize
            || vault.emergency_contacts.len() > crate::state::MAX_EMERGENCY_CONTACTS
            || vault.daily_withdrawn_amount > vault.daily_withdrawal_limit
            || vault.min_signatures_required < 1
            || crate::pubkey::contains_key(&vault.managers, &vault.admin)
            || !crate::pubkey::all_distinct(&vault.managers) {
            return Err(VaultError::InvalidAccount);
        }
        Ok(())
    }

    /// Accepts a configuration within bounds, else `InvalidSecurityConfig`.
    pub fn validate_security_config(config: &SecurityConfig) -> (r: Result<(), VaultError>)
        ensures
            r is Ok <==> config_is_sane(*config),
            r is Err ==> r == Err::<(), VaultError>(VaultError::InvalidSecurityConfig),
    {
        if config.is_valid() {
            Ok(())
        } else {
            Err(VaultError::InvalidSecurityConfig)
        }
    }
}

fn tag_matches(vault: &SecureVault) -> (r: bool)
    ensures
        r == (vault.discriminator@ == crate::state::vault_tag()),
{
    let tag: [u8; 8] = crate::state::VAULT_DISCRIMINATOR;
    assert(tag@ =~= crate::state::vault_tag());
    let mut i: usize = 0;
    while i < 8
        invariant
            0 <= i <= 8,
            tag@ == crate::state::vault_tag(),
            forall|j: int| 0 <= j < i ==> vault.discriminator@[j] == tag@[j],
        decreases 8 - i,
    {
        if vault.discriminator[i] != tag[i] {
            return false;
        }
        i = i + 1;
    }
    assert(vault.discriminator@ =~= crate::state::vault_tag());
    true
}

/// Kinds of anomaly the engine reports.
#[derive(Clone, Copy, Debug, PartialEq, Eq, Structural)]
pub enum AnomalyType {
    UnusualTransactionPattern,
    HighFrequencyOperations,
    LargeAmountTransfer,
    UnauthorizedAccess,
    ConfigurationChange,
    TimeBasedAnomaly,
}

#[derive(Clone, Copy, Debug, PartialEq, Eq, Structural)]
pub enum AnomalySeverity {
    Low,
    Medium,
    High,
    Critical,
}

#[derive(Clone, Copy, Debug, PartialEq, Eq, Structural)]
pub enum RecommendationType {
    UpdateConfiguration,
    ReviewPermissions,
    EnableAdditionalSecurity,
    AuditAccounts,
    UpdateEmergencyContacts,
}

#[derive(Clone, Copy, Debug, PartialEq, Eq, Structural)]
pub enum RecommendationPriority {
    Low,
    Medium,
    High,
    Urgent,
}

#[derive(Clone, Copy, Debug, PartialEq, Eq, Structural)]
pub enum ComplianceStatus {
    Compliant,
    MinorIssues,
    MajorIssues,
    NonCompliant,
}

/// A recommended change to a vault's setup.
#[derive(Clone, Debug)]
pub struct SecurityRecommendation {
    pub recommendation_type: RecommendationType,
    pub priority: RecommendationPriority,
    pub description: String,
    pub action_required: bool,
}

/// Thresholds of the anomaly checks, set by the operator.
#[derive(Clone, Copy, Debug, PartialEq, Eq, Structural)]
pub struct AnomalyPolicy {
    /// A withdrawal is anomalous when it exceeds this multiple of the
    /// average past withdrawal.
    pub amount_multiplier: u64,
    /// Length in seconds of the window that frequencies are counted over.
    pub frequency_window: i64,
    /// Operations by one performer within the window that count as too many.
    pub max_operations_per_window: u64,
    /// Privileged changes within the window that count as a cluster.
    pub max_privileged_changes_per_window: u64,
}

/// A successful withdrawal with its amount on record.
pub open spec fn is_withdrawal(e: AuditLog) -> bool {
    e.success && e.amount is Some && (e.operation_type == OperationType::Withdraw
        || e.operation_type == OperationType::EmergencyWithdraw)
}

/// Changes to who controls the vault or to its policy.
pub open spec fn is_privileged_change(op: OperationType) -> bool {
    op == OperationType::AddManager || op == OperationType::RemoveManager || op == OperationType::UpdateConfig
        || op == OperationType::TransferAdmin
}

pub open spec fn in_window(e: AuditLog, now: i64, window: i64) -> bool {
    now - window < e.timestamp <= now
}

pub open spec fn withdrawal_count(s: Seq<AuditLog>) -> nat
    decreases s.len(),
{
    if s.len() == 0 {
        0
    } else {
        withdrawal_count(s.drop_last()) + if is_withdrawal(s.last()) { 1nat } else { 0nat }
    }
}

pub open spec fn withdrawal_sum(s: Seq<AuditLog>) -> nat
    decreases s.len(),
{
    if s.len() == 0 {
        0
    } else {
        withdrawal_sum(s.drop_last()) + if is_withdrawal(s.last()) { s.last().amount->Some_0 as nat } else { 0nat }
    }
}

pub open spec fn performer_count(s: Seq<AuditLog>, p: Pubkey, now: i64, window: i64) -> nat
    decreases s.len(),
{
    if s.len() == 0 {
        0
    } else {
        performer_count(s.drop_last(), p, now, window) + if s.last().performer == p && in_window(s.last(), now, window) {
            1nat
        } else {
            0nat
        }
    }
}

pub open spec fn privileged_count(s: Seq<AuditLog>, now: i64, window: i64) -> nat
    decreases s.len(),
{
    if s.len() == 0 {
        0
    } else {
        privileged_count(s.drop_last(), now, window) + if is_privileged_change(s.last().operation_type) && in_window(
            s.last(),
            now,
            window,
        ) {
            1nat
        } else {
            0nat
        }
    }
}

/// The anomaly classes: a withdrawal above the configured multiple of the
/// average past withdrawal; too many operations by one performer within
/// the window; a cluster of privileged changes within the window.
pub open spec fn suspicious(
    history: Seq<AuditLog>,
    op: OperationType,
    performer: Pubkey,
    amount: Option<u64>,
    now: i64,
    policy: AnomalyPolicy,
) -> bool {
    ||| (amount is Some && (op == OperationType::Withdraw || op == OperationType::EmergencyWithdraw)
        && withdrawal_count(history) > 0 && amount->Some_0 * withdrawal_count(history) > policy.amount_multiplier
        * withdrawal_sum(history))
    ||| performer_count(history, performer, now, policy.frequency_window) >= policy.max_operations_per_window
    ||| (is_privileged_change(op) && privileged_count(history, now, policy.frequency_window)
        >= policy.max_privileged_changes_per_window)
}

/// A withdrawal above the configured multiple of the average past one.
pub open spec fn large_withdrawal(history: Seq<AuditLog>, op: OperationType, amount: Option<u64>, policy: AnomalyPolicy) -> bool {
    amount is Some && (op == OperationType::Withdraw || op == OperationType::EmergencyWithdraw)
        && withdrawal_count(history) > 0 && amount->Some_0 * withdrawal_count(history) > policy.amount_multiplier
        * withdrawal_sum(history)
}

/// Too many operations by one performer within the window.
pub open spec fn too_frequent(history: Seq<AuditLog>, performer: Pubkey, now: i64, policy: AnomalyPolicy) -> bool {
    performer_count(history, performer, now, policy.frequency_window) >= policy.max_operations_per_window
}

/// A privileged change on top of a cluster of them within the window.
pub open spec fn privileged_cluster(history: Seq<AuditLog>, op: OperationType, now: i64, policy: AnomalyPolicy) -> bool {
    is_privileged_change(op) && privileged_count(history, now, policy.frequency_window)
        >= policy.max_privileged_changes_per_window
}

impl SecurityManager {
    /// Whether `amount` is above the policy's multiple of the average past
    /// withdrawal in `history`.
    pub fn is_large_withdrawal(history: &Vec<AuditLog>, operation: &OperationType, amount: Option<u64>, policy: &AnomalyPolicy) -> (r: bool)
        ensures
            r == large_withdrawal(history@, *operation, amount, *policy),
    {
        let op = *operation;
        let a = match amount {
            None => {
                return false;
            },
            Some(a) => a,
        };
        if !(op == OperationType::Withdraw || op == OperationType::EmergencyWithdraw) {
            return false;
        }
        let n = history.len();
        let mut count: u64 = 0;
        let mut sum: u128 = 0;
        let mut i: usize = 0;
        while i < n
            invariant
                0 <= i <= n,
                n == history@.len(),
                count == withdrawal_count(history@.subrange(0, i as int)),
                sum == withdrawal_sum(history@.subrange(0, i as int)),
                count <= i,
                sum <= i * 0xffff_ffff_ffff_ffff,
            decreases n - i,
        {
            let e = history[i];
            proof {
                let t = history@.subrange(0, i + 1);
                assert(t.drop_last() =~= history@.subrange(0, i as int));
                assert(t.last() == e);
            }
            if e.success && (e.operation_type == OperationType::Withdraw || e.operation_type == OperationType::EmergencyWithdraw) {
                if let Some(x) = e.amount {
                    count = count + 1;
                    sum = sum + x as u128;
                }
            }
            i = i + 1;
        }
        assert(history@.subrange(0, n as int) =~= history@);
        if count == 0 {
            return false;
        }
        assert((a as u128) * (count as u128) < 0x1_0000_0000_0000_0000_0000_0000_0000_0000) by (nonlinear_arith)
            requires
                a <= 0xffff_ffff_ffff_ffff,
                count <= 0xffff_ffff_ffff_ffff,
        ;
        let scaled = (a as u128) * (count as u128);
        match (policy.amount_multiplier as u128).checked_mul(sum) {
            Some(bound) => scaled > bound,
            None => false,
        }
    }

    /// Whether `performer` already reached the per-window operation budget.
    pub fn is_too_frequent(history: &Vec<AuditLog>, performer: &Pubkey, current_timestamp: i64, policy: &AnomalyPolicy) -> (r: bool)
        ensures
            r == too_frequent(history@, *performer, current_timestamp, *policy),
    {
        let n = history.len();
        let mut count: u64 = 0;
        let mut i: usize = 0;
        while i < n
            invariant
                0 <= i <= n,
                n == history@.len(),
                count == performer_count(history@.subrange(0, i as int), *performer, current_timestamp, policy.frequency_window),
                count <= i,
            decreases n - i,
        {
            let e = history[i];
            proof {
                let t = history@.subrange(0, i + 1);
                assert(t.drop_last() =~= history@.subrange(0, i as int));
                assert(t.last() == e);
            }
            let inside = (e.timestamp as i128) > (current_timestamp as i128) - (policy.frequency_window as i128)
                && e.timestamp <= current_timestamp;
            if inside && e.performer.same_as(performer) {
                count = count + 1;
            }
            i = i + 1;
        }
        assert(history@.subrange(0, n as int) =~= history@);
        count >= policy.max_operations_per_window
    }

    /// Whether a privileged change comes on top of a cluster of them.
    pub fn is_privileged_cluster(history: &Vec<AuditLog>, operation: &OperationType, current_timestamp: i64, policy: &AnomalyPolicy) -> (r: bool)
        ensures
            r == privileged_cluster(history@, *operation, current_timestamp, *policy),
    {
        let op = *operation;
        if !(op == OperationType::AddManager || op == OperationType::RemoveManager || op == OperationType::UpdateConfig
            || op == OperationType::TransferAdmin) {
            return false;
        }
        let n = history.len();
        let mut count: u64 = 0;
        let mut i: usize = 0;
        while i < n
            invariant
                0 <= i <= n,
                n == history@.len(),
                count == privileged_count(history@.subrange(0, i as int), current_timestamp, policy.frequency_window),
                count <= i,
            decreases n - i,
        {
            let e = history[i];
            proof {
                let t = history@.subrange(0, i + 1);
                assert(t.drop_last() =~= history@.subrange(0, i as int));
                assert(t.last() == e);
            }
            let inside = (e.timestamp as i128) > (current_timestamp as i128) - (policy.frequency_window as i128)
                && e.timestamp <= current_timestamp;
            let k = e.operation_type;
            if inside && (k == OperationType::AddManager || k == OperationType::RemoveManager
                || k == OperationType::UpdateConfig || k == OperationType::TransferAdmin) {
                count = count + 1;
            }
            i = i + 1;
        }
        assert(history@.subrange(0, n as int) =~= history@);
        count >= policy.max_privileged_changes_per_window
    }

    /// Whether an operation looks anomalous against the audit history.
    pub fn detect_suspicious_activity(
        history: &Vec<AuditLog>,
        operation: &OperationType,
        performer: &Pubkey,
        amount: Option<u64>,
        current_timestamp: i64,
        policy: &AnomalyPolicy,
    ) -> (r: bool)
        ensures
            r == suspicious(history@, *operation, *performer, amount, current_timestamp, *policy),
    {
        Self::is_large_withdrawal(history, operation, amount, policy) || Self::is_too_frequent(
            history,
            performer,
            current_timestamp,
            policy,
        ) || Self::is_privileged_cluster(history, operation, current_timestamp, policy)
    }
}

} // verus!
