use vstd::prelude::*;
use crate::pubkey::{Pubkey, contains_key};
use crate::error::VaultError;
use crate::bytes::{le_bytes, push_u32, push_u64};

verus! {

pub const SECONDS_PER_DAY: i64 = 86400;

pub const MAX_MANAGER: usize = 10;

pub const MAX_EMERGENCY_CONTACTS: usize = 5;

pub const MAX_SEED_LENGTH: usize = 32;

pub const MAX_SEED_COUNT: usize = 16;

/// Hours after creation at which an untouched pending operation expires.
pub const OPERATION_EXPIRY_HOURS: i64 = 24;

/// Upper bound accepted for `max_daily_operations`.
pub const MAX_DAILY_OPERATIONS: u32 = 1000;

/// Upper bound accepted for the configured withdrawal delay (12 hours).
pub const MAX_WITHDRAWAL_DELAY: i64 = 43200;

/// Fixed delay before an admin transfer or a configuration change may run
/// (12 hours), leaving time to contest it.
pub const CONTESTATION_DELAY: i64 = 43200;

/// The 8-byte type tag of a persisted vault: "SECVAULT".
pub const VAULT_DISCRIMINATOR: [u8; 8] = [83, 69, 67, 86, 65, 85, 76, 84];

pub open spec fn vault_tag() -> Seq<u8> {
    seq![83u8, 69u8, 67u8, 86u8, 65u8, 85u8, 76u8, 84u8]
}

/// Day number of a timestamp; rounds toward zero, as integer division does.
pub open spec fn day_of(t: int) -> int {
    if t >= 0 {
        t / 86400
    } else {
        -((-t) / 86400)
    }
}

pub fn day_number(t: i64) -> (r: i64)
    ensures
        r == day_of(t as int),
{
    t / SECONDS_PER_DAY
}

/// Kinds of operation on a vault.
#[derive(Clone, Copy, Debug, PartialEq, Eq, Structural)]
pub enum OperationType {
    Deposit,
    Withdraw,
    EmergencyPause,
    Resume,
    AddManager,
    RemoveManager,
    UpdateConfig,
    TransferAdmin,
    EmergencyWithdraw,
}

/// Roles, in decreasing priority: Admin, Manager, EmergencyContact, User.
#[derive(Clone, Copy, Debug, PartialEq, Eq, Structural)]
pub enum Role {
    Admin,
    Manager,
    User,
    EmergencyContact,
}

/// Status of a pending operation. `Pending`, `Executed` and `Rejected`
/// (cancelled) are stored; `Approved` (ready) and `Expired` are read off
/// the clock.
#[derive(Clone, Copy, Debug, PartialEq, Eq, Structural)]
pub enum OperationStatus {
    Pending,
    Approved,
    Rejected,
    Executed,
    Expired,
}

/// Security policy of a vault.
#[derive(Clone, Copy, Debug, PartialEq, Eq, Structural)]
pub struct SecurityConfig {
    pub max_daily_operations: u32,
    pub min_time_between_operations: i64,
    pub require_multisig_for_large_amounts: u64,
    pub auto_pause_on_suspicious_activity: bool,
    pub max_managers: u8,
    pub withdrawal_delay_seconds: i64,
}

/// The bounds a configuration must respect to be accepted.
pub open spec fn config_is_sane(c: SecurityConfig) -> bool {
    &&& 1 <= c.max_daily_operations <= MAX_DAILY_OPERATIONS
    &&& 0 <= c.min_time_between_operations <= SECONDS_PER_DAY
    &&& c.require_multisig_for_large_amounts > 0
    &&& 1 <= c.max_managers <= MAX_MANAGER
    &&& 0 <= c.withdrawal_delay_seconds <= MAX_WITHDRAWAL_DELAY
}

pub open spec fn default_config() -> SecurityConfig {
    SecurityConfig {
        max_daily_operations: 100,
        min_time_between_operations: 60,
        require_multisig_for_large_amounts: 1_000_000_000,
        auto_pause_on_suspicious_activity: false,
        max_managers: 5,
        withdrawal_delay_seconds: 3600,
    }
}

impl SecurityConfig {
    pub fn default() -> (r: SecurityConfig)
        ensures
            r == default_config(),
            config_is_sane(r),
    {
        SecurityConfig {
            max_daily_operations: 100,
            min_time_between_operations: 60,
            require_multisig_for_large_amounts: 1_000_000_000,
            auto_pause_on_suspicious_activity: false,
            max_managers: 5,
            withdrawal_delay_seconds: 3600,
        }
    }

    pub fn high_security() -> (r: SecurityConfig)
        ensures
            r == (SecurityConfig {
                max_daily_operations: 10,
                min_time_between_operations: 600,
                require_multisig_for_large_amounts: 10_000_000,
                auto_pause_on_suspicious_activity: true,
                max_managers: 3,
                withdrawal_delay_seconds: 3600,
            }),
            config_is_sane(r),
    {
        SecurityConfig {
            max_daily_operations: 10,
            min_time_between_operations: 600,
            require_multisig_for_large_amounts: 10_000_000,
            auto_pause_on_suspicious_activity: true,
            max_managers: 3,
            withdrawal_delay_seconds: 3600,
        }
    }

    /// Whether the configuration respects the accepted bounds.
    pub fn is_valid(&self) -> (r: bool)
        ensures
            r == config_is_sane(*self),
    {
        1 <= self.max_daily_operations && self.max_daily_operations <= MAX_DAILY_OPERATIONS
            && 0 <= self.min_time_between_operations
            && self.min_time_between_operations <= SECONDS_PER_DAY
            && self.require_multisig_for_large_amounts > 0 && 1 <= self.max_managers
            && self.max_managers as usize <= MAX_MANAGER && 0 <= self.withdrawal_delay_seconds
            && self.withdrawal_delay_seconds <= MAX_WITHDRAWAL_DELAY
    }
}

/// "secure_vault"
pub open spec fn vault_seed_tag() -> Seq<u8> {
    seq![115u8, 101, 99, 117, 114, 101, 95, 118, 97, 117, 108, 116]
}

/// "audit"
pub open spec fn audit_seed_tag() -> Seq<u8> {
    seq![97u8, 117, 100, 105, 116]
}

/// "pending_op"
pub open spec fn pending_seed_tag() -> Seq<u8> {
    seq![112u8, 101, 110, 100, 105, 110, 103, 95, 111, 112]
}

/// The byte strings held by a list of seeds.
pub open spec fn seeds_view(v: Seq<Vec<u8>>) -> Seq<Seq<u8>> {
    v.map_values(|x: Vec<u8>| x@)
}

pub fn copy_bytes(a: &[u8]) -> (r: Vec<u8>)
    ensures
        r@ == a@,
{
    let mut r: Vec<u8> = Vec::new();
    let mut i: usize = 0;
    while i < a.len()
        invariant
            0 <= i <= a@.len(),
            r@ == a@.subrange(0, i as int),
        decreases a@.len() - i,
    {
        r.push(a[i]);
        i = i + 1;
    }
    assert(r@ =~= a@);
    r
}

pub fn vault_seed_bytes() -> (r: Vec<u8>)
    ensures
        r@ == vault_seed_tag(),
{
    let a: [u8; 12] = [115, 101, 99, 117, 114, 101, 95, 118, 97, 117, 108, 116];
    let r = copy_bytes(&a);
    assert(r@ =~= vault_seed_tag());
    r
}

pub fn audit_seed_bytes() -> (r: Vec<u8>)
    ensures
        r@ == audit_seed_tag(),
{
    let a: [u8; 5] = [97, 117, 100, 105, 116];
    let r = copy_bytes(&a);
    assert(r@ =~= audit_seed_tag());
    r
}

pub fn pending_seed_bytes() -> (r: Vec<u8>)
    ensures
        r@ == pending_seed_tag(),
{
    let a: [u8; 10] = [112, 101, 110, 100, 105, 110, 103, 95, 111, 112];
    let r = copy_bytes(&a);
    assert(r@ =~= pending_seed_tag());
    r
}

/// The authoritative state of one vault: balance, roles, limits and policy.
#[derive(Clone, Debug)]
pub struct SecureVault {
    pub discriminator: [u8; 8],
    pub admin: Pubkey,
    pub managers: Vec<Pubkey>,
    pub total_balance: u64,
    pub is_paused: bool,
    pub min_signatures_required: u8,
    pub last_operation_timestamp: i64,
    pub daily_withdrawal_limit: u64,
    pub daily_withdrawn_amount: u64,
    pub last_reset_day: i64,
    /// Operations performed over the vault's life; the next pending
    /// operation takes this value as its id.
    pub operation_count: u64,
    /// Operations performed since the last daily reset.
    pub daily_operation_count: u32,
    pub emergency_contacts: Vec<Pubkey>,
    pub created_at: i64,
    pub config: SecurityConfig,
    pub bump: u8,
}

/// Whether `who` holds `role` in `v`; every identity is a User.
pub open spec fn holds_role(v: SecureVault, who: Pubkey, role: Role) -> bool {
    match role {
        Role::Admin => v.admin == who,
        Role::Manager => v.managers@.contains(who),
        Role::User => true,
        Role::EmergencyContact => v.emergency_contacts@.contains(who),
    }
}

/// The highest-priority role of `who`.
pub open spec fn role_of(v: SecureVault, who: Pubkey) -> Role {
    if v.admin == who {
        Role::Admin
    } else if v.managers@.contains(who) {
        Role::Manager
    } else if v.emergency_contacts@.contains(who) {
        Role::EmergencyContact
    } else {
        Role::User
    }
}

/// Who may perform each kind of operation.
pub open spec fn authorized(v: SecureVault, who: Pubkey, op: OperationType) -> bool {
    match op {
        OperationType::Deposit => true,
        OperationType::Withdraw => v.admin == who || v.managers@.contains(who),
        OperationType::EmergencyPause => v.admin == who || v.emergency_contacts@.contains(who),
        _ => v.admin == who,
    }
}

/// The vault after the daily counters are reset, if `now` falls on a later
/// day than the last reset.
pub open spec fn after_daily_reset(v: SecureVault, now: i64) -> SecureVault {
    if day_of(now as int) > day_of(v.last_reset_day as int) {
        SecureVault { daily_withdrawn_amount: 0, daily_operation_count: 0, last_reset_day: now, ..v }
    } else {
        v
    }
}

/// Whether a withdrawal of `amount` is allowed at `now`, and if not, why.
pub open spec fn withdraw_check(v: SecureVault, amount: u64, now: i64) -> Result<(), VaultError> {
    if v.is_paused {
        Err(VaultError::VaultPaused)
    } else if amount > v.total_balance {
        Err(VaultError::InsufficientBalance)
    } else if after_daily_reset(v, now).daily_withdrawn_amount + amount > v.daily_withdrawal_limit {
        Err(VaultError::DailyLimitExceeded)
    } else {
        Ok(())
    }
}

pub open spec fn add_manager_check(v: SecureVault, m: Pubkey) -> Result<(), VaultError> {
    if v.managers@.len() >= MAX_MANAGER || v.managers@.len() >= v.config.max_managers {
        Err(VaultError::MaxManagersReached)
    } else if v.managers@.contains(m) {
        Err(VaultError::ManagerAlreadyExists)
    } else if m == v.admin {
        Err(VaultError::AdminCannotBeManager)
    } else {
        Ok(())
    }
}

pub open spec fn add_contact_check(v: SecureVault, c: Pubkey) -> Result<(), VaultError> {
    if v.emergency_contacts@.len() >= MAX_EMERGENCY_CONTACTS {
        Err(VaultError::MaxEmergencyContactsReached)
    } else if v.emergency_contacts@.contains(c) {
        Err(VaultError::InvalidAccount)
    } else {
        Ok(())
    }
}

/// The checks of `is_valid_state`.
pub open spec fn state_is_valid(v: SecureVault) -> bool {
    &&& v.discriminator@ == vault_tag()
    &&& v.admin.bytes@ != Seq::new(32, |i: int| 0u8)
    &&& v.managers@.len() <= MAX_MANAGER
    &&& v.emergency_contacts@.len() <= MAX_EMERGENCY_CONTACTS
    &&& v.daily_withdrawn_amount <= v.daily_withdrawal_limit
    &&& v.min_signatures_required > 0
}

/// `b` equals `a` but for the manager list.
pub open spec fn same_but_managers(a: SecureVault, b: SecureVault) -> bool {
    b == SecureVault { managers: b.managers, ..a }
}

impl SecureVault {
    /// The invariant every operation keeps: the admin is never a manager,
    /// managers are distinct and within both caps, the daily amount stays
    /// within its limit, at least one signature is required, and the policy
    /// is within bounds.
    pub open spec fn wf(&self) -> bool {
        &&& !self.managers@.contains(self.admin)
        &&& self.managers@.no_duplicates()
        &&& self.managers@.len() <= MAX_MANAGER
        &&& self.managers@.len() <= self.config.max_managers
        &&& self.emergency_contacts@.len() <= MAX_EMERGENCY_CONTACTS
        &&& self.daily_withdrawn_amount <= self.daily_withdrawal_limit
        &&& self.min_signatures_required >= 1
        &&& config_is_sane(self.config)
    }

    /// A fresh vault of `admin`, created at `current_timestamp`, with the
    /// default policy and no daily withdrawal limit.
    pub fn new(admin: Pubkey, current_timestamp: i64) -> (r: SecureVault)
        ensures
            r.discriminator@ == vault_tag(),
            r.admin == admin,
            r.managers@ == Seq::<Pubkey>::empty(),
            r.total_balance == 0,
            !r.is_paused,
            r.min_signatures_required == 1,
            r.last_operation_timestamp == current_timestamp,
            r.daily_withdrawal_limit == u64::MAX,
            r.daily_withdrawn_amount == 0,
            r.last_reset_day == current_timestamp,
            r.operation_count == 0,
            r.daily_operation_count == 0,
            r.emergency_contacts@ == Seq::<Pubkey>::empty(),
            r.created_at == current_timestamp,
            r.config == default_config(),
            r.bump == 0,
            r.wf(),
    {
        let r = SecureVault {
            discriminator: VAULT_DISCRIMINATOR,
            admin,
            managers: Vec::new(),
            total_balance: 0,
            is_paused: false,
            min_signatures_required: 1,
            last_operation_timestamp: current_timestamp,
            daily_withdrawal_limit: u64::MAX,
            daily_withdrawn_amount: 0,
            last_reset_day: current_timestamp,
            operation_count: 0,
            daily_operation_count: 0,
            emergency_contacts: Vec::new(),
            created_at: current_timestamp,
            config: SecurityConfig::default(),
            bump: 0,
        };
        assert(r.discriminator@ =~= vault_tag());
        r
    }

    pub fn set_bump(&mut self, bump: u8)
        ensures
            *final(self) == (SecureVault { bump, ..*old(self) }),
    {
        self.bump = bump;
    }

    /// Seeds of the vault's derived address: the tag and the admin key.
    pub fn get_seeds(&self) -> (r: Vec<Vec<u8>>)
        ensures
            seeds_view(r@) == seq![vault_seed_tag(), self.admin.bytes@],
    {
        let mut r: Vec<Vec<u8>> = Vec::new();
        r.push(vault_seed_bytes());
        r.push(copy_bytes(&self.admin.bytes));
        assert(seeds_view(r@) =~= seq![vault_seed_tag(), self.admin.bytes@]);
        r
    }

    pub fn has_role(&self, account: &Pubkey, role: Role) -> (r: bool)
        ensures
            r == holds_role(*self, *account, role),
    {
        match role {
            Role::Admin => self.admin.same_as(account),
            Role::Manager => contains_key(&self.managers, account),
            Role::User => true,
            Role::EmergencyContact => contains_key(&self.emergency_contacts, account),
        }
    }

    pub fn get_role(&self, account: &Pubkey) -> (r: Option<Role>)
        ensures
            r == Some(role_of(*self, *account)),
    {
        if self.admin.same_as(account) {
            Some(Role::Admin)
        } else if contains_key(&self.managers, account) {
            Some(Role::Manager)
        } else if contains_key(&self.emergency_contacts, account) {
            Some(Role::EmergencyContact)
        } else {
            Some(Role::User)
        }
    }

    pub fn is_valid_state(&self) -> (r: bool)
        ensures
            r == state_is_valid(*self),
    {
        let tag: [u8; 8] = VAULT_DISCRIMINATOR;
        assert(tag@ =~= vault_tag());
        let mut tag_ok = true;
        let mut i: usize = 0;
        while i < 8
            invariant
                0 <= i <= 8,
                tag@ == vault_tag(),
                tag_ok == (forall|j: int| 0 <= j < i ==> self.discriminator@[j] == vault_tag()[j]),
            decreases 8 - i,
        {
            if self.discriminator[i] != tag[i] {
                tag_ok = false;
            }
            i = i + 1;
        }
        assert(tag_ok == (self.discriminator@ =~= vault_tag()));
        let zero = Pubkey::zeroed();
        let admin_zero = self.admin.same_as(&zero);
        proof {
            if !admin_zero {
                if self.admin.bytes@ == zero.bytes@ {
                    vstd::array::axiom_array_ext_equal(self.admin.bytes, zero.bytes);
                }
            } else {
                assert(self.admin.bytes@ == zero.bytes@);
            }
            assert(zero.bytes@ =~= Seq::new(32, |i: int| 0u8));
        }
        tag_ok && !admin_zero && self.managers.len() <= MAX_MANAGER
            && self.emergency_contacts.len() <= MAX_EMERGENCY_CONTACTS
            && self.daily_withdrawn_amount <= self.daily_withdrawal_limit
            && self.min_signatures_required > 0
    }

    /// Resets the daily counters when `current_timestamp` falls on a later
    /// day than the last reset.
    pub fn reset_daily_limits_if_needed(&mut self, current_timestamp: i64)
        ensures
            *final(self) == after_daily_reset(*old(self), current_timestamp),
    {
        let current_day = day_number(current_timestamp);
        let last_reset_day = day_number(self.last_reset_day);
        if current_day > last_reset_day {
            self.daily_withdrawn_amount = 0;
            self.daily_operation_count = 0;
            self.last_reset_day = current_timestamp;
        }
    }

    pub fn check_authorization(&self, performer: &Pubkey, operation: &OperationType) -> (r: bool)
        ensures
            r == authorized(*self, *performer, *operation),
    {
        match operation {
            OperationType::Deposit => true,
            OperationType::Withdraw => self.admin.same_as(performer) || contains_key(
                &self.managers,
                performer,
            ),
            OperationType::EmergencyPause => self.admin.same_as(performer) || contains_key(
                &self.emergency_contacts,
                performer,
            ),
            _ => self.admin.same_as(performer),
        }
    }

    /// Whether `amount` may be withdrawn at `current_timestamp`: the vault is
    /// not paused, holds the amount, and the day's total stays in its limit.
    pub fn can_withdraw(&self, amount: u64, current_timestamp: i64) -> (r: Result<(), VaultError>)
        ensures
            r == withdraw_check(*self, amount, current_timestamp),
    {
        if self.is_paused {
            return Err(VaultError::VaultPaused);
        }
        if amount > self.total_balance {
            return Err(VaultError::InsufficientBalance);
        }
        let withdrawn: u64 = if day_number(current_timestamp) > day_number(self.last_reset_day) {
            0
        } else {
            self.daily_withdrawn_amount
        };
        if withdrawn as u128 + amount as u128 > self.daily_withdrawal_limit as u128 {
            return Err(VaultError::DailyLimitExceeded);
        }
        Ok(())
    }

    /// Adds a manager, keeping the admin out and the list within its caps.
    pub fn add_manager(&mut self, new_manager: Pubkey) -> (r: Result<(), VaultError>)
        ensures
            r == add_manager_check(*old(self), new_manager),
            r is Ok ==> same_but_managers(*old(self), *final(self)) && final(self).managers@
                == old(self).managers@.push(new_manager),
            r is Err ==> *final(self) == *old(self),
            old(self).wf() ==> final(self).wf(),
    {
        if self.managers.len() >= MAX_MANAGER || self.managers.len() >= self.config.max_managers as usize {
            return Err(VaultError::MaxManagersReached);
        }
        if contains_key(&self.managers, &new_manager) {
            return Err(VaultError::ManagerAlreadyExists);
        }
        if new_manager.same_as(&self.admin) {
            return Err(VaultError::AdminCannotBeManager);
        }
        let ghost before = self.managers@;
        self.managers.push(new_manager);
        proof {
            assert forall|x: Pubkey| #[trigger] self.managers@.contains(x) implies before.contains(x) || x == new_manager by {
                let j = choose|j: int| 0 <= j < self.managers@.len() && self.managers@[j] == x;
                if j < before.len() {
                    assert(before[j] == x);
                }
            }
            if before.no_duplicates() {
                assert forall|a: int, b: int|
                    0 <= a < self.managers@.len() && 0 <= b < self.managers@.len() && a != b
                    implies self.managers@[a] != self.managers@[b] by {
                    if a < before.len() && b < before.len() {
                    } else if a < before.len() {
                        assert(before.contains(self.managers@[a]));
                    } else if b < before.len() {
                        assert(before.contains(self.managers@[b]));
                    }
                }
            }
        }
        Ok(())
    }

    /// Removes a manager; fails with `ManagerNotFound` when absent.
    pub fn remove_manager(&mut self, manager_to_remove: Pubkey) -> (r: Result<(), VaultError>)
        ensures
            r is Ok <==> old(self).managers@.contains(manager_to_remove),
            r is Err ==> r == Err::<(), VaultError>(VaultError::ManagerNotFound) && *final(self) == *old(self),
            r is Ok ==> same_but_managers(*old(self), *final(self)) && exists|i: int|
                0 <= i < old(self).managers@.len() && old(self).managers@[i] == manager_to_remove
                    && (forall|j: int| 0 <= j < i ==> old(self).managers@[j] != manager_to_remove)
                    && final(self).managers@ == old(self).managers@.remove(i),
            old(self).wf() ==> final(self).wf() && !final(self).managers@.contains(manager_to_remove),
    {
        let mut i: usize = 0;
        while i < self.managers.len()
            invariant
                0 <= i <= self.managers@.len(),
                *self == *old(self),
                forall|j: int| 0 <= j < i ==> self.managers@[j] != manager_to_remove,
            decreases self.managers@.len() - i,
        {
            if self.managers[i].same_as(&manager_to_remove) {
                let ghost before = self.managers@;
                self.managers.remove(i);
                proof {
                    assert(before[i as int] == manager_to_remove);
                    assert(before.contains(manager_to_remove));
                    let after = self.managers@;
                    assert forall|x: Pubkey| #[trigger] after.contains(x) implies before.contains(x) by {
                        let j = choose|j: int| 0 <= j < after.len() && after[j] == x;
                        if j < i {
                            assert(before[j] == x);
                        } else {
                            assert(before[j + 1] == x);
                        }
                    }
                    if before.no_duplicates() {
                        assert forall|a: int, b: int|
                            0 <= a < after.len() && 0 <= b < after.len() && a != b
                            implies after[a] != after[b] by {
                            let a2 = if a < i { a } else { a + 1 };
                            let b2 = if b < i { b } else { b + 1 };
                            assert(after[a] == before[a2]);
                            assert(after[b] == before[b2]);
                        }
                        if after.contains(manager_to_remove) {
                            let j = choose|j: int| 0 <= j < after.len() && after[j] == manager_to_remove;
                            let j2 = if j < i { j } else { j + 1 };
                            assert(before[j2] == before[i as int]);
                        }
                    }
                }
                return Ok(());
            }
            i = i + 1;
        }
        proof {
            if old(self).managers@.contains(manager_to_remove) {
                let j = choose|j: int| 0 <= j < self.managers@.len() && self.managers@[j] == manager_to_remove;
                assert(self.managers@[j] != manager_to_remove);
            }
        }
        Err(VaultError::ManagerNotFound)
    }

    /// Registers an emergency contact, who may pause the vault.
    pub fn add_emergency_contact(&mut self, contact: Pubkey) -> (r: Result<(), VaultError>)
        ensures
            r == add_contact_check(*old(self), contact),
            r is Ok ==> *final(self) == (SecureVault { emergency_contacts: final(self).emergency_contacts, ..*old(self) })
                && final(self).emergency_contacts@ == old(self).emergency_contacts@.push(contact),
            r is Err ==> *final(self) == *old(self),
            old(self).wf() ==> final(self).wf(),
    {
        if self.emergency_contacts.len() >= MAX_EMERGENCY_CONTACTS {
            return Err(VaultError::MaxEmergencyContactsReached);
        }
        if contains_key(&self.emergency_contacts, &contact) {
            return Err(VaultError::InvalidAccount);
        }
        self.emergency_contacts.push(contact);
        Ok(())
    }
}

/// One record of the audit log: an attempted operation and its outcome.
#[derive(Clone, Copy, Debug)]
pub struct AuditLog {
    pub operation_id: u64,
    pub operation_type: OperationType,
    pub performer: Pubkey,
    pub timestamp: i64,
    pub amount: Option<u64>,
    pub target_account: Option<Pubkey>,
    pub success: bool,
    pub error_code: Option<u32>,
    pub gas_used: u64,
    pub bump: u8,
}

/// Day bucket of an audit record, as stored in its address seeds.
pub open spec fn audit_day(timestamp: i64) -> u32 {
    day_of(timestamp as int) as u32
}

impl AuditLog {
    /// A record of an attempt not yet marked as succeeded or failed.
    pub fn new(operation_id: u64, operation_type: OperationType, performer: Pubkey, timestamp: i64) -> (r: AuditLog)
        ensures
            r == (AuditLog {
                operation_id,
                operation_type,
                performer,
                timestamp,
                amount: None,
                target_account: None,
                success: false,
                error_code: None,
                gas_used: 0,
                bump: 0,
            }),
    {
        AuditLog {
            operation_id,
            operation_type,
            performer,
            timestamp,
            amount: None,
            target_account: None,
            success: false,
            error_code: None,
            gas_used: 0,
            bump: 0,
        }
    }

    pub fn set_bump(&mut self, bump: u8)
        ensures
            *final(self) == (AuditLog { bump, ..*old(self) }),
    {
        self.bump = bump;
    }

    /// Seeds of the record's derived address: the tag, the vault, the day
    /// bucket and the operation id.
    pub fn get_seeds(&self, vault_pubkey: &Pubkey) -> (r: Vec<Vec<u8>>)
        ensures
            seeds_view(r@) == seq![
                audit_seed_tag(),
                vault_pubkey.bytes@,
                le_bytes(audit_day(self.timestamp) as nat, 4),
                le_bytes(self.operation_id as nat, 8),
            ],
    {
        let day: u32 = day_number(self.timestamp) as u32;
        let mut day_bytes: Vec<u8> = Vec::new();
        push_u32(&mut day_bytes, day);
        let mut id_bytes: Vec<u8> = Vec::new();
        push_u64(&mut id_bytes, self.operation_id);
        let mut r: Vec<Vec<u8>> = Vec::new();
        r.push(audit_seed_bytes());
        r.push(copy_bytes(&vault_pubkey.bytes));
        r.push(day_bytes);
        r.push(id_bytes);
        assert(seeds_view(r@) =~= seq![
            audit_seed_tag(),
            vault_pubkey.bytes@,
            le_bytes(audit_day(self.timestamp) as nat, 4),
            le_bytes(self.operation_id as nat, 8),
        ]);
        r
    }

    pub fn mark_success(&mut self, gas_used: u64)
        ensures
            *final(self) == (AuditLog { success: true, gas_used, error_code: None, ..*old(self) }),
    {
        self.success = true;
        self.gas_used = gas_used;
        self.error_code = None;
    }

    pub fn mark_failure(&mut self, error_code: u32, gas_used: u64)
        ensures
            *final(self) == (AuditLog { success: false, gas_used, error_code: Some(error_code), ..*old(self) }),
    {
        self.success = false;
        self.gas_used = gas_used;
        self.error_code = Some(error_code);
    }

    pub fn with_amount(self, amount: u64) -> (r: AuditLog)
        ensures
            r == (AuditLog { amount: Some(amount), ..self }),
    {
        AuditLog { amount: Some(amount), ..self }
    }

    pub fn with_target_account(self, target: Pubkey) -> (r: AuditLog)
        ensures
            r == (AuditLog { target_account: Some(target), ..self }),
    {
        AuditLog { target_account: Some(target), ..self }
    }
}

/// An operation waiting for its time-lock and its signatures.
#[derive(Clone, Debug)]
pub struct PendingOperation {
    pub id: u64,
    pub operation_type: OperationType,
    pub performer: Pubkey,
    pub amount: u64,
    pub target_account: Pubkey,
    pub scheduled_execution: i64,
    pub required_signatures: Vec<Pubkey>,
    pub received_signatures: Vec<Pubkey>,
    pub created_at: i64,
    /// `Pending` until executed or cancelled (`Rejected`).
    pub status: OperationStatus,
    pub bump: u8,
}

/// Every required signer has signed.
pub open spec fn signatures_complete(op: PendingOperation) -> bool {
    forall|k: Pubkey| #[trigger] op.required_signatures@.contains(k) ==> op.received_signatures@.contains(k)
}

/// The operation is past its expiry window at `now`.
pub open spec fn expired_at(op: PendingOperation, now: i64, expiry_hours: i64) -> bool {
    now > op.created_at + expiry_hours * 3600
}

pub open spec fn ready_at(op: PendingOperation, now: i64) -> bool {
    now >= op.scheduled_execution && signatures_complete(op)
}

/// The status of `op` as seen at `now`.
pub open spec fn status_at(op: PendingOperation, now: i64) -> OperationStatus {
    if op.status != OperationStatus::Pending {
        op.status
    } else if expired_at(op, now, OPERATION_EXPIRY_HOURS) {
        OperationStatus::Expired
    } else if ready_at(op, now) {
        OperationStatus::Approved
    } else {
        OperationStatus::Pending
    }
}

/// What a signature by `signer` on `op` would do: `None` when it is
/// accepted, else why not.
pub open spec fn signature_check(op: PendingOperation, signer: Pubkey) -> Option<VaultError> {
    if op.received_signatures@.contains(signer) {
        Some(VaultError::AlreadySigned)
    } else if !op.required_signatures@.contains(signer) {
        Some(VaultError::Unauthorized)
    } else {
        None
    }
}

impl PendingOperation {
    /// Signatures only come from required signers, each at most once.
    pub open spec fn wf(&self) -> bool {
        &&& forall|k: Pubkey| #[trigger] self.received_signatures@.contains(k) ==> self.required_signatures@.contains(k)
        &&& self.received_signatures@.no_duplicates()
    }

    /// A pending operation created at `current_timestamp`, runnable after
    /// `delay_seconds`, with no signature yet.
    pub fn new(
        id: u64,
        operation_type: OperationType,
        performer: Pubkey,
        amount: u64,
        target_account: Pubkey,
        delay_seconds: i64,
        required_signatures: Vec<Pubkey>,
        current_timestamp: i64,
    ) -> (r: PendingOperation)
        requires
            i64::MIN <= current_timestamp + delay_seconds <= i64::MAX,
        ensures
            r.id == id,
            r.operation_type == operation_type,
            r.performer == performer,
            r.amount == amount,
            r.target_account == target_account,
            r.scheduled_execution == current_timestamp + delay_seconds,
            r.required_signatures == required_signatures,
            r.received_signatures@ == Seq::<Pubkey>::empty(),
            r.created_at == current_timestamp,
            r.status == OperationStatus::Pending,
            r.bump == 0,
            r.wf(),
    {
        PendingOperation {
            id,
            operation_type,
            performer,
            amount,
            target_account,
            scheduled_execution: current_timestamp + delay_seconds,
            required_signatures,
            received_signatures: Vec::new(),
            created_at: current_timestamp,
            status: OperationStatus::Pending,
            bump: 0,
        }
    }

    pub fn set_bump(&mut self, bump: u8)
        ensures
            *final(self) == (PendingOperation { bump, ..*old(self) }),
    {
        self.bump = bump;
    }

    /// Seeds of the operation's derived address: the tag, the vault and the id.
    pub fn get_seeds(&self, vault_pubkey: &Pubkey) -> (r: Vec<Vec<u8>>)
        ensures
            seeds_view(r@) == seq![pending_seed_tag(), vault_pubkey.bytes@, le_bytes(self.id as nat, 8)],
    {
        let mut id_bytes: Vec<u8> = Vec::new();
        push_u64(&mut id_bytes, self.id);
        let mut r: Vec<Vec<u8>> = Vec::new();
        r.push(pending_seed_bytes());
        r.push(copy_bytes(&vault_pubkey.bytes));
        r.push(id_bytes);
        assert(seeds_view(r@) =~= seq![pending_seed_tag(), vault_pubkey.bytes@, le_bytes(self.id as nat, 8)]);
        r
    }

    /// Both conditions hold: the time-lock has elapsed and every required
    /// signer has signed.
    pub fn is_ready_to_execute(&self, current_timestamp: i64) -> (r: bool)
        ensures
            r == ready_at(*self, current_timestamp),
    {
        current_timestamp >= self.scheduled_execution && self.has_sufficient_signatures()
    }

    /// Records the signature of `signer`; refuses a signer who is not
    /// required or has already signed, and then changes nothing.
    pub fn add_signature(&mut self, signer: Pubkey) -> (r: bool)
        ensures
            r == (signature_check(*old(self), signer) is None),
            r ==> *final(self) == (PendingOperation { received_signatures: final(self).received_signatures, ..*old(self) })
                && final(self).received_signatures@ == old(self).received_signatures@.push(signer),
            !r ==> *final(self) == *old(self),
            old(self).wf() ==> final(self).wf(),
    {
        if contains_key(&self.received_signatures, &signer) {
            return false;
        }
        if !contains_key(&self.required_signatures, &signer) {
            return false;
        }
        let ghost before = self.received_signatures@;
        self.received_signatures.push(signer);
        proof {
            let after = self.received_signatures@;
            assert forall|x: Pubkey| #[trigger] after.contains(x) implies before.contains(x) || x == signer by {
                let j = choose|j: int| 0 <= j < after.len() && after[j] == x;
                if j < before.len() {
                    assert(before[j] == x);
                }
            }
            if before.no_duplicates() {
                assert forall|a: int, b: int| 0 <= a < after.len() && 0 <= b < after.len() && a != b
                    implies after[a] != after[b] by {
                    if a < before.len() && b < before.len() {
                    } else if a < before.len() {
                        assert(before.contains(after[a]));
                    } else if b < before.len() {
                        assert(before.contains(after[b]));
                    }
                }
            }
        }
        true
    }

    /// Every required signer has signed.
    pub fn has_sufficient_signatures(&self) -> (r: bool)
        ensures
            r == signatures_complete(*self),
    {
        let mut i: usize = 0;
        while i < self.required_signatures.len()
            invariant
                0 <= i <= self.required_signatures@.len(),
                forall|j: int| 0 <= j < i ==> self.received_signatures@.contains(#[trigger] self.required_signatures@[j]),
            decreases self.required_signatures@.len() - i,
        {
            if !contains_key(&self.received_signatures, &self.required_signatures[i]) {
                assert(self.required_signatures@.contains(self.required_signatures@[i as int]));
                return false;
            }
            i = i + 1;
        }
        proof {
            assert forall|k: Pubkey| #[trigger] self.required_signatures@.contains(k)
                implies self.received_signatures@.contains(k) by {
                let j = choose|j: int| 0 <= j < self.required_signatures@.len() && self.required_signatures@[j] == k;
                assert(self.received_signatures@.contains(self.required_signatures@[j]));
            }
        }
        true
    }

    /// Checks the invariant: every recorded signer is required and none
    /// signed twice.
    pub fn is_well_formed(&self) -> (r: bool)
        ensures
            r == self.wf(),
    {
        let mut i: usize = 0;
        while i < self.received_signatures.len()
            invariant
                0 <= i <= self.received_signatures@.len(),
                forall|j: int| 0 <= j < i ==> self.required_signatures@.contains(#[trigger] self.received_signatures@[j]),
            decreases self.received_signatures@.len() - i,
        {
            if !contains_key(&self.required_signatures, &self.received_signatures[i]) {
                assert(self.received_signatures@.contains(self.received_signatures@[i as int]));
                return false;
            }
            i = i + 1;
        }
        proof {
            assert forall|k: Pubkey| #[trigger] self.received_signatures@.contains(k) implies self.required_signatures@.contains(k) by {
                let j = choose|j: int| 0 <= j < self.received_signatures@.len() && self.received_signatures@[j] == k;
                assert(self.required_signatures@.contains(self.received_signatures@[j]));
            }
        }
        crate::pubkey::all_distinct(&self.received_signatures)
    }

    /// Whether more than `expiry_hours` have passed since creation.
    pub fn is_expired(&self, current_timestamp: i64, expiry_hours: i64) -> (r: bool)
        ensures
            r == expired_at(*self, current_timestamp, expiry_hours),
    {
        let expiry_time: i128 = self.created_at as i128 + expiry_hours as i128 * 3600;
        current_timestamp as i128 > expiry_time
    }

    /// The status of the operation as seen at `current_timestamp`.
    pub fn status_at(&self, current_timestamp: i64) -> (r: OperationStatus)
        ensures
            r == status_at(*self, current_timestamp),
    {
        match self.status {
            OperationStatus::Pending => {
                if self.is_expired(current_timestamp, OPERATION_EXPIRY_HOURS) {
                    OperationStatus::Expired
                } else if self.is_ready_to_execute(current_timestamp) {
                    OperationStatus::Approved
                } else {
                    OperationStatus::Pending
                }
            },
            other => other,
        }
    }
}

} // verus!
