use secure_vault::audit::AuditTrail;
use secure_vault::error::VaultError;
use secure_vault::processor::Processor;
use secure_vault::pubkey::Pubkey;
use secure_vault::state::{OperationStatus, OperationType, SecureVault, SecurityConfig};

fn key(n: u8) -> Pubkey {
    Pubkey::new_from_array([n; 32])
}

const DAY: i64 = 86400;

fn funded_vault(admin: Pubkey, min_signatures: u8, t0: i64, balance: u64) -> (SecureVault, AuditTrail) {
    let mut vault = Processor::process_initialize_vault(admin, SecurityConfig::default(), min_signatures, t0).unwrap();
    let mut trail = AuditTrail::new(0);
    Processor::process_deposit(&mut vault, &mut trail, admin, balance, t0 + 60).unwrap();
    (vault, trail)
}

#[test]
fn timelocked_withdraw_with_two_managers() {
    let (a, b, c, r) = (key(1), key(2), key(3), key(9));
    let t0: i64 = 19_700 * DAY + 1000;
    let (mut vault, mut trail) = funded_vault(a, 2, t0, 10_000_000);
    assert_eq!(vault.min_signatures_required, 2);
    Processor::process_add_manager(&mut vault, &mut trail, a, b, t0 + 200).unwrap();
    Processor::process_add_manager(&mut vault, &mut trail, a, c, t0 + 300).unwrap();
    assert_eq!(vault.managers, vec![b, c]);

    let created = t0 + 400;
    let mut op = Processor::process_create_timelock_operation(
        &mut vault, &mut trail, a, OperationType::Withdraw, 5_000_000, r, 3600, created,
    )
    .unwrap();
    assert_eq!(op.scheduled_execution, created + 3600);
    assert_eq!(op.required_signatures, vec![a, b, c]);
    assert_eq!(op.received_signatures, vec![a]);

    Processor::process_sign_pending_operation(&mut op, &mut trail, b, created + 10).unwrap();
    Processor::process_sign_pending_operation(&mut op, &mut trail, c, created + 20).unwrap();

    let early = Processor::process_execute_pending_operation(&mut vault, &mut op, &mut trail, a, created + 3599);
    assert_eq!(early, Err(VaultError::TimeLockNotElapsed));
    assert_eq!(vault.total_balance, 10_000_000);
    assert_eq!(op.status, OperationStatus::Pending);

    let before = trail.entries.len();
    Processor::process_execute_pending_operation(&mut vault, &mut op, &mut trail, a, created + 3600).unwrap();
    assert_eq!(vault.total_balance, 5_000_000);
    assert_eq!(op.status, OperationStatus::Executed);
    assert_eq!(trail.entries.len(), before + 1);
    let last = trail.entries[trail.entries.len() - 1];
    assert!(last.success);
    assert_eq!(last.amount, Some(5_000_000));
    assert_eq!(last.target_account, Some(r));
    assert_eq!(last.error_code, None);
}

#[test]
fn pause_blocks_withdraw_until_admin_resumes() {
    let (a, b, e) = (key(1), key(2), key(5));
    let t0: i64 = 19_700 * DAY + 1000;
    let (mut vault, mut trail) = funded_vault(a, 1, t0, 1_000_000);
    Processor::process_add_manager(&mut vault, &mut trail, a, b, t0 + 200).unwrap();
    vault.add_emergency_contact(e).unwrap();

    Processor::process_emergency_pause(&mut vault, &mut trail, e, t0 + 300).unwrap();
    assert!(vault.is_paused);

    let w = Processor::process_withdraw(&mut vault, &mut trail, a, 100, key(9), t0 + 400);
    assert_eq!(w, Err(VaultError::VaultPaused));
    assert_eq!(vault.total_balance, 1_000_000);

    let by_manager = Processor::process_resume(&mut vault, &mut trail, b, t0 + 500);
    assert_eq!(by_manager, Err(VaultError::Unauthorized));
    assert!(vault.is_paused);

    Processor::process_resume(&mut vault, &mut trail, a, t0 + 600).unwrap();
    assert!(!vault.is_paused);
    Processor::process_withdraw(&mut vault, &mut trail, a, 100, key(9), t0 + 700).unwrap();
    assert_eq!(vault.total_balance, 999_900);
}

#[test]
fn daily_operation_budget_resets_next_day() {
    let a = key(1);
    let day = 19_700 * DAY;
    let t0 = day + 10;
    let mut vault = Processor::process_initialize_vault(a, SecurityConfig::default(), 1, t0).unwrap();
    assert_eq!(vault.config.max_daily_operations, 100);
    let mut trail = AuditTrail::new(0);
    for i in 1..=100i64 {
        Processor::process_deposit(&mut vault, &mut trail, a, 1, t0 + 60 * i).unwrap();
    }
    assert_eq!(vault.daily_operation_count, 100);
    let over = Processor::process_deposit(&mut vault, &mut trail, a, 1, t0 + 60 * 101);
    assert_eq!(over, Err(VaultError::RateLimited));
    assert_eq!(vault.total_balance, 100);

    let next_day = day + DAY + 5;
    Processor::process_deposit(&mut vault, &mut trail, a, 1, next_day).unwrap();
    assert_eq!(vault.daily_operation_count, 1);
    assert_eq!(vault.total_balance, 101);
    assert_eq!(trail.entries.len(), 102);
    assert_eq!(trail.entries[100].error_code, Some(VaultError::RateLimited.error_code()));
}

#[test]
fn daily_withdrawal_limit_leaves_balance_alone() {
    let a = key(1);
    let t0: i64 = 19_700 * DAY + 1000;
    let (mut vault, mut trail) = funded_vault(a, 1, t0, 5_000);
    vault.daily_withdrawal_limit = 1_000;
    Processor::process_withdraw(&mut vault, &mut trail, a, 600, key(9), t0 + 200).unwrap();
    assert_eq!(vault.daily_withdrawn_amount, 600);
    let over = Processor::process_withdraw(&mut vault, &mut trail, a, 401, key(9), t0 + 300);
    assert_eq!(over, Err(VaultError::DailyLimitExceeded));
    assert_eq!(vault.total_balance, 4_400);
    // A new UTC day resets the daily amount.
    Processor::process_withdraw(&mut vault, &mut trail, a, 401, key(9), 19_701 * DAY + 1).unwrap();
    assert_eq!(vault.total_balance, 3_999);
    assert_eq!(vault.daily_withdrawn_amount, 401);
}

#[test]
fn second_signature_from_same_signer_is_refused() {
    let (a, b) = (key(1), key(2));
    let t0: i64 = 19_700 * DAY + 1000;
    let (mut vault, mut trail) = funded_vault(a, 1, t0, 1_000);
    Processor::process_add_manager(&mut vault, &mut trail, a, b, t0 + 200).unwrap();
    let mut op = Processor::process_create_timelock_operation(
        &mut vault, &mut trail, a, OperationType::Withdraw, 10, key(9), 0, t0 + 300,
    )
    .unwrap();
    Processor::process_sign_pending_operation(&mut op, &mut trail, b, t0 + 310).unwrap();
    assert_eq!(op.received_signatures, vec![a, b]);
    let again = Processor::process_sign_pending_operation(&mut op, &mut trail, b, t0 + 320);
    assert_eq!(again, Err(VaultError::AlreadySigned));
    assert_eq!(op.received_signatures, vec![a, b]);
    let stranger = Processor::process_sign_pending_operation(&mut op, &mut trail, key(7), t0 + 330);
    assert_eq!(stranger, Err(VaultError::Unauthorized));
}

#[test]
fn execution_needs_every_signature() {
    let (a, b) = (key(1), key(2));
    let t0: i64 = 19_700 * DAY + 1000;
    let (mut vault, mut trail) = funded_vault(a, 1, t0, 1_000);
    Processor::process_add_manager(&mut vault, &mut trail, a, b, t0 + 200).unwrap();
    let mut op = Processor::process_create_timelock_operation(
        &mut vault, &mut trail, a, OperationType::Withdraw, 10, key(9), 0, t0 + 300,
    )
    .unwrap();
    assert_eq!(op.scheduled_execution, t0 + 300 + 3600);
    let unsigned = Processor::process_execute_pending_operation(&mut vault, &mut op, &mut trail, a, t0 + 4000);
    assert_eq!(unsigned, Err(VaultError::InsufficientSignatures));
    let expired = Processor::process_sign_pending_operation(&mut op, &mut trail, b, t0 + 300 + DAY + 1);
    assert_eq!(expired, Err(VaultError::OperationExpired));
}

#[test]
fn cancel_rules() {
    let (a, b) = (key(1), key(2));
    let t0: i64 = 19_700 * DAY + 1000;
    let (mut vault, mut trail) = funded_vault(a, 1, t0, 1_000);
    Processor::process_add_manager(&mut vault, &mut trail, a, b, t0 + 200).unwrap();
    let mut op = Processor::process_create_timelock_operation(
        &mut vault, &mut trail, b, OperationType::Withdraw, 10, key(9), 0, t0 + 300,
    )
    .unwrap();
    assert_eq!(op.received_signatures, vec![b]);
    let stranger = Processor::process_cancel_pending_operation(&vault, &mut op, &mut trail, key(7), t0 + 310);
    assert_eq!(stranger, Err(VaultError::Unauthorized));
    Processor::process_cancel_pending_operation(&vault, &mut op, &mut trail, b, t0 + 320).unwrap();
    assert_eq!(op.status, OperationStatus::Rejected);
    let again = Processor::process_cancel_pending_operation(&vault, &mut op, &mut trail, a, t0 + 330);
    assert_eq!(again, Err(VaultError::OperationCancelled));
}

#[test]
fn timelocked_manager_change_and_admin_transfer() {
    let (a, b, c) = (key(1), key(2), key(3));
    let t0: i64 = 19_700 * DAY + 1000;
    let (mut vault, mut trail) = funded_vault(a, 1, t0, 1_000);
    let mut add = Processor::process_create_timelock_operation(
        &mut vault, &mut trail, a, OperationType::AddManager, 0, b, 0, t0 + 200,
    )
    .unwrap();
    assert_eq!(add.scheduled_execution, t0 + 200);
    Processor::process_execute_pending_operation(&mut vault, &mut add, &mut trail, a, t0 + 200).unwrap();
    assert_eq!(vault.managers, vec![b]);

    let mut transfer = Processor::process_create_timelock_operation(
        &mut vault, &mut trail, a, OperationType::TransferAdmin, 0, c, 0, t0 + 300,
    )
    .unwrap();
    assert_eq!(transfer.scheduled_execution, t0 + 300 + 43200);
    Processor::process_sign_pending_operation(&mut transfer, &mut trail, b, t0 + 310).unwrap();
    Processor::process_execute_pending_operation(&mut vault, &mut transfer, &mut trail, b, t0 + 300 + 43200).unwrap();
    assert_eq!(vault.admin, c);
}

#[test]
fn audit_trail_numbers_every_attempt() {
    let a = key(1);
    let t0: i64 = 19_700 * DAY + 1000;
    let (mut vault, mut trail) = funded_vault(a, 1, t0, 1_000);
    let bad = Processor::process_withdraw(&mut vault, &mut trail, key(8), 10, key(9), t0 + 200);
    assert_eq!(bad, Err(VaultError::Unauthorized));
    Processor::process_withdraw(&mut vault, &mut trail, a, 10, key(9), t0 + 300).unwrap();
    let ids: Vec<u64> = trail.entries.iter().map(|e| e.operation_id).collect();
    assert_eq!(ids, vec![0, 1, 2]);
    assert!(!trail.entries[1].success);
    assert_eq!(trail.entries[1].error_code, Some(3));
    assert!(trail.entries[2].success);
    assert_eq!(trail.next_operation_id, 3);
}

#[test]
fn update_config_rejects_cap_below_manager_count() {
    let (a, b, c) = (key(1), key(2), key(3));
    let t0: i64 = 19_700 * DAY + 1000;
    let (mut vault, mut trail) = funded_vault(a, 1, t0, 1_000);
    Processor::process_add_manager(&mut vault, &mut trail, a, b, t0 + 200).unwrap();
    Processor::process_add_manager(&mut vault, &mut trail, a, c, t0 + 300).unwrap();
    let mut tight = SecurityConfig::default();
    tight.max_managers = 1;
    let r = Processor::process_update_config(&mut vault, &mut trail, a, tight, t0 + 400);
    assert_eq!(r, Err(VaultError::InvalidSecurityConfig));
    Processor::process_update_config(&mut vault, &mut trail, a, SecurityConfig::high_security(), t0 + 500).unwrap();
    assert_eq!(vault.config, SecurityConfig::high_security());
}

#[test]
fn large_direct_withdraw_needs_timelock() {
    let a = key(1);
    let t0: i64 = 19_700 * DAY + 1000;
    let (mut vault, mut trail) = funded_vault(a, 1, t0, 5_000_000_000);
    let r = Processor::process_withdraw(&mut vault, &mut trail, a, 1_000_000_000, key(9), t0 + 200);
    assert_eq!(r, Err(VaultError::InsufficientSignatures));
    let op = Processor::process_create_timelock_operation(
        &mut vault, &mut trail, a, OperationType::Withdraw, 1_000_000_000, key(9), 0, t0 + 300,
    )
    .unwrap();
    assert_eq!(op.scheduled_execution, t0 + 300 + 7200);
}

#[test]
fn initialize_rejects_bad_input() {
    let zero = Pubkey::zeroed();
    assert_eq!(
        Processor::process_initialize_vault(zero, SecurityConfig::default(), 1, 10).err(),
        Some(VaultError::InvalidPubkey)
    );
    assert_eq!(
        Processor::process_initialize_vault(key(1), SecurityConfig::default(), 0, 10).err(),
        Some(VaultError::InvalidSecurityConfig)
    );
    let mut bad = SecurityConfig::default();
    bad.max_daily_operations = 0;
    assert_eq!(
        Processor::process_initialize_vault(key(1), bad, 1, 10).err(),
        Some(VaultError::InvalidSecurityConfig)
    );
}
