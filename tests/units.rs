use secure_vault::audit::{AuditManager, AuditReport, AuditSearchCriteria, AuditTrail};
use secure_vault::processor::Processor;
use secure_vault::codec::{
    decode_audit, decode_pending, decode_vault, encode_audit, encode_pending, encode_vault, AUDIT_RECORD_LEN,
    PENDING_RECORD_LEN, VAULT_RECORD_LEN,
};
use secure_vault::error::{ErrorContext, ErrorSeverity, VaultError};
use secure_vault::instruction::{RiskLevel, VaultInstruction};
use secure_vault::pubkey::Pubkey;
use secure_vault::security::SecurityManager;
use secure_vault::state::{AuditLog, OperationType, PendingOperation, Role, SecureVault, SecurityConfig};
use secure_vault::utils::{Utils, VaultUtils};
use secure_vault::validation::{ValidationUtils, Validator};

fn key(n: u8) -> Pubkey {
    Pubkey::new_from_array([n; 32])
}

#[test]
fn error_codes_follow_declaration_order() {
    assert_eq!(VaultError::InvalidInstruction.error_code(), 0);
    assert_eq!(VaultError::Unauthorized.error_code(), 3);
    assert_eq!(VaultError::PDAAddressMismatch.error_code(), 49);
    assert_eq!(VaultError::InvalidPDASigner.error_code(), 61);
    assert_eq!(VaultError::from_code(3), Some(VaultError::Unauthorized));
    assert_eq!(VaultError::from_code(1000), None);
    assert_eq!(VaultError::RateLimited.message(), "Too many operations in short time - rate limited");
}

#[test]
fn error_severity_and_notification() {
    assert_eq!(VaultError::SuspiciousActivity.severity_level(), ErrorSeverity::Critical);
    assert_eq!(VaultError::Unauthorized.severity_level(), ErrorSeverity::High);
    assert_eq!(VaultError::RateLimited.severity_level(), ErrorSeverity::Low);
    assert!(VaultError::Unauthorized.requires_emergency_notification());
    assert!(!VaultError::InvalidPDA.requires_emergency_notification());
    assert!(VaultError::TimeLockNotElapsed.is_recoverable());
    assert!(!VaultError::Unauthorized.is_recoverable());
    assert_eq!(VaultError::VaultPaused.detailed_description(), "El vault esta pausado y no puede procesar transacciones");
    assert_eq!(VaultError::TooManySeeds.detailed_description(), "Error ocurrido");
}

#[test]
fn error_context_builders() {
    let c = ErrorContext::new().with_operation_id(7).with_account_key("k".to_string()).with_additional_info("i".to_string());
    assert_eq!(c.operation_id, Some(7));
    assert_eq!(c.account_key, Some("k".to_string()));
    assert_eq!(c.additional_info, Some("i".to_string()));
    assert_eq!(c.timestamp, 0);
}

#[test]
fn configs_and_bounds() {
    assert!(SecurityConfig::default().is_valid());
    assert!(SecurityConfig::high_security().is_valid());
    let mut c = SecurityConfig::default();
    c.max_managers = 11;
    assert!(!c.is_valid());
    assert_eq!(SecurityManager::validate_security_config(&c), Err(VaultError::InvalidSecurityConfig));
    assert_eq!(Validator::validate_security_config(&SecurityConfig::default()), Ok(()));
}

#[test]
fn roles_and_authorization() {
    let (a, m, e, u) = (key(1), key(2), key(3), key(4));
    let mut v = SecureVault::new(a, 100);
    v.add_manager(m).unwrap();
    v.add_emergency_contact(e).unwrap();
    assert_eq!(v.get_role(&a), Some(Role::Admin));
    assert_eq!(v.get_role(&m), Some(Role::Manager));
    assert_eq!(v.get_role(&e), Some(Role::EmergencyContact));
    assert_eq!(v.get_role(&u), Some(Role::User));
    assert!(v.has_role(&u, Role::User));
    assert!(v.check_authorization(&u, &OperationType::Deposit));
    assert!(v.check_authorization(&m, &OperationType::Withdraw));
    assert!(!v.check_authorization(&e, &OperationType::Withdraw));
    assert!(v.check_authorization(&e, &OperationType::EmergencyPause));
    assert!(!v.check_authorization(&m, &OperationType::Resume));
    assert!(v.is_valid_state());
}

#[test]
fn manager_list_rules() {
    let a = key(1);
    let mut v = SecureVault::new(a, 100);
    assert_eq!(v.add_manager(a), Err(VaultError::AdminCannotBeManager));
    for i in 2..7u8 {
        v.add_manager(key(i)).unwrap();
    }
    assert_eq!(v.add_manager(key(2)), Err(VaultError::MaxManagersReached));
    assert_eq!(v.managers.len(), 5);
    v.remove_manager(key(4)).unwrap();
    assert_eq!(v.managers, vec![key(2), key(3), key(5), key(6)]);
    assert_eq!(v.add_manager(key(2)), Err(VaultError::ManagerAlreadyExists));
    assert_eq!(v.remove_manager(key(4)), Err(VaultError::ManagerNotFound));
}

#[test]
fn withdraw_checks() {
    let mut v = SecureVault::new(key(1), 86400 * 10);
    v.total_balance = 1000;
    v.daily_withdrawal_limit = 500;
    v.daily_withdrawn_amount = 400;
    assert_eq!(v.can_withdraw(2000, 86400 * 10 + 5), Err(VaultError::InsufficientBalance));
    assert_eq!(v.can_withdraw(101, 86400 * 10 + 5), Err(VaultError::DailyLimitExceeded));
    assert_eq!(v.can_withdraw(100, 86400 * 10 + 5), Ok(()));
    assert_eq!(v.can_withdraw(500, 86400 * 11), Ok(()));
    v.reset_daily_limits_if_needed(86400 * 11);
    assert_eq!(v.daily_withdrawn_amount, 0);
    v.is_paused = true;
    assert_eq!(v.can_withdraw(1, 86400 * 11), Err(VaultError::VaultPaused));
}

#[test]
fn policy_engine_values() {
    let mut v = SecureVault::new(key(1), 1000);
    v.add_manager(key(2)).unwrap();
    v.add_manager(key(3)).unwrap();
    assert!(SecurityManager::requires_multisig(&v, &OperationType::UpdateConfig, None));
    assert!(!SecurityManager::requires_multisig(&v, &OperationType::Withdraw, Some(10)));
    assert!(SecurityManager::requires_multisig(&v, &OperationType::Withdraw, Some(1_000_000_000)));
    assert!(!SecurityManager::requires_multisig(&v, &OperationType::Deposit, None));
    assert_eq!(SecurityManager::calculate_required_delay(&v, &OperationType::Deposit, Some(5)), 0);
    assert_eq!(SecurityManager::calculate_required_delay(&v, &OperationType::Withdraw, Some(5)), 3600);
    assert_eq!(SecurityManager::calculate_required_delay(&v, &OperationType::Withdraw, Some(2_000_000_000)), 7200);
    assert_eq!(SecurityManager::calculate_required_delay(&v, &OperationType::TransferAdmin, None), 43200);
    assert_eq!(SecurityManager::get_required_signers(&v, &OperationType::Withdraw, Some(5)), vec![key(1), key(2)]);
    v.min_signatures_required = 5;
    assert_eq!(SecurityManager::get_required_signers(&v, &OperationType::Withdraw, Some(5)), vec![key(1), key(2), key(3)]);
    assert_eq!(SecurityManager::check_rate_limits(&v, 1030), Err(VaultError::RateLimited));
    assert_eq!(SecurityManager::check_rate_limits(&v, 1060), Ok(()));
    assert!(!SecurityManager::is_emergency_mode(&v));
    assert_eq!(SecurityManager::verify_vault_integrity(&v), Ok(()));
    let mut broken = SecureVault::new(key(1), 1000);
    broken.managers.push(key(1));
    assert_eq!(SecurityManager::verify_vault_integrity(&broken), Err(VaultError::InvalidAccount));
}

#[test]
fn security_measures_reset_and_pause() {
    let mut v = SecureVault::new(key(1), 86400 * 3);
    v.config.auto_pause_on_suspicious_activity = true;
    v.daily_withdrawn_amount = 7;
    v.daily_withdrawal_limit = 10;
    SecurityManager::apply_security_measures(&mut v, &OperationType::Deposit, 86400 * 4 + 1, true).unwrap();
    assert_eq!(v.daily_withdrawn_amount, 0);
    assert_eq!(v.operation_count, 1);
    assert_eq!(v.daily_operation_count, 1);
    assert_eq!(v.last_operation_timestamp, 86400 * 4 + 1);
    assert!(v.is_paused);
}

#[test]
fn validator_errors() {
    assert_eq!(Validator::validate_amount(0, None, None), Err(VaultError::AmountTooSmall));
    assert_eq!(Validator::validate_amount(5, Some(10), None), Err(VaultError::AmountTooSmall));
    assert_eq!(Validator::validate_amount(50, Some(10), Some(20)), Err(VaultError::AmountTooLarge));
    assert_eq!(Validator::validate_amount(15, Some(10), Some(20)), Ok(()));
    assert_eq!(Validator::validate_timestamp(0), Err(VaultError::InvalidTimestamp));
    assert_eq!(Validator::validate_no_overflow(u64::MAX, 1), Err(VaultError::ArithmeticOverflow));
    assert_eq!(Validator::validate_no_overflow(2, 3), Ok(5));
    assert_eq!(Validator::validate_no_underflow(2, 3), Err(VaultError::ArithmeticUnderflow));
    assert_eq!(Validator::validate_no_underflow(5, 3), Ok(2));
    assert_eq!(Validator::validate_managers_list(&vec![key(1), key(1)], 5), Err(VaultError::ManagerAlreadyExists));
    assert_eq!(Validator::validate_managers_list(&vec![key(1), key(2)], 1), Err(VaultError::MaxManagersReached));
    let v = SecureVault::new(key(1), 1000);
    assert_eq!(Validator::validate_manager_exists(&v, &key(2)), Err(VaultError::ManagerNotFound));
    assert_eq!(Validator::validate_emergency_operation(&v, &key(2), &OperationType::EmergencyPause), Err(VaultError::EmergencyContactUnauthorized));
    assert_eq!(Validator::validate_emergency_operation(&v, &key(1), &OperationType::Deposit), Err(VaultError::InvalidEmergencyOperation));
    assert_eq!(Validator::validate_authorization(&v, &key(2), &OperationType::Withdraw), Err(VaultError::Unauthorized));
    assert_eq!(Validator::validate_vault_initialization(&Pubkey::zeroed(), &SecurityConfig::default()), Err(VaultError::InvalidPubkey));
    let mut funded = SecureVault::new(key(1), 1000);
    funded.total_balance = 50;
    assert_eq!(Validator::validate_withdrawal_request(&funded, &key(1), 10, &Pubkey::zeroed(), 2000), Err(VaultError::InvalidAccount));
    assert_eq!(Validator::validate_withdrawal_request(&funded, &key(1), 60, &key(9), 2000), Err(VaultError::InsufficientBalance));
    assert_eq!(Validator::validate_withdrawal_request(&funded, &key(2), 10, &key(9), 2000), Err(VaultError::Unauthorized));
    assert_eq!(Validator::validate_withdrawal_request(&funded, &key(1), 10, &key(9), 2000), Ok(()));
    let op = PendingOperation::new(0, OperationType::Withdraw, key(1), 5, key(9), 0, vec![key(1)], 1000);
    assert_eq!(Validator::validate_required_signatures(&op, &funded), Err(VaultError::InsufficientSignatures));
    assert_eq!(Utils::generate_operation_id(&funded, &key(1), 5), 0);
    assert_eq!(Validator::validate_operation_context(&v, &OperationType::Deposit, &key(5), Some(0), 2000), Err(VaultError::AmountTooSmall));
}

#[test]
fn day_helpers() {
    assert!(ValidationUtils::same_day(86400, 86400 * 2 - 1));
    assert!(!ValidationUtils::same_day(86400 - 1, 86400));
    assert_eq!(ValidationUtils::days_between(86400, 86400 * 5 + 3), 4);
    assert!(ValidationUtils::is_large_amount(1_000_000_000, &SecurityConfig::default()));
    assert!(!ValidationUtils::is_large_amount(999_999_999, &SecurityConfig::default()));
}

#[test]
fn derived_address_checks() {
    let program = key(77);
    let seeds = VaultUtils::generate_vault_seeds(&key(1));
    assert_eq!(seeds[0], b"secure_vault".to_vec());
    let (addr, bump) = Utils::find_program_address(&seeds, &program).unwrap();
    let expected = solana_program::pubkey::Pubkey::find_program_address(
        &[b"secure_vault", &[1u8; 32]],
        &solana_program::pubkey::Pubkey::new_from_array([77u8; 32]),
    );
    assert_eq!(addr.to_bytes(), expected.0.to_bytes());
    assert_eq!(bump, expected.1);
    assert_eq!(Utils::verify_pda(&addr, &seeds, &program), Ok(bump));
    assert_eq!(Utils::verify_pda(&addr, &seeds, &program), Utils::verify_pda(&addr, &seeds, &program));
    assert_eq!(Utils::verify_pda(&key(5), &seeds, &program), Err(VaultError::PDAAddressMismatch));
    assert_eq!(Utils::verify_pda(&addr, &vec![], &program), Err(VaultError::EmptySeeds));
    assert_eq!(Utils::verify_pda(&addr, &vec![vec![1u8]; 17], &program), Err(VaultError::TooManySeeds));
    assert_eq!(Utils::verify_pda(&addr, &vec![vec![1u8; 33]], &program), Err(VaultError::SeedsExceedMaxLength));
    assert_eq!(Utils::verify_pda(&addr, &vec![vec![1u8]; 16], &program), Err(VaultError::PDADerivationFailed));
    assert_eq!(SecureVault::new(key(1), 5).get_seeds(), seeds);
}

#[test]
fn record_seeds_layout() {
    let s = VaultUtils::generate_operation_seeds(&key(3), 258);
    assert_eq!(s, vec![b"pending_op".to_vec(), vec![3u8; 32], vec![2, 1, 0, 0, 0, 0, 0, 0]]);
    let log = AuditLog::new(5, OperationType::Deposit, key(1), 86400 * 3 + 7);
    let a = log.get_seeds(&key(3));
    assert_eq!(a, vec![b"audit".to_vec(), vec![3u8; 32], vec![3, 0, 0, 0], vec![5, 0, 0, 0, 0, 0, 0, 0]]);
    assert_eq!(VaultUtils::generate_audit_seeds(&key(3), 3, 5), a);
}

#[test]
fn hashing_and_rent() {
    let d = Utils::calculate_hash(b"abc");
    assert_eq!(d[0..4], [0xba, 0x78, 0x16, 0xbf]);
    assert_eq!(d[28..32], [0xf2, 0x00, 0x15, 0xad]);
    assert_eq!(Utils::verify_data_integrity(b"abc", &d), Ok(true));
    assert_eq!(Utils::verify_data_integrity(b"abd", &d), Ok(false));
    assert_eq!(Utils::calculate_rent_exempt_minimum(0), Ok(890_880));
    assert_eq!(Utils::calculate_rent_exempt_minimum(617), Ok(5_185_200));
    assert_eq!(Utils::calculate_rent_exempt_minimum(20_000_000), Err(VaultError::InvalidAccountSize));
}

#[test]
fn records_round_trip() {
    let mut v = SecureVault::new(key(1), 12345);
    v.add_manager(key(2)).unwrap();
    v.add_manager(key(3)).unwrap();
    v.add_emergency_contact(key(4)).unwrap();
    v.total_balance = 99;
    v.last_reset_day = -5;
    let bytes = encode_vault(&v);
    assert_eq!(bytes.len(), VAULT_RECORD_LEN);
    let back = decode_vault(&bytes).unwrap();
    assert_eq!(back.managers, v.managers);
    assert_eq!(back.emergency_contacts, v.emergency_contacts);
    assert_eq!(back.total_balance, 99);
    assert_eq!(back.last_reset_day, -5);
    assert_eq!(back.config, v.config);
    assert_eq!(back.admin, v.admin);
    assert_eq!(encode_vault(&back), bytes);

    let log = AuditLog::new(9, OperationType::Withdraw, key(1), 777).with_amount(5).with_target_account(key(2));
    let lb = encode_audit(&log);
    assert_eq!(lb.len(), AUDIT_RECORD_LEN);
    let lback = decode_audit(&lb).unwrap();
    assert_eq!(lback.amount, Some(5));
    assert_eq!(lback.target_account, Some(key(2)));
    assert_eq!(lback.operation_type, OperationType::Withdraw);
    assert_eq!(encode_audit(&lback), lb);

    let op = PendingOperation::new(4, OperationType::AddManager, key(1), 0, key(6), 10, vec![key(1), key(2)], 50);
    let pb = encode_pending(&op);
    assert_eq!(pb.len(), PENDING_RECORD_LEN);
    let pback = decode_pending(&pb).unwrap();
    assert_eq!(pback.required_signatures, op.required_signatures);
    assert_eq!(pback.scheduled_execution, 60);
    assert_eq!(encode_pending(&pback), pb);

    let mut corrupt = lb.clone();
    corrupt[0] = 9;
    assert!(decode_audit(&corrupt).is_none());
    assert!(decode_audit(&lb[..50]).is_none());
}

#[test]
fn integer_layout_matches_borsh() {
    let log = AuditLog::new(0x0102030405060708, OperationType::Deposit, key(1), -2);
    let lb = encode_audit(&log);
    assert_eq!(lb[2..10].to_vec(), borsh::to_vec(&0x0102030405060708u64).unwrap());
    assert_eq!(lb[43..51].to_vec(), borsh::to_vec(&-2i64).unwrap());
}

#[test]
fn audit_queries() {
    let mut trail = AuditTrail::new(10);
    for i in 0..5i64 {
        trail.record(OperationType::Deposit, key((i % 2) as u8 + 1), 100 + i, Some(i as u64 * 10), None, Ok(()));
    }
    trail.record(OperationType::Withdraw, key(1), 200, Some(7), None, Err(VaultError::RateLimited));
    let page = AuditManager::get_audit_logs(&trail, 12, 2);
    assert_eq!(page.iter().map(|e| e.operation_id).collect::<Vec<_>>(), vec![12, 13]);
    let all = AuditManager::get_audit_logs(&trail, 0, 100);
    assert_eq!(all.len(), 6);
    assert!(AuditManager::get_audit_logs(&trail, 99, 3).is_empty());
    assert!(AuditManager::verify_audit_integrity(&trail.entries));
    let mut broken = trail.entries.clone();
    broken.remove(2);
    assert!(!AuditManager::verify_audit_integrity(&broken));
    let c = AuditSearchCriteria::new().with_performer(key(1)).with_amount_range(10, 40);
    let found = AuditManager::search_logs(&trail.entries, &c);
    assert_eq!(found.iter().map(|e| e.operation_id).collect::<Vec<_>>(), vec![12, 14]);
    let mut failures = AuditSearchCriteria::new();
    failures.success_only = Some(false);
    let f = AuditManager::search_logs(&trail.entries, &failures.with_operation_type(OperationType::Withdraw));
    assert_eq!(f.len(), 1);
    assert_eq!(f[0].error_code, Some(VaultError::RateLimited.error_code()));
    let window = AuditManager::search_logs(&trail.entries, &AuditSearchCriteria::new().with_date_range(101, 103));
    assert_eq!(window.len(), 3);
}

#[test]
fn instruction_classification() {
    let w = VaultInstruction::Withdraw { amount: 10, recipient: key(1) };
    assert_eq!(w.get_operation_type(), Some(OperationType::Withdraw));
    assert_eq!(w.get_risk_level(), RiskLevel::Medium);
    assert!(!w.requires_multisig());
    let big = VaultInstruction::Withdraw { amount: 2_000_000_000, recipient: key(1) };
    assert_eq!(big.get_risk_level(), RiskLevel::High);
    assert!(big.requires_multisig());
    assert_eq!(VaultInstruction::TransferAdmin { new_admin: key(2) }.get_risk_level(), RiskLevel::Critical);
    assert!(VaultInstruction::TransferAdmin { new_admin: key(2) }.requires_multisig());
    assert_eq!(VaultInstruction::GetVaultInfo.get_operation_type(), None);
    assert_eq!(VaultInstruction::Deposit { amount: 1 }.get_risk_level(), RiskLevel::Low);
}

fn policy() -> secure_vault::security::AnomalyPolicy {
    secure_vault::security::AnomalyPolicy {
        amount_multiplier: 3,
        frequency_window: 600,
        max_operations_per_window: 4,
        max_privileged_changes_per_window: 2,
    }
}

#[test]
fn anomaly_classes() {
    let mut trail = AuditTrail::new(0);
    trail.record(OperationType::Withdraw, key(1), 100, Some(100), None, Ok(()));
    trail.record(OperationType::Withdraw, key(1), 200, Some(300), None, Ok(()));
    let h = &trail.entries;
    // Average past withdrawal is 200: up to 600 passes, above is anomalous.
    assert!(!SecurityManager::detect_suspicious_activity(h, &OperationType::Withdraw, &key(2), Some(600), 10_000, &policy()));
    assert!(SecurityManager::detect_suspicious_activity(h, &OperationType::Withdraw, &key(2), Some(601), 10_000, &policy()));
    assert!(!SecurityManager::detect_suspicious_activity(h, &OperationType::Deposit, &key(2), Some(10_000), 10_000, &policy()));
    // Frequency of one performer within the window.
    let mut busy = AuditTrail::new(0);
    for i in 0..4i64 {
        busy.record(OperationType::Deposit, key(1), 1000 + i, Some(1), None, Ok(()));
    }
    assert!(SecurityManager::detect_suspicious_activity(&busy.entries, &OperationType::Deposit, &key(1), Some(1), 1100, &policy()));
    assert!(!SecurityManager::detect_suspicious_activity(&busy.entries, &OperationType::Deposit, &key(2), Some(1), 1100, &policy()));
    assert!(!SecurityManager::detect_suspicious_activity(&busy.entries, &OperationType::Deposit, &key(1), Some(1), 1700, &policy()));
    // A cluster of privileged changes.
    let mut changes = AuditTrail::new(0);
    changes.record(OperationType::AddManager, key(1), 500, None, None, Ok(()));
    changes.record(OperationType::UpdateConfig, key(1), 510, None, None, Ok(()));
    assert!(SecurityManager::detect_suspicious_activity(&changes.entries, &OperationType::RemoveManager, &key(3), None, 520, &policy()));
    assert!(!SecurityManager::detect_suspicious_activity(&changes.entries, &OperationType::Deposit, &key(3), Some(1), 520, &policy()));
    assert_eq!(
        Validator::validate_not_suspicious(&changes.entries, &OperationType::TransferAdmin, &key(3), None, 520, &policy()),
        Err(VaultError::SuspiciousActivity)
    );
}

#[test]
fn screening_pauses_when_policy_says_so() {
    let a = key(1);
    let t0: i64 = 19_700 * 86400 + 1000;
    let mut config = SecurityConfig::high_security();
    config.min_time_between_operations = 60;
    let mut vault = Processor::process_initialize_vault(a, config, 1, t0).unwrap();
    let mut trail = AuditTrail::new(0);
    Processor::process_deposit(&mut vault, &mut trail, a, 1_000, t0 + 60).unwrap();
    Processor::process_withdraw(&mut vault, &mut trail, a, 10, key(9), t0 + 120).unwrap();
    let fine = Processor::process_screening(&mut vault, &mut trail, a, OperationType::Withdraw, Some(20), t0 + 180, &policy());
    assert_eq!(fine, Ok(()));
    assert_eq!(trail.entries.len(), 2);
    let odd = Processor::process_screening(&mut vault, &mut trail, a, OperationType::Withdraw, Some(500), t0 + 180, &policy());
    assert_eq!(odd, Err(VaultError::SuspiciousActivity));
    assert!(vault.is_paused);
    assert_eq!(trail.entries.len(), 3);
    assert_eq!(trail.entries[2].error_code, Some(VaultError::SuspiciousActivity.error_code()));
}

#[test]
fn audit_report_over_period() {
    let mut trail = AuditTrail::new(0);
    trail.record(OperationType::Deposit, key(1), 100, Some(50), None, Ok(()));
    trail.record(OperationType::Withdraw, key(2), 110, Some(20), None, Err(VaultError::Unauthorized));
    trail.record(OperationType::Withdraw, key(1), 120, Some(30), None, Ok(()));
    trail.record(OperationType::Deposit, key(1), 130, Some(5), None, Err(VaultError::RateLimited));
    trail.record(OperationType::Deposit, key(1), 900, Some(7), None, Ok(()));
    let r = AuditManager::generate_audit_report(&trail.entries, 100, 200);
    assert_eq!(r.total_operations, 4);
    assert_eq!(r.successful_operations, 2);
    assert_eq!(r.failed_operations, 2);
    assert_eq!(r.total_volume, 80);
    assert_eq!(r.serious_failures, 1);
    assert_eq!(r.compliance_score, 50);
    assert!(r.requires_attention());
    let quiet = AuditManager::generate_audit_report(&trail.entries, 125, 200);
    assert_eq!(quiet.total_operations, 1);
    assert!(!quiet.requires_attention());
    assert_eq!(AuditReport::new(0, 1).calculate_compliance_score(), 100);
}

#[test]
fn account_sizes() {
    assert_eq!(VaultUtils::calculate_vault_space(5), VAULT_RECORD_LEN);
    assert_eq!(VaultUtils::calculate_audit_space(10), 10 * AUDIT_RECORD_LEN as u64);
    let mut v = SecureVault::new(key(1), 5);
    assert_eq!(VaultUtils::validate_vault_config(&v), Ok(()));
    v.config.max_daily_operations = 0;
    assert_eq!(VaultUtils::validate_vault_config(&v), Err(VaultError::InvalidSecurityConfig));
}

#[test]
fn retrospective_patterns() {
    use_patterns();
}

fn use_patterns() {
    let mut trail = AuditTrail::new(0);
    trail.record(OperationType::Withdraw, key(1), 1000, Some(100), None, Ok(()));
    trail.record(OperationType::Withdraw, key(1), 1010, Some(1000), None, Ok(()));
    trail.record(OperationType::AddManager, key(1), 1020, None, Some(key(2)), Ok(()));
    trail.record(OperationType::UpdateConfig, key(1), 1030, None, None, Ok(()));
    trail.record(OperationType::TransferAdmin, key(1), 1040, None, Some(key(3)), Ok(()));
    let found = AuditManager::detect_anomalous_patterns(&trail.entries, 1100, 500, &policy());
    let kinds: Vec<secure_vault::audit::PatternType> = found.iter().map(|p| p.pattern_type).collect();
    assert_eq!(
        kinds,
        vec![
            secure_vault::audit::PatternType::LargeAmountPattern,
            secure_vault::audit::PatternType::HighFrequencyOperations,
            secure_vault::audit::PatternType::ConfigurationChanges,
        ]
    );
    assert_eq!(found[0].frequency, 1);
    assert_eq!(found[0].first_occurrence, 1010);
    assert_eq!(found[1].first_occurrence, 1040);
    assert_eq!(found[2].frequency, 1);
    assert_eq!(found[2].last_occurrence, 1040);
    assert_eq!(found[2].severity, secure_vault::audit::PatternSeverity::High);
    let outside = AuditManager::detect_anomalous_patterns(&trail.entries, 5000, 500, &policy());
    assert!(outside.is_empty());
}
