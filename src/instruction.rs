use vstd::prelude::*;
use crate::pubkey::Pubkey;
use crate::state::{SecurityConfig, OperationType, default_config};
use crate::security::privileged;

verus! {

/// The requests a vault accepts.
#[derive(Clone, Debug)]
pub enum VaultInstruction {
    InitializeVault { config: SecurityConfig, min_signatures_required: u8 },
    Deposit { amount: u64 },
    Withdraw { amount: u64, recipient: Pubkey },
    EmergencyPause,
    Resume,
    AddManager { new_manager: Pubkey },
    RemoveManager { manager_to_remove: Pubkey },
    UpdateSecurityConfig { new_config: SecurityConfig },
    TransferAdmin { new_admin: Pubkey },
    CreateTimeLockOperation { operation_type: OperationType, amount: u64, target_account: Pubkey, delay_seconds: i64 },
    SignPendingOperation { operation_id: u64 },
    ExecutePendingOperation { operation_id: u64 },
    CancelPendingOperation { operation_id: u64 },
    EmergencyWithdraw { amount: u64, emergency_recipient: Pubkey },
    GetVaultInfo,
    GetAuditLogs { from_operation_id: u64, limit: u32 },
}

/// Risk of a request: Low for deposits and queries, Medium for small
/// withdrawals, High for large withdrawals and policy or manager changes,
/// Critical for admin transfer and emergencies.
#[derive(Clone, Copy, Debug, PartialEq, Eq, Structural)]
pub enum RiskLevel {
    Low,
    Medium,
    High,
    Critical,
}

/// The operation kind a request performs on the vault, if any.
pub open spec fn operation_of(i: VaultInstruction) -> Option<OperationType> {
    match i {
        VaultInstruction::Deposit { .. } => Some(OperationType::Deposit),
        VaultInstruction::Withdraw { .. } => Some(OperationType::Withdraw),
        VaultInstruction::EmergencyPause => Some(OperationType::EmergencyPause),
        VaultInstruction::Resume => Some(OperationType::Resume),
        VaultInstruction::AddManager { .. } => Some(OperationType::AddManager),
        VaultInstruction::RemoveManager { .. } => Some(OperationType::RemoveManager),
        VaultInstruction::UpdateSecurityConfig { .. } => Some(OperationType::UpdateConfig),
        VaultInstruction::TransferAdmin { .. } => Some(OperationType::TransferAdmin),
        VaultInstruction::CreateTimeLockOperation { operation_type, .. } => Some(operation_type),
        VaultInstruction::EmergencyWithdraw { .. } => Some(OperationType::EmergencyWithdraw),
        _ => None,
    }
}

/// The amount a request moves, if any.
pub open spec fn amount_of(i: VaultInstruction) -> Option<u64> {
    match i {
        VaultInstruction::Deposit { amount } => Some(amount),
        VaultInstruction::Withdraw { amount, .. } => Some(amount),
        VaultInstruction::CreateTimeLockOperation { amount, .. } => Some(amount),
        VaultInstruction::EmergencyWithdraw { amount, .. } => Some(amount),
        _ => None,
    }
}

/// Whether a request needs several signatures under the default policy: a
/// privileged operation without an amount, or with one from the threshold up.
pub open spec fn instruction_needs_multisig(i: VaultInstruction) -> bool {
    match operation_of(i) {
        None => false,
        Some(op) => privileged(op) && match amount_of(i) {
            None => true,
            Some(a) => a >= default_config().require_multisig_for_large_amounts,
        },
    }
}

pub open spec fn risk_of(i: VaultInstruction) -> RiskLevel {
    match i {
        VaultInstruction::InitializeVault { .. } => RiskLevel::High,
        VaultInstruction::Deposit { .. } | VaultInstruction::GetVaultInfo | VaultInstruction::GetAuditLogs { .. } => RiskLevel::Low,
        VaultInstruction::Withdraw { amount, .. } => if amount >= default_config().require_multisig_for_large_amounts {
            RiskLevel::High
        } else {
            RiskLevel::Medium
        },
        VaultInstruction::SignPendingOperation { .. } | VaultInstruction::CancelPendingOperation { .. } => RiskLevel::Medium,
        VaultInstruction::AddManager { .. }
        | VaultInstruction::RemoveManager { .. }
        | VaultInstruction::UpdateSecurityConfig { .. }
        | VaultInstruction::CreateTimeLockOperation { .. }
        | VaultInstruction::ExecutePendingOperation { .. } => RiskLevel::High,
        VaultInstruction::TransferAdmin { .. }
        | VaultInstruction::EmergencyPause
        | VaultInstruction::Resume
        | VaultInstruction::EmergencyWithdraw { .. } => RiskLevel::Critical,
    }
}

impl VaultInstruction {
    pub fn get_operation_type(&self) -> (r: Option<OperationType>)
        ensures
            r == operation_of(*self),
    {
        match self {
            VaultInstruction::Deposit { .. } => Some(OperationType::Deposit),
            VaultInstruction::Withdraw { .. } => Some(OperationType::Withdraw),
            VaultInstruction::EmergencyPause => Some(OperationType::EmergencyPause),
            VaultInstruction::Resume => Some(OperationType::Resume),
            VaultInstruction::AddManager { .. } => Some(OperationType::AddManager),
            VaultInstruction::RemoveManager { .. } => Some(OperationType::RemoveManager),
            VaultInstruction::UpdateSecurityConfig { .. } => Some(OperationType::UpdateConfig),
            VaultInstruction::TransferAdmin { .. } => Some(OperationType::TransferAdmin),
            VaultInstruction::CreateTimeLockOperation { operation_type, .. } => Some(*operation_type),
            VaultInstruction::EmergencyWithdraw { .. } => Some(OperationType::EmergencyWithdraw),
            _ => None,
        }
    }

    /// Whether the request needs several signatures under the default policy.
    pub fn requires_multisig(&self) -> (r: bool)
        ensures
            r == instruction_needs_multisig(*self),
    {
        let threshold = SecurityConfig::default().require_multisig_for_large_amounts;
        match self {
            VaultInstruction::Withdraw { amount, .. } | VaultInstruction::EmergencyWithdraw { amount, .. } => *amount >= threshold,
            VaultInstruction::AddManager { .. }
            | VaultInstruction::RemoveManager { .. }
            | VaultInstruction::UpdateSecurityConfig { .. }
            | VaultInstruction::TransferAdmin { .. } => true,
            VaultInstruction::CreateTimeLockOperation { operation_type, amount, .. } => {
                match operation_type {
                    OperationType::Withdraw
                    | OperationType::EmergencyWithdraw
                    | OperationType::AddManager
                    | OperationType::RemoveManager
                    | OperationType::UpdateConfig
                    | OperationType::TransferAdmin => *amount >= threshold,
                    _ => false,
                }
            },
            _ => false,
        }
    }

    pub fn get_risk_level(&self) -> (r: RiskLevel)
        ensures
            r == risk_of(*self),
    {
        let threshold = SecurityConfig::default().require_multisig_for_large_amounts;
        match self {
            VaultInstruction::InitializeVault { .. } => RiskLevel::High,
            VaultInstruction::Deposit { .. } | VaultInstruction::GetVaultInfo | VaultInstruction::GetAuditLogs { .. } => RiskLevel::Low,
            VaultInstruction::Withdraw { amount, .. } => if *amount >= threshold {
                RiskLevel::High
            } else {
                RiskLevel::Medium
            },
            VaultInstruction::SignPendingOperation { .. } | VaultInstruction::CancelPendingOperation { .. } => RiskLevel::Medium,
            VaultInstruction::AddManager { .. }
            | VaultInstruction::RemoveManager { .. }
            | VaultInstruction::UpdateSecurityConfig { .. }
            | VaultInstruction::CreateTimeLockOperation { .. }
            | VaultInstruction::ExecutePendingOperation { .. } => RiskLevel::High,
            _ => RiskLevel::Critical,
        }
    }
}

} // verus!
