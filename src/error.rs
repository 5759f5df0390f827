use vstd::prelude::*;

verus! {

/// Every failure the vault can report. The numeric code of a variant is its
/// position in this list.
#[derive(Clone, Copy, Debug, PartialEq, Eq, Structural)]
pub enum VaultError {
    InvalidInstruction,
    VaultPaused,
    InsufficientBalance,
    Unauthorized,
    InvalidAccount,
    AccountNotInitialized,
    AccountAlreadyInitialized,
    DailyLimitExceeded,
    RateLimited,
    InsufficientSignatures,
    TimeLockNotElapsed,
    OperationExpired,
    MaxManagersReached,
    ManagerNotFound,
    CannotRemoveLastManager,
    InvalidSecurityConfig,
    AmountTooLarge,
    AmountTooSmall,
    InvalidOperationType,
    SuspiciousActivity,
    EmergencyModeActive,
    InvalidTimestamp,
    ArithmeticOverflow,
    ArithmeticUnderflow,
    InvalidPubkey,
    SerializationError,
    DeserializationError,
    InvalidAccountOwner,
    InvalidAccountSize,
    OperationNotFound,
    OperationAlreadyExecuted,
    AlreadySigned,
    InvalidOperationStatus,
    AuditLogFull,
    InvalidAuditLogEntry,
    ClockUnavailable,
    InvalidPDA,
    CPIFailed,
    NotRentExempt,
    InvalidTokenAccount,
    TokenTransferFailed,
    InvalidMintAccount,
    SlippageExceeded,
    StalePriceData,
    PriceManipulation,
    InvalidOracle,
    EmergencyContactUnauthorized,
    InvalidEmergencyOperation,
    InvalidSeeds,
    PDAAddressMismatch,
    IncorrectProgramId,
    InvalidBumpSeed,
    PDACreationFailed,
    PDAValidationFailed,
    SeedsExceedMaxLength,
    TooManySeeds,
    EmptySeeds,
    PDANotFoundOnCurve,
    PDASpaceInsufficient,
    PDAAlreadyExists,
    PDADerivationFailed,
    InvalidPDASigner,
    ManagerAlreadyExists,
    AdminCannotBeManager,
    MaxEmergencyContactsReached,
    OperationCancelled,
}

/// The numeric code of each error.
pub open spec fn code_of(e: VaultError) -> u32 {
    match e {
        VaultError::InvalidInstruction => 0,
        VaultError::VaultPaused => 1,
        VaultError::InsufficientBalance => 2,
        VaultError::Unauthorized => 3,
        VaultError::InvalidAccount => 4,
        VaultError::AccountNotInitialized => 5,
        VaultError::AccountAlreadyInitialized => 6,
        VaultError::DailyLimitExceeded => 7,
        VaultError::RateLimited => 8,
        VaultError::InsufficientSignatures => 9,
        VaultError::TimeLockNotElapsed => 10,
        VaultError::OperationExpired => 11,
        VaultError::MaxManagersReached => 12,
        VaultError::ManagerNotFound => 13,
        VaultError::CannotRemoveLastManager => 14,
        VaultError::InvalidSecurityConfig => 15,
        VaultError::AmountTooLarge => 16,
        VaultError::AmountTooSmall => 17,
        VaultError::InvalidOperationType => 18,
        VaultError::SuspiciousActivity => 19,
        VaultError::EmergencyModeActive => 20,
        VaultError::InvalidTimestamp => 21,
        VaultError::ArithmeticOverflow => 22,
        VaultError::ArithmeticUnderflow => 23,
        VaultError::InvalidPubkey => 24,
        VaultError::SerializationError => 25,
        VaultError::DeserializationError => 26,
        VaultError::InvalidAccountOwner => 27,
        VaultError::InvalidAccountSize => 28,
        VaultError::OperationNotFound => 29,
        VaultError::OperationAlreadyExecuted => 30,
        VaultError::AlreadySigned => 31,
        VaultError::InvalidOperationStatus => 32,
        VaultError::AuditLogFull => 33,
        VaultError::InvalidAuditLogEntry => 34,
        VaultError::ClockUnavailable => 35,
        VaultError::InvalidPDA => 36,
        VaultError::CPIFailed => 37,
        VaultError::NotRentExempt => 38,
        VaultError::InvalidTokenAccount => 39,
        VaultError::TokenTransferFailed => 40,
        VaultError::InvalidMintAccount => 41,
        VaultError::SlippageExceeded => 42,
        VaultError::StalePriceData => 43,
        VaultError::PriceManipulation => 44,
        VaultError::InvalidOracle => 45,
        VaultError::EmergencyContactUnauthorized => 46,
        VaultError::InvalidEmergencyOperation => 47,
        VaultError::InvalidSeeds => 48,
        VaultError::PDAAddressMismatch => 49,
        VaultError::IncorrectProgramId => 50,
        VaultError::InvalidBumpSeed => 51,
        VaultError::PDACreationFailed => 52,
        VaultError::PDAValidationFailed => 53,
        VaultError::SeedsExceedMaxLength => 54,
        VaultError::TooManySeeds => 55,
        VaultError::EmptySeeds => 56,
        VaultError::PDANotFoundOnCurve => 57,
        VaultError::PDASpaceInsufficient => 58,
        VaultError::PDAAlreadyExists => 59,
        VaultError::PDADerivationFailed => 60,
        VaultError::InvalidPDASigner => 61,
        VaultError::ManagerAlreadyExists => 62,
        VaultError::AdminCannotBeManager => 63,
        VaultError::MaxEmergencyContactsReached => 64,
        VaultError::OperationCancelled => 65,
    }
}

/// The error whose numeric code is `code`, if any.
pub open spec fn error_of_code(code: u32) -> Option<VaultError> {
    match code {
        0 => Some(VaultError::InvalidInstruction),
        1 => Some(VaultError::VaultPaused),
        2 => Some(VaultError::InsufficientBalance),
        3 => Some(VaultError::Unauthorized),
        4 => Some(VaultError::InvalidAccount),
        5 => Some(VaultError::AccountNotInitialized),
        6 => Some(VaultError::AccountAlreadyInitialized),
        7 => Some(VaultError::DailyLimitExceeded),
        8 => Some(VaultError::RateLimited),
        9 => Some(VaultError::InsufficientSignatures),
        10 => Some(VaultError::TimeLockNotElapsed),
        11 => Some(VaultError::OperationExpired),
        12 => Some(VaultError::MaxManagersReached),
        13 => Some(VaultError::ManagerNotFound),
        14 => Some(VaultError::CannotRemoveLastManager),
        15 => Some(VaultError::InvalidSecurityConfig),
        16 => Some(VaultError::AmountTooLarge),
        17 => Some(VaultError::AmountTooSmall),
        18 => Some(VaultError::InvalidOperationType),
        19 => Some(VaultError::SuspiciousActivity),
        20 => Some(VaultError::EmergencyModeActive),
        21 => Some(VaultError::InvalidTimestamp),
        22 => Some(VaultError::ArithmeticOverflow),
        23 => Some(VaultError::ArithmeticUnderflow),
        24 => Some(VaultError::InvalidPubkey),
        25 => Some(VaultError::SerializationError),
        26 => Some(VaultError::DeserializationError),
        27 => Some(VaultError::InvalidAccountOwner),
        28 => Some(VaultError::InvalidAccountSize),
        29 => Some(VaultError::OperationNotFound),
        30 => Some(VaultError::OperationAlreadyExecuted),
        31 => Some(VaultError::AlreadySigned),
        32 => Some(VaultError::InvalidOperationStatus),
        33 => Some(VaultError::AuditLogFull),
        34 => Some(VaultError::InvalidAuditLogEntry),
        35 => Some(VaultError::ClockUnavailable),
        36 => Some(VaultError::InvalidPDA),
        37 => Some(VaultError::CPIFailed),
        38 => Some(VaultError::NotRentExempt),
        39 => Some(VaultError::InvalidTokenAccount),
        40 => Some(VaultError::TokenTransferFailed),
        41 => Some(VaultError::InvalidMintAccount),
        42 => Some(VaultError::SlippageExceeded),
        43 => Some(VaultError::StalePriceData),
        44 => Some(VaultError::PriceManipulation),
        45 => Some(VaultError::InvalidOracle),
        46 => Some(VaultError::EmergencyContactUnauthorized),
        47 => Some(VaultError::InvalidEmergencyOperation),
        48 => Some(VaultError::InvalidSeeds),
        49 => Some(VaultError::PDAAddressMismatch),
        50 => Some(VaultError::IncorrectProgramId),
        51 => Some(VaultError::InvalidBumpSeed),
        52 => Some(VaultError::PDACreationFailed),
        53 => Some(VaultError::PDAValidationFailed),
        54 => Some(VaultError::SeedsExceedMaxLength),
        55 => Some(VaultError::TooManySeeds),
        56 => Some(VaultError::EmptySeeds),
        57 => Some(VaultError::PDANotFoundOnCurve),
        58 => Some(VaultError::PDASpaceInsufficient),
        59 => Some(VaultError::PDAAlreadyExists),
        60 => Some(VaultError::PDADerivationFailed),
        61 => Some(VaultError::InvalidPDASigner),
        62 => Some(VaultError::ManagerAlreadyExists),
        63 => Some(VaultError::AdminCannotBeManager),
        64 => Some(VaultError::MaxEmergencyContactsReached),
        65 => Some(VaultError::OperationCancelled),
        _ => None,
    }
}

/// The short English message of each error.
pub open spec fn message_of(e: VaultError) -> Seq<char> {
    match e {
        VaultError::InvalidInstruction => "Invalid instruction"@,
        VaultError::VaultPaused => "Vault is paused"@,
        VaultError::InsufficientBalance => "Insufficient balance in vault"@,
        VaultError::Unauthorized => "Unauthorized access - insufficient permissions"@,
        VaultError::InvalidAccount => "Invalid account provided"@,
        VaultError::AccountNotInitialized => "Account not initialized"@,
        VaultError::AccountAlreadyInitialized => "Account already initialized"@,
        VaultError::DailyLimitExceeded => "Daily withdrawal limit exceeded"@,
        VaultError::RateLimited => "Too many operations in short time - rate limited"@,
        VaultError::InsufficientSignatures => "Operation requires multiple signatures"@,
        VaultError::TimeLockNotElapsed => "Time lock period not elapsed"@,
        VaultError::OperationExpired => "Operation has expired"@,
        VaultError::MaxManagersReached => "Maximum number of managers reached"@,
        VaultError::ManagerNotFound => "Manager not found"@,
        VaultError::CannotRemoveLastManager => "Cannot remove the last manager"@,
        VaultError::InvalidSecurityConfig => "Invalid security configuration"@,
        VaultError::AmountTooLarge => "Amount exceeds maximum allowed"@,
        VaultError::AmountTooSmall => "Amount below minimum required"@,
        VaultError::InvalidOperationType => "Invalid operation type for current context"@,
        VaultError::SuspiciousActivity => "Suspicious activity detected - operation blocked"@,
        VaultError::EmergencyModeActive => "Emergency mode active - limited operations only"@,
        VaultError::InvalidTimestamp => "Invalid timestamp"@,
        VaultError::ArithmeticOverflow => "Arithmetic overflow"@,
        VaultError::ArithmeticUnderflow => "Arithmetic underflow"@,
        VaultError::InvalidPubkey => "Invalid pubkey"@,
        VaultError::SerializationError => "Account data serialization failed"@,
        VaultError::DeserializationError => "Account data deserialization failed"@,
        VaultError::InvalidAccountOwner => "Invalid account owner"@,
        VaultError::InvalidAccountSize => "Invalid account size"@,
        VaultError::OperationNotFound => "Operation not found"@,
        VaultError::OperationAlreadyExecuted => "Operation already executed"@,
        VaultError::AlreadySigned => "Operation already signed by this account"@,
        VaultError::InvalidOperationStatus => "Invalid operation status"@,
        VaultError::AuditLogFull => "Audit log full - cannot add more entries"@,
        VaultError::InvalidAuditLogEntry => "Invalid audit log entry"@,
        VaultError::ClockUnavailable => "System clock unavailable"@,
        VaultError::InvalidPDA => "Invalid program derived address"@,
        VaultError::CPIFailed => "Cross-program invocation failed"@,
        VaultError::NotRentExempt => "Rent exempt minimum not met"@,
        VaultError::InvalidTokenAccount => "Invalid token account"@,
        VaultError::TokenTransferFailed => "Token transfer failed"@,
        VaultError::InvalidMintAccount => "Invalid mint account"@,
        VaultError::SlippageExceeded => "Slippage tolerance exceeded"@,
        VaultError::StalePriceData => "Oracle price too stale"@,
        VaultError::PriceManipulation => "Price manipulation detected"@,
        VaultError::InvalidOracle => "Invalid oracle account"@,
        VaultError::EmergencyContactUnauthorized => "Emergency contact not authorized"@,
        VaultError::InvalidEmergencyOperation => "Invalid emergency operation"@,
        VaultError::InvalidSeeds => "Invalid seeds provided for PDA generation"@,
        VaultError::PDAAddressMismatch => "PDA address mismatch - expected different address"@,
        VaultError::IncorrectProgramId => "Incorrect program ID for PDA"@,
        VaultError::InvalidBumpSeed => "Invalid bump seed for PDA"@,
        VaultError::PDACreationFailed => "PDA creation failed"@,
        VaultError::PDAValidationFailed => "PDA validation failed"@,
        VaultError::SeedsExceedMaxLength => "Seeds exceed maximum length"@,
        VaultError::TooManySeeds => "Too many seeds provided for PDA"@,
        VaultError::EmptySeeds => "Empty seeds array provided"@,
        VaultError::PDANotFoundOnCurve => "PDA not found on curve - invalid bump"@,
        VaultError::PDASpaceInsufficient => "PDA account space insufficient"@,
        VaultError::PDAAlreadyExists => "PDA account already exists"@,
        VaultError::PDADerivationFailed => "PDA derivation failed"@,
        VaultError::InvalidPDASigner => "Invalid PDA signer"@,
        VaultError::ManagerAlreadyExists => "Manager already registered"@,
        VaultError::AdminCannotBeManager => "Admin cannot be a manager"@,
        VaultError::MaxEmergencyContactsReached => "Maximum number of emergency contacts reached"@,
        VaultError::OperationCancelled => "Operation was cancelled"@,
    }
}

impl VaultError {
    /// Numeric error code, stable across versions.
    pub fn error_code(&self) -> (r: u32)
        ensures
            r == code_of(*self),
    {
        match self {
            VaultError::InvalidInstruction => 0,
            VaultError::VaultPaused => 1,
            VaultError::InsufficientBalance => 2,
            VaultError::Unauthorized => 3,
            VaultError::InvalidAccount => 4,
            VaultError::AccountNotInitialized => 5,
            VaultError::AccountAlreadyInitialized => 6,
            VaultError::DailyLimitExceeded => 7,
            VaultError::RateLimited => 8,
            VaultError::InsufficientSignatures => 9,
            VaultError::TimeLockNotElapsed => 10,
            VaultError::OperationExpired => 11,
            VaultError::MaxManagersReached => 12,
            VaultError::ManagerNotFound => 13,
            VaultError::CannotRemoveLastManager => 14,
            VaultError::InvalidSecurityConfig => 15,
            VaultError::AmountTooLarge => 16,
            VaultError::AmountTooSmall => 17,
            VaultError::InvalidOperationType => 18,
            VaultError::SuspiciousActivity => 19,
            VaultError::EmergencyModeActive => 20,
            VaultError::InvalidTimestamp => 21,
            VaultError::ArithmeticOverflow => 22,
            VaultError::ArithmeticUnderflow => 23,
            VaultError::InvalidPubkey => 24,
            VaultError::SerializationError => 25,
            VaultError::DeserializationError => 26,
            VaultError::InvalidAccountOwner => 27,
            VaultError::InvalidAccountSize => 28,
            VaultError::OperationNotFound => 29,
            VaultError::OperationAlreadyExecuted => 30,
            VaultError::AlreadySigned => 31,
            VaultError::InvalidOperationStatus => 32,
            VaultError::AuditLogFull => 33,
            VaultError::InvalidAuditLogEntry => 34,
            VaultError::ClockUnavailable => 35,
            VaultError::InvalidPDA => 36,
            VaultError::CPIFailed => 37,
            VaultError::NotRentExempt => 38,
            VaultError::InvalidTokenAccount => 39,
            VaultError::TokenTransferFailed => 40,
            VaultError::InvalidMintAccount => 41,
            VaultError::SlippageExceeded => 42,
            VaultError::StalePriceData => 43,
            VaultError::PriceManipulation => 44,
            VaultError::InvalidOracle => 45,
            VaultError::EmergencyContactUnauthorized => 46,
            VaultError::InvalidEmergencyOperation => 47,
            VaultError::InvalidSeeds => 48,
            VaultError::PDAAddressMismatch => 49,
            VaultError::IncorrectProgramId => 50,
            VaultError::InvalidBumpSeed => 51,
            VaultError::PDACreationFailed => 52,
            VaultError::PDAValidationFailed => 53,
            VaultError::SeedsExceedMaxLength => 54,
            VaultError::TooManySeeds => 55,
            VaultError::EmptySeeds => 56,
            VaultError::PDANotFoundOnCurve => 57,
            VaultError::PDASpaceInsufficient => 58,
            VaultError::PDAAlreadyExists => 59,
            VaultError::PDADerivationFailed => 60,
            VaultError::InvalidPDASigner => 61,
            VaultError::ManagerAlreadyExists => 62,
            VaultError::AdminCannotBeManager => 63,
            VaultError::MaxEmergencyContactsReached => 64,
            VaultError::OperationCancelled => 65,
        }
    }

    /// The error whose numeric code is `code`, if any.
    pub fn from_code(code: u32) -> (r: Option<VaultError>)
        ensures
            r == error_of_code(code),
    {
        match code {
            0 => Some(VaultError::InvalidInstruction),
            1 => Some(VaultError::VaultPaused),
            2 => Some(VaultError::InsufficientBalance),
            3 => Some(VaultError::Unauthorized),
            4 => Some(VaultError::InvalidAccount),
            5 => Some(VaultError::AccountNotInitialized),
            6 => Some(VaultError::AccountAlreadyInitialized),
            7 => Some(VaultError::DailyLimitExceeded),
            8 => Some(VaultError::RateLimited),
            9 => Some(VaultError::InsufficientSignatures),
            10 => Some(VaultError::TimeLockNotElapsed),
            11 => Some(VaultError::OperationExpired),
            12 => Some(VaultError::MaxManagersReached),
            13 => Some(VaultError::ManagerNotFound),
            14 => Some(VaultError::CannotRemoveLastManager),
            15 => Some(VaultError::InvalidSecurityConfig),
            16 => Some(VaultError::AmountTooLarge),
            17 => Some(VaultError::AmountTooSmall),
            18 => Some(VaultError::InvalidOperationType),
            19 => Some(VaultError::SuspiciousActivity),
            20 => Some(VaultError::EmergencyModeActive),
            21 => Some(VaultError::InvalidTimestamp),
            22 => Some(VaultError::ArithmeticOverflow),
            23 => Some(VaultError::ArithmeticUnderflow),
            24 => Some(VaultError::InvalidPubkey),
            25 => Some(VaultError::SerializationError),
            26 => Some(VaultError::DeserializationError),
            27 => Some(VaultError::InvalidAccountOwner),
            28 => Some(VaultError::InvalidAccountSize),
            29 => Some(VaultError::OperationNotFound),
            30 => Some(VaultError::OperationAlreadyExecuted),
            31 => Some(VaultError::AlreadySigned),
            32 => Some(VaultError::InvalidOperationStatus),
            33 => Some(VaultError::AuditLogFull),
            34 => Some(VaultError::InvalidAuditLogEntry),
            35 => Some(VaultError::ClockUnavailable),
            36 => Some(VaultError::InvalidPDA),
            37 => Some(VaultError::CPIFailed),
            38 => Some(VaultError::NotRentExempt),
            39 => Some(VaultError::InvalidTokenAccount),
            40 => Some(VaultError::TokenTransferFailed),
            41 => Some(VaultError::InvalidMintAccount),
            42 => Some(VaultError::SlippageExceeded),
            43 => Some(VaultError::StalePriceData),
            44 => Some(VaultError::PriceManipulation),
            45 => Some(VaultError::InvalidOracle),
            46 => Some(VaultError::EmergencyContactUnauthorized),
            47 => Some(VaultError::InvalidEmergencyOperation),
            48 => Some(VaultError::InvalidSeeds),
            49 => Some(VaultError::PDAAddressMismatch),
            50 => Some(VaultError::IncorrectProgramId),
            51 => Some(VaultError::InvalidBumpSeed),
            52 => Some(VaultError::PDACreationFailed),
            53 => Some(VaultError::PDAValidationFailed),
            54 => Some(VaultError::SeedsExceedMaxLength),
            55 => Some(VaultError::TooManySeeds),
            56 => Some(VaultError::EmptySeeds),
            57 => Some(VaultError::PDANotFoundOnCurve),
            58 => Some(VaultError::PDASpaceInsufficient),
            59 => Some(VaultError::PDAAlreadyExists),
            60 => Some(VaultError::PDADerivationFailed),
            61 => Some(VaultError::InvalidPDASigner),
            62 => Some(VaultError::ManagerAlreadyExists),
            63 => Some(VaultError::AdminCannotBeManager),
            64 => Some(VaultError::MaxEmergencyContactsReached),
            65 => Some(VaultError::OperationCancelled),
            _ => None,
        }
    }

    /// Short English message.
    pub fn message(&self) -> (r: &'static str)
        ensures
            r@ == message_of(*self),
    {
        match self {
            VaultError::InvalidInstruction => "Invalid instruction",
            VaultError::VaultPaused => "Vault is paused",
            VaultError::InsufficientBalance => "Insufficient balance in vault",
            VaultError::Unauthorized => "Unauthorized access - insufficient permissions",
            VaultError::InvalidAccount => "Invalid account provided",
            VaultError::AccountNotInitialized => "Account not initialized",
            VaultError::AccountAlreadyInitialized => "Account already initialized",
            VaultError::DailyLimitExceeded => "Daily withdrawal limit exceeded",
            VaultError::RateLimited => "Too many operations in short time - rate limited",
            VaultError::InsufficientSignatures => "Operation requires multiple signatures",
            VaultError::TimeLockNotElapsed => "Time lock period not elapsed",
            VaultError::OperationExpired => "Operation has expired",
            VaultError::MaxManagersReached => "Maximum number of managers reached",
            VaultError::ManagerNotFound => "Manager not found",
            VaultError::CannotRemoveLastManager => "Cannot remove the last manager",
            VaultError::InvalidSecurityConfig => "Invalid security configuration",
            VaultError::AmountTooLarge => "Amount exceeds maximum allowed",
            VaultError::AmountTooSmall => "Amount below minimum required",
            VaultError::InvalidOperationType => "Invalid operation type for current context",
            VaultError::SuspiciousActivity => "Suspicious activity detected - operation blocked",
            VaultError::EmergencyModeActive => "Emergency mode active - limited operations only",
            VaultError::InvalidTimestamp => "Invalid timestamp",
            VaultError::ArithmeticOverflow => "Arithmetic overflow",
            VaultError::ArithmeticUnderflow => "Arithmetic underflow",
            VaultError::InvalidPubkey => "Invalid pubkey",
            VaultError::SerializationError => "Account data serialization failed",
            VaultError::DeserializationError => "Account data deserialization failed",
            VaultError::InvalidAccountOwner => "Invalid account owner",
            VaultError::InvalidAccountSize => "Invalid account size",
            VaultError::OperationNotFound => "Operation not found",
            VaultError::OperationAlreadyExecuted => "Operation already executed",
            VaultError::AlreadySigned => "Operation already signed by this account",
            VaultError::InvalidOperationStatus => "Invalid operation status",
            VaultError::AuditLogFull => "Audit log full - cannot add more entries",
            VaultError::InvalidAuditLogEntry => "Invalid audit log entry",
            VaultError::ClockUnavailable => "System clock unavailable",
            VaultError::InvalidPDA => "Invalid program derived address",
            VaultError::CPIFailed => "Cross-program invocation failed",
            VaultError::NotRentExempt => "Rent exempt minimum not met",
            VaultError::InvalidTokenAccount => "Invalid token account",
            VaultError::TokenTransferFailed => "Token transfer failed",
            VaultError::InvalidMintAccount => "Invalid mint account",
            VaultError::SlippageExceeded => "Slippage tolerance exceeded",
            VaultError::StalePriceData => "Oracle price too stale",
            VaultError::PriceManipulation => "Price manipulation detected",
            VaultError::InvalidOracle => "Invalid oracle account",
            VaultError::EmergencyContactUnauthorized => "Emergency contact not authorized",
            VaultError::InvalidEmergencyOperation => "Invalid emergency operation",
            VaultError::InvalidSeeds => "Invalid seeds provided for PDA generation",
            VaultError::PDAAddressMismatch => "PDA address mismatch - expected different address",
            VaultError::IncorrectProgramId => "Incorrect program ID for PDA",
            VaultError::InvalidBumpSeed => "Invalid bump seed for PDA",
            VaultError::PDACreationFailed => "PDA creation failed",
            VaultError::PDAValidationFailed => "PDA validation failed",
            VaultError::SeedsExceedMaxLength => "Seeds exceed maximum length",
            VaultError::TooManySeeds => "Too many seeds provided for PDA",
            VaultError::EmptySeeds => "Empty seeds array provided",
            VaultError::PDANotFoundOnCurve => "PDA not found on curve - invalid bump",
            VaultError::PDASpaceInsufficient => "PDA account space insufficient",
            VaultError::PDAAlreadyExists => "PDA account already exists",
            VaultError::PDADerivationFailed => "PDA derivation failed",
            VaultError::InvalidPDASigner => "Invalid PDA signer",
            VaultError::ManagerAlreadyExists => "Manager already registered",
            VaultError::AdminCannotBeManager => "Admin cannot be a manager",
            VaultError::MaxEmergencyContactsReached => "Maximum number of emergency contacts reached",
            VaultError::OperationCancelled => "Operation was cancelled",
        }
    }
}

/// How serious an error is; drives auto-pause and attention flags.
#[derive(Clone, Copy, Debug, PartialEq, Eq, Structural)]
pub enum ErrorSeverity {
    Low,
    Medium,
    High,
    Critical,
}

pub open spec fn severity_of(e: VaultError) -> ErrorSeverity {
    match e {
        VaultError::SuspiciousActivity
        | VaultError::PriceManipulation
        | VaultError::EmergencyModeActive => ErrorSeverity::Critical,
        VaultError::Unauthorized
        | VaultError::InvalidAccount
        | VaultError::PDAValidationFailed
        | VaultError::IncorrectProgramId
        | VaultError::InvalidPDASigner => ErrorSeverity::High,
        _ => ErrorSeverity::Low,
    }
}

pub open spec fn needs_emergency_notification(e: VaultError) -> bool {
    match e {
        VaultError::SuspiciousActivity
        | VaultError::PriceManipulation
        | VaultError::EmergencyModeActive
        | VaultError::Unauthorized => true,
        _ => false,
    }
}

/// Errors that may clear by themselves with time or funding, so that the
/// same request can be retried unchanged.
pub open spec fn recoverable(e: VaultError) -> bool {
    match e {
        VaultError::RateLimited
        | VaultError::DailyLimitExceeded
        | VaultError::TimeLockNotElapsed
        | VaultError::InsufficientSignatures
        | VaultError::InsufficientBalance
        | VaultError::VaultPaused
        | VaultError::EmergencyModeActive
        | VaultError::ClockUnavailable => true,
        _ => false,
    }
}

impl VaultError {
    /// Longer description of the error, for operators.
    pub fn detailed_description(&self) -> (r: &'static str)
        ensures
            r@ == match *self {
                VaultError::InvalidInstruction => "La instruccion dada no es reconocida"@,
                VaultError::VaultPaused => "El vault esta pausado y no puede procesar transacciones"@,
                VaultError::InsufficientBalance => "El vault no tiene suficiente balance para realizar la operacion"@,
                VaultError::Unauthorized => "Esta account no tiene permiso para realizar esta operacion"@,
                VaultError::InvalidAccount => "La account dada no es validad para esta operacion"@,
                VaultError::AccountAlreadyInitialized => "La account ya a sido inicializada"@,
                VaultError::AccountNotInitialized => "La account no ha sido inicializada"@,
                _ => "Error ocurrido"@,
            },
    {
        match self {
            VaultError::InvalidInstruction => "La instruccion dada no es reconocida",
            VaultError::VaultPaused => "El vault esta pausado y no puede procesar transacciones",
            VaultError::InsufficientBalance => "El vault no tiene suficiente balance para realizar la operacion",
            VaultError::Unauthorized => "Esta account no tiene permiso para realizar esta operacion",
            VaultError::InvalidAccount => "La account dada no es validad para esta operacion",
            VaultError::AccountAlreadyInitialized => "La account ya a sido inicializada",
            VaultError::AccountNotInitialized => "La account no ha sido inicializada",
            _ => "Error ocurrido",
        }
    }

    /// Whether retrying the same request later may succeed.
    pub fn is_recoverable(&self) -> (r: bool)
        ensures
            r == recoverable(*self),
    {
        match self {
            VaultError::RateLimited
            | VaultError::DailyLimitExceeded
            | VaultError::TimeLockNotElapsed
            | VaultError::InsufficientSignatures
            | VaultError::InsufficientBalance
            | VaultError::VaultPaused
            | VaultError::EmergencyModeActive
            | VaultError::ClockUnavailable => true,
            _ => false,
        }
    }

    pub fn severity_level(&self) -> (r: ErrorSeverity)
        ensures
            r == severity_of(*self),
    {
        match self {
            VaultError::SuspiciousActivity
            | VaultError::PriceManipulation
            | VaultError::EmergencyModeActive => ErrorSeverity::Critical,
            VaultError::Unauthorized
            | VaultError::InvalidAccount
            | VaultError::PDAValidationFailed
            | VaultError::IncorrectProgramId
            | VaultError::InvalidPDASigner => ErrorSeverity::High,
            _ => ErrorSeverity::Low,
        }
    }

    pub fn requires_emergency_notification(&self) -> (r: bool)
        ensures
            r == needs_emergency_notification(*self),
    {
        match self {
            VaultError::SuspiciousActivity
            | VaultError::PriceManipulation
            | VaultError::EmergencyModeActive
            | VaultError::Unauthorized => true,
            _ => false,
        }
    }
}

/// Extra facts attached to an error report.
#[derive(Clone, Debug)]
pub struct ErrorContext {
    pub operation_id: Option<u64>,
    pub account_key: Option<String>,
    pub timestamp: i64,
    pub additional_info: Option<String>,
}

impl ErrorContext {
    pub fn new() -> (r: ErrorContext)
        ensures
            r.operation_id is None,
            r.account_key is None,
            r.timestamp == 0,
            r.additional_info is None,
    {
        ErrorContext { operation_id: None, account_key: None, timestamp: 0, additional_info: None }
    }

    pub fn with_operation_id(self, operation_id: u64) -> (r: ErrorContext)
        ensures
            r == (ErrorContext { operation_id: Some(operation_id), ..self }),
    {
        ErrorContext { operation_id: Some(operation_id), ..self }
    }

    pub fn with_account_key(self, account_key: String) -> (r: ErrorContext)
        ensures
            r == (ErrorContext { account_key: Some(account_key), ..self }),
    {
        ErrorContext { account_key: Some(account_key), ..self }
    }

    pub fn with_additional_info(self, info: String) -> (r: ErrorContext)
        ensures
            r == (ErrorContext { additional_info: Some(info), ..self }),
    {
        ErrorContext { additional_info: Some(info), ..self }
    }
}

} // verus!
