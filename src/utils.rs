use vstd::prelude::*;
use crate::pubkey::Pubkey;
use crate::error::VaultError;
use crate::bytes::{le_bytes, push_u32, push_u64};
use crate::state::{
    SecureVault, config_is_sane, seeds_view, copy_bytes, vault_seed_tag, audit_seed_tag, pending_seed_tag, vault_seed_bytes,
    audit_seed_bytes, pending_seed_bytes, MAX_SEED_COUNT, MAX_SEED_LENGTH,
};

verus! {

/// What the ledger's address search yields for `seeds` under the program
/// `program_id`: the first off-curve address found, with its bump, if any.
pub uninterp spec fn program_address_search(seeds: Seq<Seq<u8>>, program_id: Seq<u8>) -> Option<(Seq<u8>, u8)>;

/// The SHA-256 digest of `data`.
pub uninterp spec fn sha256_of(data: Seq<u8>) -> Seq<u8>;

/// The lamports an account of `data_len` bytes must hold to be exempt from
/// rent under the default rent parameters.
pub uninterp spec fn rent_exempt_minimum_of(data_len: nat) -> u64;

/// Largest account data size the ledger permits (10 MiB).
pub const MAX_PERMITTED_DATA_LENGTH: usize = 10485760;

/// Relies on solana_program's `Pubkey::try_find_program_address`, which
/// depends on the seeds and the program id alone and never panics.
#[verifier::external_body]
fn search_program_address(seeds: &Vec<Vec<u8>>, program_id: &Pubkey) -> (r: Option<(Pubkey, u8)>)
    ensures
        match r {
            Some((k, b)) => program_address_search(seeds_view(seeds@), program_id.bytes@) == Some((k.bytes@, b)),
            None => program_address_search(seeds_view(seeds@), program_id.bytes@) is None,
        },
{
    let refs: Vec<&[u8]> = seeds.iter().map(|s| s.as_slice()).collect();
    let program = solana_program::pubkey::Pubkey::new_from_array(program_id.bytes);
    solana_program::pubkey::Pubkey::try_find_program_address(&refs, &program)
        .map(|(k, b)| (Pubkey { bytes: k.to_bytes() }, b))
}

/// Relies on solana_program's `hash::hash`: the SHA-256 digest, 32 bytes.
#[verifier::external_body]
fn sha256(data: &[u8]) -> (r: [u8; 32])
    ensures
        r@ == sha256_of(data@),
{
    solana_program::hash::hash(data).to_bytes()
}

/// Relies on solana_program's `Rent::default().minimum_balance`, which
/// depends on the length alone and does not overflow below 10 MiB.
#[verifier::external_body]
fn default_rent_minimum(data_len: usize) -> (r: u64)
    requires
        data_len <= MAX_PERMITTED_DATA_LENGTH,
    ensures
        r == rent_exempt_minimum_of(data_len as nat),
{
    solana_program::rent::Rent::default().minimum_balance(data_len)
}

/// The verdict on a claimed derived address: the seed list must be
/// non-empty, hold at most 16 seeds of at most 32 bytes each, and derive
/// exactly `account`.
pub open spec fn pda_check(account: Pubkey, seeds: Seq<Seq<u8>>, program_id: Pubkey) -> Result<u8, VaultError> {
    if seeds.len() == 0 {
        Err(VaultError::EmptySeeds)
    } else if seeds.len() > MAX_SEED_COUNT {
        Err(VaultError::TooManySeeds)
    } else if exists|i: int| 0 <= i < seeds.len() && #[trigger] seeds[i].len() > MAX_SEED_LENGTH {
        Err(VaultError::SeedsExceedMaxLength)
    } else {
        match program_address_search(seeds, program_id.bytes@) {
            None => Err(VaultError::PDADerivationFailed),
            Some((addr, bump)) => if addr == account.bytes@ {
                Ok(bump)
            } else {
                Err(VaultError::PDAAddressMismatch)
            },
        }
    }
}

pub struct Utils;

impl Utils {
    /// The derived address of `seeds` under `program_id` and its bump, or
    /// `None` when no address can be derived from them.
    pub fn find_program_address(seeds: &Vec<Vec<u8>>, program_id: &Pubkey) -> (r: Option<(Pubkey, u8)>)
        ensures
            match r {
                Some((k, b)) => program_address_search(seeds_view(seeds@), program_id.bytes@) == Some((k.bytes@, b)),
                None => program_address_search(seeds_view(seeds@), program_id.bytes@) is None,
            },
    {
        search_program_address(seeds, program_id)
    }

    /// Checks that `account` is the address derived from `seeds` under
    /// `program_id`, and returns its bump.
    pub fn verify_pda(account: &Pubkey, seeds: &Vec<Vec<u8>>, program_id: &Pubkey) -> (r: Result<u8, VaultError>)
        ensures
            r == pda_check(*account, seeds_view(seeds@), *program_id),
    {
        assert(seeds_view(seeds@).len() == seeds@.len());
        if seeds.len() == 0 {
            return Err(VaultError::EmptySeeds);
        }
        if seeds.len() > MAX_SEED_COUNT {
            return Err(VaultError::TooManySeeds);
        }
        let mut i: usize = 0;
        while i < seeds.len()
            invariant
                0 <= i <= seeds@.len(),
                0 < seeds@.len() <= MAX_SEED_COUNT,
                forall|j: int| 0 <= j < i ==> #[trigger] seeds_view(seeds@)[j].len() <= MAX_SEED_LENGTH,
            decreases seeds@.len() - i,
        {
            assert(seeds_view(seeds@)[i as int] == seeds@[i as int]@);
            if seeds[i].len() > MAX_SEED_LENGTH {
                let ghost sv = seeds_view(seeds@);
                assert(sv[i as int].len() > MAX_SEED_LENGTH);
                assert(exists|j: int| 0 <= j < sv.len() && #[trigger] sv[j].len() > MAX_SEED_LENGTH);
                return Err(VaultError::SeedsExceedMaxLength);
            }
            i = i + 1;
        }
        match search_program_address(seeds, program_id) {
            None => Err(VaultError::PDADerivationFailed),
            Some((expected, bump)) => {
                if account.same_as(&expected) {
                    Ok(bump)
                } else {
                    proof {
                        if expected.bytes@ == account.bytes@ {
                            vstd::array::axiom_array_ext_equal(expected.bytes, account.bytes);
                        }
                    }
                    Err(VaultError::PDAAddressMismatch)
                }
            },
        }
    }

    /// The id the vault's next pending operation takes: its operation count,
    /// which only grows, so ids are unique and increasing per vault whoever
    /// asks and whenever.
    pub fn generate_operation_id(vault: &SecureVault, performer: &Pubkey, timestamp: i64) -> (r: u64)
        ensures
            r == vault.operation_count,
    {
        vault.operation_count
    }

    /// The SHA-256 digest of `data`.
    pub fn calculate_hash(data: &[u8]) -> (r: [u8; 32])
        ensures
            r@ == sha256_of(data@),
    {
        sha256(data)
    }

    /// Whether `expected_hash` is the digest of `data`.
    pub fn verify_data_integrity(data: &[u8], expected_hash: &[u8; 32]) -> (r: Result<bool, VaultError>)
        ensures
            r == Ok::<bool, VaultError>(sha256_of(data@) == expected_hash@),
    {
        let digest = sha256(data);
        Ok(Self::digest_matches(&digest, expected_hash))
    }

    /// Whether two digests are equal.
    pub fn digest_matches(digest: &[u8; 32], expected_hash: &[u8; 32]) -> (r: bool)
        ensures
            r == (digest@ == expected_hash@),
    {
        let mut i: usize = 0;
        while i < 32
            invariant
                0 <= i <= 32,
                forall|j: int| 0 <= j < i ==> digest@[j] == expected_hash@[j],
            decreases 32 - i,
        {
            if digest[i] != expected_hash[i] {
                return false;
            }
            i = i + 1;
        }
        assert(digest@ =~= expected_hash@);
        true
    }

    /// The rent-exempt minimum balance of an account of `data_len` bytes;
    /// fails `InvalidAccountSize` above the ledger's 10 MiB cap.
    pub fn calculate_rent_exempt_minimum(data_len: usize) -> (r: Result<u64, VaultError>)
        ensures
            data_len <= MAX_PERMITTED_DATA_LENGTH ==> r == Ok::<u64, VaultError>(rent_exempt_minimum_of(data_len as nat)),
            data_len > MAX_PERMITTED_DATA_LENGTH ==> r == Err::<u64, VaultError>(VaultError::InvalidAccountSize),
    {
        if data_len > MAX_PERMITTED_DATA_LENGTH {
            Err(VaultError::InvalidAccountSize)
        } else {
            Ok(default_rent_minimum(data_len))
        }
    }
}

pub struct VaultUtils;

impl VaultUtils {
    /// Account size of a vault record. The layout reserves a slot for each
    /// of the `MAX_MANAGER` managers, so the size does not depend on the cap.
    pub fn calculate_vault_space(max_managers: u8) -> (r: usize)
        ensures
            r == crate::codec::VAULT_RECORD_LEN,
    {
        crate::codec::VAULT_RECORD_LEN
    }

    /// Bytes needed to hold `max_entries` audit records.
    pub fn calculate_audit_space(max_entries: u32) -> (r: u64)
        ensures
            r == max_entries * crate::codec::AUDIT_RECORD_LEN,
    {
        assert(max_entries * 108 <= 0xffff_ffff * 108) by (nonlinear_arith)
            requires
                max_entries <= 0xffff_ffff,
        ;
        max_entries as u64 * crate::codec::AUDIT_RECORD_LEN as u64
    }

    /// A vault's policy must be within bounds and admit its current managers.
    pub fn validate_vault_config(vault: &SecureVault) -> (r: Result<(), VaultError>)
        ensures
            r is Ok <==> config_is_sane(vault.config) && vault.managers@.len() <= vault.config.max_managers,
            r is Err ==> r == Err::<(), VaultError>(VaultError::InvalidSecurityConfig),
    {
        if vault.config.is_valid() && vault.managers.len() <= vault.config.max_managers as usize {
            Ok(())
        } else {
            Err(VaultError::InvalidSecurityConfig)
        }
    }

    /// Seeds of a vault's address: the tag and its admin.
    pub fn generate_vault_seeds(admin: &Pubkey) -> (r: Vec<Vec<u8>>)
        ensures
            seeds_view(r@) == seq![vault_seed_tag(), admin.bytes@],
    {
        let mut r: Vec<Vec<u8>> = Vec::new();
        r.push(vault_seed_bytes());
        r.push(copy_bytes(&admin.bytes));
        assert(seeds_view(r@) =~= seq![vault_seed_tag(), admin.bytes@]);
        r
    }

    /// Seeds of a pending operation's address: the tag, the vault and the id.
    pub fn generate_operation_seeds(vault: &Pubkey, operation_id: u64) -> (r: Vec<Vec<u8>>)
        ensures
            seeds_view(r@) == seq![pending_seed_tag(), vault.bytes@, le_bytes(operation_id as nat, 8)],
    {
        let mut id_bytes: Vec<u8> = Vec::new();
        push_u64(&mut id_bytes, operation_id);
        let mut r: Vec<Vec<u8>> = Vec::new();
        r.push(pending_seed_bytes());
        r.push(copy_bytes(&vault.bytes));
        r.push(id_bytes);
        assert(seeds_view(r@) =~= seq![pending_seed_tag(), vault.bytes@, le_bytes(operation_id as nat, 8)]);
        r
    }

    /// Seeds of an audit record's address: the tag, the vault, the day
    /// bucket and the operation id.
    pub fn generate_audit_seeds(vault: &Pubkey, day: u32, operation_id: u64) -> (r: Vec<Vec<u8>>)
        ensures
            seeds_view(r@) == seq![
                audit_seed_tag(),
                vault.bytes@,
                le_bytes(day as nat, 4),
                le_bytes(operation_id as nat, 8),
            ],
    {
        let mut day_bytes: Vec<u8> = Vec::new();
        push_u32(&mut day_bytes, day);
        let mut id_bytes: Vec<u8> = Vec::new();
        push_u64(&mut id_bytes, operation_id);
        let mut r: Vec<Vec<u8>> = Vec::new();
        r.push(audit_seed_bytes());
        r.push(copy_bytes(&vault.bytes));
        r.push(day_bytes);
        r.push(id_bytes);
        assert(seeds_view(r@) =~= seq![
            audit_seed_tag(),
            vault.bytes@,
            le_bytes(day as nat, 4),
            le_bytes(operation_id as nat, 8),
        ]);
        r
    }
}

/// A derived address is a function of its seeds: once `a` passes the check
/// for some seeds and program, any other address fails it with
/// `PDAAddressMismatch`, and `a` passes it again with the same bump.
pub proof fn lemma_pda_determinism(a: Pubkey, b: Pubkey, seeds: Seq<Seq<u8>>, program_id: Pubkey)
    requires
        pda_check(a, seeds, program_id) is Ok,
    ensures
        a != b ==> pda_check(b, seeds, program_id) == Err::<u8, VaultError>(VaultError::PDAAddressMismatch),
        a == b ==> pda_check(b, seeds, program_id) == pda_check(a, seeds, program_id),
{
    if a != b && a.bytes@ == b.bytes@ {
        vstd::array::axiom_array_ext_equal(a.bytes, b.bytes);
    }
}

} // verus!
