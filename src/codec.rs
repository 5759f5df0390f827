use vstd::prelude::*;
use crate::pubkey::Pubkey;
use crate::bytes::{
    le_bytes, le_value, i64_bits, i64_of_bits, pow256, lemma_le_bytes_len, lemma_le_round_trip,
    lemma_i64_bits, push_u32, push_u64, push_i64, read_u8, read_u32, read_u64, read_i64,
};
use crate::state::{
    SecurityConfig, OperationType, OperationStatus, AuditLog, SecureVault, PendingOperation, MAX_MANAGER,
    MAX_EMERGENCY_CONTACTS,
};

verus! {

/// Version of the persisted layouts.
pub const LAYOUT_VERSION: u8 = 1;

/// Record kind tags.
pub const VAULT_RECORD: u8 = 1;

pub const PENDING_RECORD: u8 = 2;

pub const AUDIT_RECORD: u8 = 3;

/// Signer slots of a pending operation: the admin and every manager.
pub const MAX_SIGNERS: usize = 11;

pub open spec fn enc_bool(b: bool) -> Seq<u8> {
    seq![if b { 1u8 } else { 0u8 }]
}

pub open spec fn enc_u8(x: u8) -> Seq<u8> {
    seq![x]
}

pub open spec fn enc_u32(x: u32) -> Seq<u8> {
    le_bytes(x as nat, 4)
}

pub open spec fn enc_u64(x: u64) -> Seq<u8> {
    le_bytes(x as nat, 8)
}

pub open spec fn enc_i64(x: i64) -> Seq<u8> {
    le_bytes(i64_bits(x), 8)
}

/// `cap` slots of 32 bytes: the keys of `s`, then zeros.
pub open spec fn key_area(s: Seq<Pubkey>, cap: nat) -> Seq<u8> {
    Seq::new(32 * cap, |k: int| if k / 32 < s.len() { s[k / 32].bytes@[k % 32] } else { 0u8 })
}

/// A key list: its length, then `cap` fixed slots.
pub open spec fn enc_keys(s: Seq<Pubkey>, cap: nat) -> Seq<u8> {
    seq![s.len() as u8] + key_area(s, cap)
}

/// An optional value: a presence byte, then a fixed-size payload (zeros
/// when absent).
pub open spec fn enc_opt_u64(o: Option<u64>) -> Seq<u8> {
    match o {
        None => seq![0u8] + enc_u64(0),
        Some(x) => seq![1u8] + enc_u64(x),
    }
}

pub open spec fn enc_opt_u32(o: Option<u32>) -> Seq<u8> {
    match o {
        None => seq![0u8] + enc_u32(0),
        Some(x) => seq![1u8] + enc_u32(x),
    }
}

pub open spec fn enc_opt_key(o: Option<Pubkey>) -> Seq<u8> {
    match o {
        None => seq![0u8] + Seq::new(32, |i: int| 0u8),
        Some(k) => seq![1u8] + k.bytes@,
    }
}

pub open spec fn op_type_index(op: OperationType) -> u8 {
    match op {
        OperationType::Deposit => 0,
        OperationType::Withdraw => 1,
        OperationType::EmergencyPause => 2,
        OperationType::Resume => 3,
        OperationType::AddManager => 4,
        OperationType::RemoveManager => 5,
        OperationType::UpdateConfig => 6,
        OperationType::TransferAdmin => 7,
        OperationType::EmergencyWithdraw => 8,
    }
}

pub open spec fn status_index(s: OperationStatus) -> u8 {
    match s {
        OperationStatus::Pending => 0,
        OperationStatus::Approved => 1,
        OperationStatus::Rejected => 2,
        OperationStatus::Executed => 3,
        OperationStatus::Expired => 4,
    }
}

/// The 30-byte layout of a security policy.
pub open spec fn config_encoding(c: SecurityConfig) -> Seq<u8> {
    enc_u32(c.max_daily_operations) + enc_i64(c.min_time_between_operations) + enc_u64(
        c.require_multisig_for_large_amounts,
    ) + enc_bool(c.auto_pause_on_suspicious_activity) + enc_u8(c.max_managers) + enc_i64(
        c.withdrawal_delay_seconds,
    )
}

pub open spec fn le_len_facts() -> bool {
    &&& forall|x: nat| #[trigger] le_bytes(x, 4).len() == 4
    &&& forall|x: nat| #[trigger] le_bytes(x, 8).len() == 8
}

pub proof fn lemma_le_len_facts()
    ensures
        le_len_facts(),
{
    assert forall|x: nat| #[trigger] le_bytes(x, 4).len() == 4 by {
        lemma_le_bytes_len(x, 4);
    }
    assert forall|x: nat| #[trigger] le_bytes(x, 8).len() == 8 by {
        lemma_le_bytes_len(x, 8);
    }
}

proof fn lemma_pows()
    ensures
        pow256(4) == 0x1_0000_0000,
        pow256(8) == 0x1_0000_0000_0000_0000,
{
    reveal_with_fuel(pow256, 9);
}

/// Reading a little-endian field back gives the value written.
proof fn lemma_read_back_u32(x: u32)
    ensures
        le_value(enc_u32(x)) == x,
{
    lemma_pows();
    lemma_le_round_trip(x as nat, 4);
}

proof fn lemma_read_back_u64(x: u64)
    ensures
        le_value(enc_u64(x)) == x,
{
    lemma_pows();
    lemma_le_round_trip(x as nat, 8);
}

proof fn lemma_read_back_i64(x: i64)
    ensures
        i64_of_bits(le_value(enc_i64(x))) == x,
{
    lemma_i64_bits(x);
    lemma_le_round_trip(i64_bits(x), 8);
}

proof fn lemma_read_back_u8(x: u8)
    ensures
        le_value(seq![x]) == x,
{
    assert(seq![x].drop_first() =~= Seq::<u8>::empty());
    assert(le_value(Seq::<u8>::empty()) == 0);
    assert(le_value(seq![x]) == x as nat + 256 * le_value(seq![x].drop_first()));
}

pub fn push_bool(out: &mut Vec<u8>, b: bool)
    ensures
        final(out)@ == old(out)@ + enc_bool(b),
{
    out.push(if b { 1u8 } else { 0u8 });
    assert(final(out)@ =~= old(out)@ + enc_bool(b)) by {
        assert(out@ =~= old(out)@ + enc_bool(b));
    }
}

pub fn push_byte(out: &mut Vec<u8>, x: u8)
    ensures
        final(out)@ == old(out)@ + enc_u8(x),
{
    out.push(x);
    assert(out@ =~= old(out)@ + enc_u8(x));
}

pub fn encode_config(out: &mut Vec<u8>, c: &SecurityConfig)
    ensures
        final(out)@ == old(out)@ + config_encoding(*c),
{
    let ghost start = out@;
    push_u32(out, c.max_daily_operations);
    push_i64(out, c.min_time_between_operations);
    push_u64(out, c.require_multisig_for_large_amounts);
    push_bool(out, c.auto_pause_on_suspicious_activity);
    push_byte(out, c.max_managers);
    push_i64(out, c.withdrawal_delay_seconds);
    assert(out@ =~= start + config_encoding(*c));
}

/// Reads a policy laid out at `pos`; gives back what `encode_config` wrote.
pub fn decode_config(b: &[u8], pos: usize) -> (r: Option<SecurityConfig>)
    ensures
        forall|c: SecurityConfig| pos + 30 <= b@.len() && #[trigger] config_encoding(c) == b@.subrange(pos as int, pos + 30)
            ==> r == Some(c),
{
    if b.len() < 30 || pos > b.len() - 30 {
        return None;
    }
    let max_daily = read_u32(b, pos);
    let min_time = read_i64(b, pos + 4);
    let threshold = read_u64(b, pos + 12);
    let pause_byte = read_u8(b, pos + 20);
    let max_managers = read_u8(b, pos + 21);
    let delay = read_i64(b, pos + 22);
    if pause_byte > 1 {
        proof {
            lemma_le_len_facts();
            assert forall|c: SecurityConfig| pos + 30 <= b@.len() && #[trigger] config_encoding(c) == b@.subrange(pos as int, pos + 30)
                implies false by {
                let e = config_encoding(c);
                assert(b@.subrange(pos + 20, pos + 21) =~= e.subrange(20, 21));
                assert(e.subrange(20, 21) =~= enc_bool(c.auto_pause_on_suspicious_activity));
                lemma_read_back_u8(if c.auto_pause_on_suspicious_activity { 1u8 } else { 0u8 });
            }
        }
        return None;
    }
    let r = SecurityConfig {
        max_daily_operations: max_daily,
        min_time_between_operations: min_time,
        require_multisig_for_large_amounts: threshold,
        auto_pause_on_suspicious_activity: pause_byte == 1,
        max_managers,
        withdrawal_delay_seconds: delay,
    };
    proof {
        lemma_le_len_facts();
        assert forall|c: SecurityConfig| pos + 30 <= b@.len() && #[trigger] config_encoding(c) == b@.subrange(pos as int, pos + 30)
            implies r == c by {
            let e = config_encoding(c);
            assert(b@.subrange(pos as int, pos + 4) =~= e.subrange(0, 4));
            assert(e.subrange(0, 4) =~= enc_u32(c.max_daily_operations));
            lemma_read_back_u32(c.max_daily_operations);
            assert(b@.subrange(pos + 4, pos + 12) =~= e.subrange(4, 12));
            assert(e.subrange(4, 12) =~= enc_i64(c.min_time_between_operations));
            lemma_read_back_i64(c.min_time_between_operations);
            assert(b@.subrange(pos + 12, pos + 20) =~= e.subrange(12, 20));
            assert(e.subrange(12, 20) =~= enc_u64(c.require_multisig_for_large_amounts));
            lemma_read_back_u64(c.require_multisig_for_large_amounts);
            assert(b@.subrange(pos + 20, pos + 21) =~= e.subrange(20, 21));
            assert(e.subrange(20, 21) =~= enc_bool(c.auto_pause_on_suspicious_activity));
            lemma_read_back_u8(if c.auto_pause_on_suspicious_activity { 1u8 } else { 0u8 });
            assert(b@.subrange(pos + 21, pos + 22) =~= e.subrange(21, 22));
            assert(e.subrange(21, 22) =~= enc_u8(c.max_managers));
            lemma_read_back_u8(c.max_managers);
            assert(b@.subrange(pos + 22, pos + 30) =~= e.subrange(22, 30));
            assert(e.subrange(22, 30) =~= enc_i64(c.withdrawal_delay_seconds));
            lemma_read_back_i64(c.withdrawal_delay_seconds);
        }
    }
    Some(r)
}

proof fn lemma_slot_index(i: int, t: int)
    requires
        0 <= i,
        0 <= t < 32,
    ensures
        (32 * i + t) / 32 == i,
        (32 * i + t) % 32 == t,
{
    assert((32 * i + t) / 32 == i) by (nonlinear_arith)
        requires
            0 <= i,
            0 <= t < 32,
    ;
    assert((32 * i + t) % 32 == t) by (nonlinear_arith)
        requires
            0 <= i,
            0 <= t < 32,
    ;
}

/// Appends a key list: its length and `cap` fixed slots.
pub fn push_keys(out: &mut Vec<u8>, keys: &Vec<Pubkey>, cap: usize)
    requires
        keys@.len() <= cap <= MAX_SIGNERS,
    ensures
        final(out)@ == old(out)@ + enc_keys(keys@, cap as nat),
{
    let ghost start = out@;
    let n = keys.len();
    out.push(n as u8);
    let mut i: usize = 0;
    while i < cap
        invariant
            0 <= i <= cap,
            cap <= MAX_SIGNERS,
            n == keys@.len(),
            n <= cap,
            out@ == start + seq![n as u8] + key_area(keys@, i as nat),
        decreases cap - i,
    {
        let ghost before = out@;
        let mut t: usize = 0;
        while t < 32
            invariant
                0 <= t <= 32,
                0 <= i < cap,
                cap <= MAX_SIGNERS,
                n == keys@.len(),
                out@ == before + Seq::new(t as nat, |k: int| if (i as int) < keys@.len() { keys@[i as int].bytes@[k] } else { 0u8 }),
            decreases 32 - t,
        {
            let byte: u8 = if i < n { keys[i].bytes[t] } else { 0u8 };
            out.push(byte);
            t = t + 1;
            assert(out@ =~= before + Seq::new(t as nat, |k: int| if (i as int) < keys@.len() { keys@[i as int].bytes@[k] } else { 0u8 }));
        }
        proof {
            let next = key_area(keys@, (i + 1) as nat);
            let prev = key_area(keys@, i as nat);
            assert forall|k: int| 32 * i <= k < 32 * (i + 1) implies #[trigger] next[k] == (if (i as int) < keys@.len() {
                keys@[i as int].bytes@[k - 32 * i]
            } else {
                0u8
            }) by {
                lemma_slot_index(i as int, k - 32 * i);
            }
            assert(next =~= prev + Seq::new(32, |k: int| if (i as int) < keys@.len() { keys@[i as int].bytes@[k] } else { 0u8 }));
        }
        i = i + 1;
    }
}

/// The key whose 32 bytes start at `pos`.
pub fn read_key(b: &[u8], pos: usize) -> (r: Pubkey)
    requires
        pos + 32 <= b@.len(),
    ensures
        r.bytes@ == b@.subrange(pos as int, pos + 32),
{
    let len = b.len();
    let mut bytes: [u8; 32] = [0u8; 32];
    let mut i: usize = 0;
    while i < 32
        invariant
            0 <= i <= 32,
            pos + 32 <= b@.len(),
            len == b@.len(),
            forall|j: int| 0 <= j < i ==> bytes@[j] == b@[pos + j],
        decreases 32 - i,
    {
        bytes[i] = b[pos + i];
        i = i + 1;
    }
    assert(bytes@ =~= b@.subrange(pos as int, pos + 32));
    Pubkey { bytes }
}

/// Reads a key list laid out at `pos` with `cap` slots; fails when the
/// stored length exceeds `cap`.
pub fn read_keys(b: &[u8], pos: usize, cap: usize) -> (r: Option<Vec<Pubkey>>)
    requires
        cap <= MAX_SIGNERS,
        pos + 1 + 32 * cap <= b@.len(),
    ensures
        r is Some <==> b@[pos as int] <= cap,
        match r {
            Some(v) => v@.len() == b@[pos as int] && forall|j: int| 0 <= j < v@.len()
                ==> #[trigger] v@[j].bytes@ == b@.subrange(pos + 1 + 32 * j, pos + 33 + 32 * j),
            None => true,
        },
{
    let len = b.len();
    let n = b[pos];
    if n as usize > cap {
        return None;
    }
    let mut out: Vec<Pubkey> = Vec::new();
    let mut i: usize = 0;
    while i < n as usize
        invariant
            0 <= i <= n,
            n <= cap,
            cap <= MAX_SIGNERS,
            n == b@[pos as int],
            pos + 1 + 32 * cap <= b@.len(),
            len == b@.len(),
            out@.len() == i,
            forall|j: int| 0 <= j < i ==> #[trigger] out@[j].bytes@ == b@.subrange(pos + 1 + 32 * j, pos + 33 + 32 * j),
        decreases n - i,
    {
        assert(32 * i < 32 * cap) by (nonlinear_arith)
            requires
                i < n,
                n <= cap,
        ;
        let k = read_key(b, pos + 1 + 32 * i);
        let ghost before = out@;
        out.push(k);
        proof {
            assert forall|j: int| 0 <= j < i + 1 implies #[trigger] out@[j].bytes@ == b@.subrange(pos + 1 + 32 * j, pos + 33 + 32 * j) by {
                if j < i {
                    assert(out@[j] == before[j]);
                    assert(before[j].bytes@ == b@.subrange(pos + 1 + 32 * j, pos + 33 + 32 * j));
                } else {
                    assert(out@[j] == k);
                }
            }
        }
        i = i + 1;
    }
    assert(out@.len() == b@[pos as int]);
    assert(forall|j: int| 0 <= j < out@.len() ==> #[trigger] out@[j].bytes@ == b@.subrange(pos + 1 + 32 * j, pos + 33 + 32 * j));
    Some(out)
}

/// Keys read back from their slots are the keys written.
proof fn lemma_keys_read_back(b: Seq<u8>, pos: int, s: Seq<Pubkey>, cap: nat, got: Seq<Pubkey>)
    requires
        0 <= pos,
        pos + 1 + 32 * cap <= b.len(),
        s.len() <= cap <= MAX_SIGNERS,
        b.subrange(pos, pos + 1 + 32 * cap) == enc_keys(s, cap),
        got.len() == b[pos],
        forall|j: int| 0 <= j < got.len() ==> #[trigger] got[j].bytes@ == b.subrange(pos + 1 + 32 * j, pos + 33 + 32 * j),
    ensures
        b[pos] == s.len(),
        got == s,
{
    let e = enc_keys(s, cap);
    assert(b[pos] == e[0]);
    assert forall|j: int| 0 <= j < got.len() implies got[j] == s[j] by {
        assert forall|t: int| 0 <= t < 32 implies #[trigger] b.subrange(pos + 1 + 32 * j, pos + 33 + 32 * j)[t] == s[j].bytes@[t] by {
            lemma_slot_index(j, t);
            assert(b[pos + 1 + 32 * j + t] == e[1 + 32 * j + t]);
        }
        assert(got[j].bytes@ =~= s[j].bytes@);
        vstd::array::axiom_array_ext_equal(got[j].bytes, s[j].bytes);
    }
    assert(got =~= s);
}

pub fn push_key(out: &mut Vec<u8>, k: &Pubkey)
    ensures
        final(out)@ == old(out)@ + k.bytes@,
{
    let ghost start = out@;
    let mut i: usize = 0;
    while i < 32
        invariant
            0 <= i <= 32,
            out@ == start + k.bytes@.subrange(0, i as int),
        decreases 32 - i,
    {
        out.push(k.bytes[i]);
        i = i + 1;
        assert(out@ =~= start + k.bytes@.subrange(0, i as int));
    }
    assert(k.bytes@.subrange(0, 32) =~= k.bytes@);
}

pub fn push_opt_u64(out: &mut Vec<u8>, o: Option<u64>)
    ensures
        final(out)@ == old(out)@ + enc_opt_u64(o),
{
    let ghost start = out@;
    match o {
        None => {
            push_byte(out, 0);
            push_u64(out, 0);
        },
        Some(x) => {
            push_byte(out, 1);
            push_u64(out, x);
        },
    }
    assert(out@ =~= start + enc_opt_u64(o));
}

pub fn push_opt_u32(out: &mut Vec<u8>, o: Option<u32>)
    ensures
        final(out)@ == old(out)@ + enc_opt_u32(o),
{
    let ghost start = out@;
    match o {
        None => {
            push_byte(out, 0);
            push_u32(out, 0);
        },
        Some(x) => {
            push_byte(out, 1);
            push_u32(out, x);
        },
    }
    assert(out@ =~= start + enc_opt_u32(o));
}

pub fn push_opt_key(out: &mut Vec<u8>, o: Option<Pubkey>)
    ensures
        final(out)@ == old(out)@ + enc_opt_key(o),
{
    let ghost start = out@;
    match o {
        None => {
            push_byte(out, 0);
            let z = Pubkey::zeroed();
            push_key(out, &z);
        },
        Some(k) => {
            push_byte(out, 1);
            push_key(out, &k);
        },
    }
    assert(out@ =~= start + enc_opt_key(o));
}

pub fn op_type_to_byte(op: OperationType) -> (r: u8)
    ensures
        r == op_type_index(op),
{
    match op {
        OperationType::Deposit => 0,
        OperationType::Withdraw => 1,
        OperationType::EmergencyPause => 2,
        OperationType::Resume => 3,
        OperationType::AddManager => 4,
        OperationType::RemoveManager => 5,
        OperationType::UpdateConfig => 6,
        OperationType::TransferAdmin => 7,
        OperationType::EmergencyWithdraw => 8,
    }
}

pub fn op_type_from_byte(x: u8) -> (r: Option<OperationType>)
    ensures
        forall|op: OperationType| op_type_index(op) == x ==> r == Some(op),
{
    match x {
        0 => Some(OperationType::Deposit),
        1 => Some(OperationType::Withdraw),
        2 => Some(OperationType::EmergencyPause),
        3 => Some(OperationType::Resume),
        4 => Some(OperationType::AddManager),
        5 => Some(OperationType::RemoveManager),
        6 => Some(OperationType::UpdateConfig),
        7 => Some(OperationType::TransferAdmin),
        8 => Some(OperationType::EmergencyWithdraw),
        _ => None,
    }
}

pub fn status_to_byte(s: OperationStatus) -> (r: u8)
    ensures
        r == status_index(s),
{
    match s {
        OperationStatus::Pending => 0,
        OperationStatus::Approved => 1,
        OperationStatus::Rejected => 2,
        OperationStatus::Executed => 3,
        OperationStatus::Expired => 4,
    }
}

pub fn status_from_byte(x: u8) -> (r: Option<OperationStatus>)
    ensures
        forall|s: OperationStatus| status_index(s) == x ==> r == Some(s),
{
    match x {
        0 => Some(OperationStatus::Pending),
        1 => Some(OperationStatus::Approved),
        2 => Some(OperationStatus::Rejected),
        3 => Some(OperationStatus::Executed),
        4 => Some(OperationStatus::Expired),
        _ => None,
    }
}

pub fn read_u8_at(b: &[u8], pos: usize) -> (r: u8)
    requires
        pos + 1 <= b@.len(),
    ensures
        forall|x: u8| b@.subrange(pos as int, pos + 1) == #[trigger] enc_u8(x) ==> r == x,
{
    let v = read_u8(b, pos);
    proof {
        assert forall|x: u8| b@.subrange(pos as int, pos + 1) == #[trigger] enc_u8(x) implies v == x by {
            lemma_read_back_u8(x);
        }
    }
    v
}

pub fn read_bool_at(b: &[u8], pos: usize) -> (r: Option<bool>)
    requires
        pos + 1 <= b@.len(),
    ensures
        forall|x: bool| b@.subrange(pos as int, pos + 1) == #[trigger] enc_bool(x) ==> r == Some(x),
{
    let v = b[pos];
    proof {
        assert forall|x: bool| b@.subrange(pos as int, pos + 1) == #[trigger] enc_bool(x) implies v == (if x { 1u8 } else { 0u8 }) by {
            assert(b@.subrange(pos as int, pos + 1)[0] == b@[pos as int]);
        }
    }
    if v == 0 {
        Some(false)
    } else if v == 1 {
        Some(true)
    } else {
        None
    }
}

pub fn read_u32_at(b: &[u8], pos: usize) -> (r: u32)
    requires
        pos + 4 <= b@.len(),
    ensures
        forall|x: u32| b@.subrange(pos as int, pos + 4) == #[trigger] enc_u32(x) ==> r == x,
{
    let v = read_u32(b, pos);
    proof {
        assert forall|x: u32| b@.subrange(pos as int, pos + 4) == #[trigger] enc_u32(x) implies v == x by {
            lemma_read_back_u32(x);
        }
    }
    v
}

pub fn read_u64_at(b: &[u8], pos: usize) -> (r: u64)
    requires
        pos + 8 <= b@.len(),
    ensures
        forall|x: u64| b@.subrange(pos as int, pos + 8) == #[trigger] enc_u64(x) ==> r == x,
{
    let v = read_u64(b, pos);
    proof {
        assert forall|x: u64| b@.subrange(pos as int, pos + 8) == #[trigger] enc_u64(x) implies v == x by {
            lemma_read_back_u64(x);
        }
    }
    v
}

pub fn read_i64_at(b: &[u8], pos: usize) -> (r: i64)
    requires
        pos + 8 <= b@.len(),
    ensures
        forall|x: i64| b@.subrange(pos as int, pos + 8) == #[trigger] enc_i64(x) ==> r == x,
{
    let v = read_i64(b, pos);
    proof {
        assert forall|x: i64| b@.subrange(pos as int, pos + 8) == #[trigger] enc_i64(x) implies v == x by {
            lemma_read_back_i64(x);
        }
    }
    v
}

pub fn read_key_at(b: &[u8], pos: usize) -> (r: Pubkey)
    requires
        pos + 32 <= b@.len(),
    ensures
        forall|k: Pubkey| b@.subrange(pos as int, pos + 32) == #[trigger] k.bytes@ ==> r == k,
{
    let v = read_key(b, pos);
    proof {
        assert forall|k: Pubkey| b@.subrange(pos as int, pos + 32) == #[trigger] k.bytes@ implies v == k by {
            vstd::array::axiom_array_ext_equal(v.bytes, k.bytes);
        }
    }
    v
}

pub fn read_opt_u64_at(b: &[u8], pos: usize) -> (r: Option<Option<u64>>)
    requires
        pos + 9 <= b@.len(),
    ensures
        forall|o: Option<u64>| b@.subrange(pos as int, pos + 9) == #[trigger] enc_opt_u64(o) ==> r == Some(o),
{
    let t = b[pos];
    let v = read_u64_at(b, pos + 1);
    proof {
        lemma_le_len_facts();
        assert forall|o: Option<u64>| b@.subrange(pos as int, pos + 9) == #[trigger] enc_opt_u64(o)
            implies (match o { None => t == 0, Some(x) => t == 1 && v == x }) by {
            let e = enc_opt_u64(o);
            assert(t == e[0]);
            if let Some(x) = o {
                assert(b@.subrange(pos + 1, pos + 9) =~= e.subrange(1, 9));
                assert(e.subrange(1, 9) =~= enc_u64(x));
            }
        }
    }
    if t == 0 {
        Some(None)
    } else if t == 1 {
        Some(Some(v))
    } else {
        None
    }
}

pub fn read_opt_u32_at(b: &[u8], pos: usize) -> (r: Option<Option<u32>>)
    requires
        pos + 5 <= b@.len(),
    ensures
        forall|o: Option<u32>| b@.subrange(pos as int, pos + 5) == #[trigger] enc_opt_u32(o) ==> r == Some(o),
{
    let t = b[pos];
    let v = read_u32_at(b, pos + 1);
    proof {
        lemma_le_len_facts();
        assert forall|o: Option<u32>| b@.subrange(pos as int, pos + 5) == #[trigger] enc_opt_u32(o)
            implies (match o { None => t == 0, Some(x) => t == 1 && v == x }) by {
            let e = enc_opt_u32(o);
            assert(t == e[0]);
            if let Some(x) = o {
                assert(b@.subrange(pos + 1, pos + 5) =~= e.subrange(1, 5));
                assert(e.subrange(1, 5) =~= enc_u32(x));
            }
        }
    }
    if t == 0 {
        Some(None)
    } else if t == 1 {
        Some(Some(v))
    } else {
        None
    }
}

pub fn read_opt_key_at(b: &[u8], pos: usize) -> (r: Option<Option<Pubkey>>)
    requires
        pos + 33 <= b@.len(),
    ensures
        forall|o: Option<Pubkey>| b@.subrange(pos as int, pos + 33) == #[trigger] enc_opt_key(o) ==> r == Some(o),
{
    let t = b[pos];
    let v = read_key_at(b, pos + 1);
    proof {
        assert forall|o: Option<Pubkey>| b@.subrange(pos as int, pos + 33) == #[trigger] enc_opt_key(o)
            implies (match o { None => t == 0, Some(k) => t == 1 && v == k }) by {
            let e = enc_opt_key(o);
            assert(t == e[0]);
            if let Some(k) = o {
                assert(b@.subrange(pos + 1, pos + 33) =~= e.subrange(1, 33));
                assert(e.subrange(1, 33) =~= k.bytes@);
            }
        }
    }
    if t == 0 {
        Some(None)
    } else if t == 1 {
        Some(Some(v))
    } else {
        None
    }
}

pub fn read_op_type_at(b: &[u8], pos: usize) -> (r: Option<OperationType>)
    requires
        pos + 1 <= b@.len(),
    ensures
        forall|op: OperationType| b@.subrange(pos as int, pos + 1) == #[trigger] enc_u8(op_type_index(op)) ==> r == Some(op),
{
    let x = read_u8_at(b, pos);
    op_type_from_byte(x)
}

pub fn read_status_at(b: &[u8], pos: usize) -> (r: Option<OperationStatus>)
    requires
        pos + 1 <= b@.len(),
    ensures
        forall|s: OperationStatus| b@.subrange(pos as int, pos + 1) == #[trigger] enc_u8(status_index(s)) ==> r == Some(s),
{
    let x = read_u8_at(b, pos);
    status_from_byte(x)
}

pub fn read_keys_at(b: &[u8], pos: usize, cap: usize) -> (r: Option<Vec<Pubkey>>)
    requires
        cap <= MAX_SIGNERS,
        pos + 1 + 32 * cap <= b@.len(),
    ensures
        forall|s: Seq<Pubkey>| s.len() <= cap && b@.subrange(pos as int, pos + 1 + 32 * cap) == #[trigger] enc_keys(s, cap as nat)
            ==> match r {
                Some(v) => v@ == s,
                None => false,
            },
{
    let r = read_keys(b, pos, cap);
    proof {
        assert forall|s: Seq<Pubkey>| s.len() <= cap && b@.subrange(pos as int, pos + 1 + 32 * cap) == #[trigger] enc_keys(s, cap as nat)
            implies (match r { Some(v) => v@ == s, None => false }) by {
            let e = enc_keys(s, cap as nat);
            assert(b@[pos as int] == e[0]);
            match r {
                Some(v) => {
                    lemma_keys_read_back(b@, pos as int, s, cap as nat, v@);
                },
                None => {},
            }
        }
    }
    r
}

/// The 8-byte type tag at `pos`.
pub fn read_tag_at(b: &[u8], pos: usize) -> (r: [u8; 8])
    requires
        pos + 8 <= b@.len(),
    ensures
        r@ == b@.subrange(pos as int, pos + 8),
{
    let len = b.len();
    let mut t: [u8; 8] = [0u8; 8];
    let mut i: usize = 0;
    while i < 8
        invariant
            0 <= i <= 8,
            pos + 8 <= b@.len(),
            len == b@.len(),
            forall|j: int| 0 <= j < i ==> t@[j] == b@[pos + j],
        decreases 8 - i,
    {
        t[i] = b[pos + i];
        i = i + 1;
    }
    assert(t@ =~= b@.subrange(pos as int, pos + 8));
    t
}

pub fn push_tag(out: &mut Vec<u8>, t: &[u8; 8])
    ensures
        final(out)@ == old(out)@ + t@,
{
    let ghost start = out@;
    let mut i: usize = 0;
    while i < 8
        invariant
            0 <= i <= 8,
            out@ == start + t@.subrange(0, i as int),
        decreases 8 - i,
    {
        out.push(t[i]);
        i = i + 1;
        assert(out@ =~= start + t@.subrange(0, i as int));
    }
    assert(t@.subrange(0, 8) =~= t@);
}

proof fn lemma_opt_u64_injective(a: Option<u64>, b: Option<u64>)
    requires
        enc_opt_u64(a) == enc_opt_u64(b),
    ensures
        a == b,
{
    lemma_le_len_facts();
    let ea = enc_opt_u64(a);
    let eb = enc_opt_u64(b);
    assert(ea[0] == eb[0]);
    if let (Some(x), Some(y)) = (a, b) {
        assert(ea.subrange(1, 9) =~= enc_u64(x));
        assert(eb.subrange(1, 9) =~= enc_u64(y));
        lemma_read_back_u64(x);
        lemma_read_back_u64(y);
    }
}

proof fn lemma_opt_u32_injective(a: Option<u32>, b: Option<u32>)
    requires
        enc_opt_u32(a) == enc_opt_u32(b),
    ensures
        a == b,
{
    lemma_le_len_facts();
    let ea = enc_opt_u32(a);
    let eb = enc_opt_u32(b);
    assert(ea[0] == eb[0]);
    if let (Some(x), Some(y)) = (a, b) {
        assert(ea.subrange(1, 5) =~= enc_u32(x));
        assert(eb.subrange(1, 5) =~= enc_u32(y));
        lemma_read_back_u32(x);
        lemma_read_back_u32(y);
    }
}

proof fn lemma_opt_key_injective(a: Option<Pubkey>, b: Option<Pubkey>)
    requires
        enc_opt_key(a) == enc_opt_key(b),
    ensures
        a == b,
{
    let ea = enc_opt_key(a);
    let eb = enc_opt_key(b);
    assert(ea[0] == eb[0]);
    if let (Some(x), Some(y)) = (a, b) {
        assert(ea.subrange(1, 33) =~= x.bytes@);
        assert(eb.subrange(1, 33) =~= y.bytes@);
        vstd::array::axiom_array_ext_equal(x.bytes, y.bytes);
    }
}

proof fn lemma_config_layout(c: SecurityConfig)
    ensures
        config_encoding(c).len() == 30,
        config_encoding(c).subrange(0, 4) == enc_u32(c.max_daily_operations),
        config_encoding(c).subrange(4, 12) == enc_i64(c.min_time_between_operations),
        config_encoding(c).subrange(12, 20) == enc_u64(c.require_multisig_for_large_amounts),
        config_encoding(c).subrange(20, 21) == enc_bool(c.auto_pause_on_suspicious_activity),
        config_encoding(c).subrange(21, 22) == enc_u8(c.max_managers),
        config_encoding(c).subrange(22, 30) == enc_i64(c.withdrawal_delay_seconds),
{
    lemma_le_len_facts();
    let e = config_encoding(c);
    assert(e.subrange(0, 4) =~= enc_u32(c.max_daily_operations));
    assert(e.subrange(4, 12) =~= enc_i64(c.min_time_between_operations));
    assert(e.subrange(12, 20) =~= enc_u64(c.require_multisig_for_large_amounts));
    assert(e.subrange(20, 21) =~= enc_bool(c.auto_pause_on_suspicious_activity));
    assert(e.subrange(21, 22) =~= enc_u8(c.max_managers));
    assert(e.subrange(22, 30) =~= enc_i64(c.withdrawal_delay_seconds));
}

/// Distinct policies never share a layout.
pub proof fn lemma_config_encoding_injective(a: SecurityConfig, b: SecurityConfig)
    requires
        config_encoding(a) == config_encoding(b),
    ensures
        a == b,
{
    lemma_config_layout(a);
    lemma_config_layout(b);
    lemma_read_back_u32(a.max_daily_operations);
    lemma_read_back_u32(b.max_daily_operations);
    lemma_read_back_i64(a.min_time_between_operations);
    lemma_read_back_i64(b.min_time_between_operations);
    lemma_read_back_u64(a.require_multisig_for_large_amounts);
    lemma_read_back_u64(b.require_multisig_for_large_amounts);
    assert(enc_bool(a.auto_pause_on_suspicious_activity)[0] == enc_bool(b.auto_pause_on_suspicious_activity)[0]);
    assert(enc_u8(a.max_managers)[0] == enc_u8(b.max_managers)[0]);
    lemma_read_back_i64(a.withdrawal_delay_seconds);
    lemma_read_back_i64(b.withdrawal_delay_seconds);
}

proof fn lemma_keys_injective(s: Seq<Pubkey>, t: Seq<Pubkey>, cap: nat)
    requires
        s.len() <= cap <= MAX_SIGNERS,
        t.len() <= cap,
        enc_keys(s, cap) == enc_keys(t, cap),
    ensures
        s == t,
{
    let es = enc_keys(s, cap);
    let et = enc_keys(t, cap);
    assert(es[0] == et[0]);
    assert(s.len() == t.len());
    assert forall|j: int| 0 <= j < s.len() implies s[j] == t[j] by {
        assert forall|k: int| 0 <= k < 32 implies s[j].bytes@[k] == t[j].bytes@[k] by {
            lemma_slot_index(j, k);
            assert(es[1 + 32 * j + k] == et[1 + 32 * j + k]);
        }
        assert(s[j].bytes@ =~= t[j].bytes@);
        vstd::array::axiom_array_ext_equal(s[j].bytes, t[j].bytes);
    }
    assert(s =~= t);
}

/// Size in bytes of a persisted audit record.
pub const AUDIT_RECORD_LEN: usize = 108;

/// The persisted layout of an audit record: kind tag, layout version, then each field.
pub open spec fn audit_encoding(a: AuditLog) -> Seq<u8> {
    enc_u8(AUDIT_RECORD)
        + enc_u8(LAYOUT_VERSION)
        + enc_u64(a.operation_id)
        + enc_u8(op_type_index(a.operation_type))
        + a.performer.bytes@
        + enc_i64(a.timestamp)
        + enc_opt_u64(a.amount)
        + enc_opt_key(a.target_account)
        + enc_bool(a.success)
        + enc_opt_u32(a.error_code)
        + enc_u64(a.gas_used)
        + enc_u8(a.bump)
}

/// The lists of an audit record fit their fixed slots.
pub open spec fn audit_fits(a: AuditLog) -> bool {
    true
}

proof fn lemma_audit_layout(a: AuditLog)
    requires
        audit_fits(a),
    ensures
        audit_encoding(a).len() == 108,
        audit_encoding(a).subrange(0, 1) == enc_u8(AUDIT_RECORD),
        audit_encoding(a).subrange(1, 2) == enc_u8(LAYOUT_VERSION),
        audit_encoding(a).subrange(2, 10) == enc_u64(a.operation_id),
        audit_encoding(a).subrange(10, 11) == enc_u8(op_type_index(a.operation_type)),
        audit_encoding(a).subrange(11, 43) == a.performer.bytes@,
        audit_encoding(a).subrange(43, 51) == enc_i64(a.timestamp),
        audit_encoding(a).subrange(51, 60) == enc_opt_u64(a.amount),
        audit_encoding(a).subrange(60, 93) == enc_opt_key(a.target_account),
        audit_encoding(a).subrange(93, 94) == enc_bool(a.success),
        audit_encoding(a).subrange(94, 99) == enc_opt_u32(a.error_code),
        audit_encoding(a).subrange(99, 107) == enc_u64(a.gas_used),
        audit_encoding(a).subrange(107, 108) == enc_u8(a.bump),
{
    lemma_le_len_facts();
    let e = audit_encoding(a);
    assert(e.subrange(0, 1) =~= enc_u8(AUDIT_RECORD));
    assert(e.subrange(1, 2) =~= enc_u8(LAYOUT_VERSION));
    assert(e.subrange(2, 10) =~= enc_u64(a.operation_id));
    assert(e.subrange(10, 11) =~= enc_u8(op_type_index(a.operation_type)));
    assert(e.subrange(11, 43) =~= a.performer.bytes@);
    assert(e.subrange(43, 51) =~= enc_i64(a.timestamp));
    assert(e.subrange(51, 60) =~= enc_opt_u64(a.amount));
    assert(e.subrange(60, 93) =~= enc_opt_key(a.target_account));
    assert(e.subrange(93, 94) =~= enc_bool(a.success));
    assert(e.subrange(94, 99) =~= enc_opt_u32(a.error_code));
    assert(e.subrange(99, 107) =~= enc_u64(a.gas_used));
    assert(e.subrange(107, 108) =~= enc_u8(a.bump));
}

/// Writes the persisted layout of an audit record.
pub fn encode_audit(a: &AuditLog) -> (r: Vec<u8>)
    requires
        audit_fits(*a),
    ensures
        r@ == audit_encoding(*a),
{
    let mut out: Vec<u8> = Vec::new();
    push_byte(&mut out, AUDIT_RECORD);
    push_byte(&mut out, LAYOUT_VERSION);
    push_u64(&mut out, a.operation_id);
    push_byte(&mut out, op_type_to_byte(a.operation_type));
    push_key(&mut out, &a.performer);
    push_i64(&mut out, a.timestamp);
    push_opt_u64(&mut out, a.amount);
    push_opt_key(&mut out, a.target_account);
    push_bool(&mut out, a.success);
    push_opt_u32(&mut out, a.error_code);
    push_u64(&mut out, a.gas_used);
    push_byte(&mut out, a.bump);
    assert(out@ =~= audit_encoding(*a));
    out
}

/// Reads a persisted audit record; the layout written by `encode_audit` is
/// always read back as the value written.
pub fn decode_audit(b: &[u8]) -> (r: Option<AuditLog>)
    ensures
        forall|a: AuditLog| #[trigger] audit_encoding(a) == b@ && audit_fits(a) ==> match r {
            Some(d) => d == a,
            None => false,
        },
{
    if b.len() != AUDIT_RECORD_LEN {
        proof {
            assert forall|a: AuditLog| #[trigger] audit_encoding(a) == b@ && audit_fits(a) implies false by {
                lemma_audit_layout(a);
            }
        }
        return None;
    }
    let f_tag = read_u8_at(b, 0);
    let f_version = read_u8_at(b, 1);
    let f_operation_id = read_u64_at(b, 2);
    let f_operation_type = read_op_type_at(b, 10);
    let f_performer = read_key_at(b, 11);
    let f_timestamp = read_i64_at(b, 43);
    let f_amount = read_opt_u64_at(b, 51);
    let f_target_account = read_opt_key_at(b, 60);
    let f_success = read_bool_at(b, 93);
    let f_error_code = read_opt_u32_at(b, 94);
    let f_gas_used = read_u64_at(b, 99);
    let f_bump = read_u8_at(b, 107);
    proof {
        assert forall|a: AuditLog| #[trigger] audit_encoding(a) == b@ && audit_fits(a) implies
            f_tag == AUDIT_RECORD
            && f_version == LAYOUT_VERSION
            && f_operation_id == a.operation_id
            && f_operation_type == Some(a.operation_type)
            && f_performer == a.performer
            && f_timestamp == a.timestamp
            && f_amount == Some(a.amount)
            && f_target_account == Some(a.target_account)
            && f_success == Some(a.success)
            && f_error_code == Some(a.error_code)
            && f_gas_used == a.gas_used
            && f_bump == a.bump by {
            lemma_audit_layout(a);
            assert(b@.subrange(0, 1) == enc_u8(AUDIT_RECORD));
            assert(b@.subrange(1, 2) == enc_u8(LAYOUT_VERSION));
            assert(b@.subrange(2, 10) == enc_u64(a.operation_id));
            assert(b@.subrange(10, 11) == enc_u8(op_type_index(a.operation_type)));
            assert(b@.subrange(11, 43) == a.performer.bytes@);
            assert(b@.subrange(43, 51) == enc_i64(a.timestamp));
            assert(b@.subrange(51, 60) == enc_opt_u64(a.amount));
            assert(b@.subrange(60, 93) == enc_opt_key(a.target_account));
            assert(b@.subrange(93, 94) == enc_bool(a.success));
            assert(b@.subrange(94, 99) == enc_opt_u32(a.error_code));
            assert(b@.subrange(99, 107) == enc_u64(a.gas_used));
            assert(b@.subrange(107, 108) == enc_u8(a.bump));
        }
    }
    if f_tag != AUDIT_RECORD || f_version != LAYOUT_VERSION {
        return None;
    }
    let operation_id = f_operation_id;
    let operation_type = match f_operation_type {
        Some(x) => x,
        None => {
            return None;
        },
    };
    let performer = f_performer;
    let timestamp = f_timestamp;
    let amount = match f_amount {
        Some(x) => x,
        None => {
            return None;
        },
    };
    let target_account = match f_target_account {
        Some(x) => x,
        None => {
            return None;
        },
    };
    let success = match f_success {
        Some(x) => x,
        None => {
            return None;
        },
    };
    let error_code = match f_error_code {
        Some(x) => x,
        None => {
            return None;
        },
    };
    let gas_used = f_gas_used;
    let bump = f_bump;
    let d = AuditLog { operation_id, operation_type, performer, timestamp, amount, target_account, success, error_code, gas_used, bump };
    Some(d)
}

/// Distinct audit records never share a layout: equal layouts hold equal values.
pub proof fn lemma_audit_encoding_injective(a: AuditLog, b: AuditLog)
    requires
        audit_fits(a),
        audit_fits(b),
        audit_encoding(a) == audit_encoding(b),
    ensures
        a == b,
{
    lemma_le_len_facts();
    lemma_audit_layout(a);
    lemma_audit_layout(b);
    lemma_read_back_u64(a.operation_id);
    lemma_read_back_u64(b.operation_id);
    assert(enc_u8(op_type_index(a.operation_type))[0] == enc_u8(op_type_index(b.operation_type))[0]);
    vstd::array::axiom_array_ext_equal(a.performer.bytes, b.performer.bytes);
    lemma_read_back_i64(a.timestamp);
    lemma_read_back_i64(b.timestamp);
    lemma_opt_u64_injective(a.amount, b.amount);
    lemma_opt_key_injective(a.target_account, b.target_account);
    assert(enc_bool(a.success)[0] == enc_bool(b.success)[0]);
    lemma_opt_u32_injective(a.error_code, b.error_code);
    lemma_read_back_u64(a.gas_used);
    lemma_read_back_u64(b.gas_used);
    assert(enc_u8(a.bump)[0] == enc_u8(b.bump)[0]);
}


/// Size in bytes of a persisted vault.
pub const VAULT_RECORD_LEN: usize = 617;

/// The persisted layout of a vault: kind tag, layout version, then each field.
pub open spec fn vault_encoding(v: SecureVault) -> Seq<u8> {
    enc_u8(VAULT_RECORD)
        + enc_u8(LAYOUT_VERSION)
        + v.discriminator@
        + v.admin.bytes@
        + enc_keys(v.managers@, MAX_MANAGER as nat)
        + enc_u64(v.total_balance)
        + enc_bool(v.is_paused)
        + enc_u8(v.min_signatures_required)
        + enc_i64(v.last_operation_timestamp)
        + enc_u64(v.daily_withdrawal_limit)
        + enc_u64(v.daily_withdrawn_amount)
        + enc_i64(v.last_reset_day)
        + enc_u64(v.operation_count)
        + enc_u32(v.daily_operation_count)
        + enc_keys(v.emergency_contacts@, MAX_EMERGENCY_CONTACTS as nat)
        + enc_i64(v.created_at)
        + config_encoding(v.config)
        + enc_u8(v.bump)
}

/// The lists of a vault fit their fixed slots.
pub open spec fn vault_fits(v: SecureVault) -> bool {
    v.managers@.len() <= MAX_MANAGER && v.emergency_contacts@.len() <= MAX_EMERGENCY_CONTACTS
}

/// `a` and `b` hold the same vault: equal fields and equal lists.
pub open spec fn same_vault(a: SecureVault, b: SecureVault) -> bool {
    (a == SecureVault { managers: a.managers, emergency_contacts: a.emergency_contacts, ..b })
        && a.managers@ == b.managers@
        && a.emergency_contacts@ == b.emergency_contacts@
}

proof fn lemma_vault_layout(v: SecureVault)
    requires
        vault_fits(v),
    ensures
        vault_encoding(v).len() == 617,
        vault_encoding(v).subrange(0, 1) == enc_u8(VAULT_RECORD),
        vault_encoding(v).subrange(1, 2) == enc_u8(LAYOUT_VERSION),
        vault_encoding(v).subrange(2, 10) == v.discriminator@,
        vault_encoding(v).subrange(10, 42) == v.admin.bytes@,
        vault_encoding(v).subrange(42, 363) == enc_keys(v.managers@, MAX_MANAGER as nat),
        vault_encoding(v).subrange(363, 371) == enc_u64(v.total_balance),
        vault_encoding(v).subrange(371, 372) == enc_bool(v.is_paused),
        vault_encoding(v).subrange(372, 373) == enc_u8(v.min_signatures_required),
        vault_encoding(v).subrange(373, 381) == enc_i64(v.last_operation_timestamp),
        vault_encoding(v).subrange(381, 389) == enc_u64(v.daily_withdrawal_limit),
        vault_encoding(v).subrange(389, 397) == enc_u64(v.daily_withdrawn_amount),
        vault_encoding(v).subrange(397, 405) == enc_i64(v.last_reset_day),
        vault_encoding(v).subrange(405, 413) == enc_u64(v.operation_count),
        vault_encoding(v).subrange(413, 417) == enc_u32(v.daily_operation_count),
        vault_encoding(v).subrange(417, 578) == enc_keys(v.emergency_contacts@, MAX_EMERGENCY_CONTACTS as nat),
        vault_encoding(v).subrange(578, 586) == enc_i64(v.created_at),
        vault_encoding(v).subrange(586, 616) == config_encoding(v.config),
        vault_encoding(v).subrange(616, 617) == enc_u8(v.bump),
{
    lemma_le_len_facts();
    let e = vault_encoding(v);
    assert(e.subrange(0, 1) =~= enc_u8(VAULT_RECORD));
    assert(e.subrange(1, 2) =~= enc_u8(LAYOUT_VERSION));
    assert(e.subrange(2, 10) =~= v.discriminator@);
    assert(e.subrange(10, 42) =~= v.admin.bytes@);
    assert(e.subrange(42, 363) =~= enc_keys(v.managers@, MAX_MANAGER as nat));
    assert(e.subrange(363, 371) =~= enc_u64(v.total_balance));
    assert(e.subrange(371, 372) =~= enc_bool(v.is_paused));
    assert(e.subrange(372, 373) =~= enc_u8(v.min_signatures_required));
    assert(e.subrange(373, 381) =~= enc_i64(v.last_operation_timestamp));
    assert(e.subrange(381, 389) =~= enc_u64(v.daily_withdrawal_limit));
    assert(e.subrange(389, 397) =~= enc_u64(v.daily_withdrawn_amount));
    assert(e.subrange(397, 405) =~= enc_i64(v.last_reset_day));
    assert(e.subrange(405, 413) =~= enc_u64(v.operation_count));
    assert(e.subrange(413, 417) =~= enc_u32(v.daily_operation_count));
    assert(e.subrange(417, 578) =~= enc_keys(v.emergency_contacts@, MAX_EMERGENCY_CONTACTS as nat));
    assert(e.subrange(578, 586) =~= enc_i64(v.created_at));
    assert(e.subrange(586, 616) =~= config_encoding(v.config));
    assert(e.subrange(616, 617) =~= enc_u8(v.bump));
}

/// Writes the persisted layout of a vault.
pub fn encode_vault(v: &SecureVault) -> (r: Vec<u8>)
    requires
        vault_fits(*v),
    ensures
        r@ == vault_encoding(*v),
{
    let mut out: Vec<u8> = Vec::new();
    push_byte(&mut out, VAULT_RECORD);
    push_byte(&mut out, LAYOUT_VERSION);
    push_tag(&mut out, &v.discriminator);
    push_key(&mut out, &v.admin);
    push_keys(&mut out, &v.managers, MAX_MANAGER);
    push_u64(&mut out, v.total_balance);
    push_bool(&mut out, v.is_paused);
    push_byte(&mut out, v.min_signatures_required);
    push_i64(&mut out, v.last_operation_timestamp);
    push_u64(&mut out, v.daily_withdrawal_limit);
    push_u64(&mut out, v.daily_withdrawn_amount);
    push_i64(&mut out, v.last_reset_day);
    push_u64(&mut out, v.operation_count);
    push_u32(&mut out, v.daily_operation_count);
    push_keys(&mut out, &v.emergency_contacts, MAX_EMERGENCY_CONTACTS);
    push_i64(&mut out, v.created_at);
    encode_config(&mut out, &v.config);
    push_byte(&mut out, v.bump);
    assert(out@ =~= vault_encoding(*v));
    out
}

/// Reads a persisted vault; the layout written by `encode_vault` is
/// always read back as the value written.
pub fn decode_vault(b: &[u8]) -> (r: Option<SecureVault>)
    ensures
        forall|v: SecureVault| #[trigger] vault_encoding(v) == b@ && vault_fits(v) ==> match r {
            Some(d) => same_vault(d, v),
            None => false,
        },
{
    if b.len() != VAULT_RECORD_LEN {
        proof {
            assert forall|v: SecureVault| #[trigger] vault_encoding(v) == b@ && vault_fits(v) implies false by {
                lemma_vault_layout(v);
            }
        }
        return None;
    }
    let f_tag = read_u8_at(b, 0);
    let f_version = read_u8_at(b, 1);
    let f_discriminator = read_tag_at(b, 2);
    let f_admin = read_key_at(b, 10);
    let f_managers = read_keys_at(b, 42, MAX_MANAGER);
    let f_total_balance = read_u64_at(b, 363);
    let f_is_paused = read_bool_at(b, 371);
    let f_min_signatures_required = read_u8_at(b, 372);
    let f_last_operation_timestamp = read_i64_at(b, 373);
    let f_daily_withdrawal_limit = read_u64_at(b, 381);
    let f_daily_withdrawn_amount = read_u64_at(b, 389);
    let f_last_reset_day = read_i64_at(b, 397);
    let f_operation_count = read_u64_at(b, 405);
    let f_daily_operation_count = read_u32_at(b, 413);
    let f_emergency_contacts = read_keys_at(b, 417, MAX_EMERGENCY_CONTACTS);
    let f_created_at = read_i64_at(b, 578);
    let f_config = decode_config(b, 586);
    let f_bump = read_u8_at(b, 616);
    proof {
        assert forall|v: SecureVault| #[trigger] vault_encoding(v) == b@ && vault_fits(v) implies
            f_tag == VAULT_RECORD
            && f_version == LAYOUT_VERSION
            && f_discriminator == v.discriminator
            && f_admin == v.admin
            && (match f_managers { Some(w) => w@ == v.managers@, None => false })
            && f_total_balance == v.total_balance
            && f_is_paused == Some(v.is_paused)
            && f_min_signatures_required == v.min_signatures_required
            && f_last_operation_timestamp == v.last_operation_timestamp
            && f_daily_withdrawal_limit == v.daily_withdrawal_limit
            && f_daily_withdrawn_amount == v.daily_withdrawn_amount
            && f_last_reset_day == v.last_reset_day
            && f_operation_count == v.operation_count
            && f_daily_operation_count == v.daily_operation_count
            && (match f_emergency_contacts { Some(w) => w@ == v.emergency_contacts@, None => false })
            && f_created_at == v.created_at
            && f_config == Some(v.config)
            && f_bump == v.bump by {
            lemma_vault_layout(v);
            assert(b@.subrange(0, 1) == enc_u8(VAULT_RECORD));
            assert(b@.subrange(1, 2) == enc_u8(LAYOUT_VERSION));
            assert(b@.subrange(2, 10) == v.discriminator@);
            vstd::array::axiom_array_ext_equal(f_discriminator, v.discriminator);
            assert(b@.subrange(10, 42) == v.admin.bytes@);
            assert(b@.subrange(42, 363) == enc_keys(v.managers@, MAX_MANAGER as nat));
            assert(b@.subrange(363, 371) == enc_u64(v.total_balance));
            assert(b@.subrange(371, 372) == enc_bool(v.is_paused));
            assert(b@.subrange(372, 373) == enc_u8(v.min_signatures_required));
            assert(b@.subrange(373, 381) == enc_i64(v.last_operation_timestamp));
            assert(b@.subrange(381, 389) == enc_u64(v.daily_withdrawal_limit));
            assert(b@.subrange(389, 397) == enc_u64(v.daily_withdrawn_amount));
            assert(b@.subrange(397, 405) == enc_i64(v.last_reset_day));
            assert(b@.subrange(405, 413) == enc_u64(v.operation_count));
            assert(b@.subrange(413, 417) == enc_u32(v.daily_operation_count));
            assert(b@.subrange(417, 578) == enc_keys(v.emergency_contacts@, MAX_EMERGENCY_CONTACTS as nat));
            assert(b@.subrange(578, 586) == enc_i64(v.created_at));
            assert(b@.subrange(586, 616) == config_encoding(v.config));
            assert(b@.subrange(616, 617) == enc_u8(v.bump));
        }
    }
    if f_tag != VAULT_RECORD || f_version != LAYOUT_VERSION {
        return None;
    }
    let discriminator = f_discriminator;
    let admin = f_admin;
    let managers = match f_managers {
        Some(x) => x,
        None => {
            return None;
        },
    };
    let total_balance = f_total_balance;
    let is_paused = match f_is_paused {
        Some(x) => x,
        None => {
            return None;
        },
    };
    let min_signatures_required = f_min_signatures_required;
    let last_operation_timestamp = f_last_operation_timestamp;
    let daily_withdrawal_limit = f_daily_withdrawal_limit;
    let daily_withdrawn_amount = f_daily_withdrawn_amount;
    let last_reset_day = f_last_reset_day;
    let operation_count = f_operation_count;
    let daily_operation_count = f_daily_operation_count;
    let emergency_contacts = match f_emergency_contacts {
        Some(x) => x,
        None => {
            return None;
        },
    };
    let created_at = f_created_at;
    let config = match f_config {
        Some(x) => x,
        None => {
            return None;
        },
    };
    let bump = f_bump;
    let d = SecureVault { discriminator, admin, managers, total_balance, is_paused, min_signatures_required, last_operation_timestamp, daily_withdrawal_limit, daily_withdrawn_amount, last_reset_day, operation_count, daily_operation_count, emergency_contacts, created_at, config, bump };
    proof {
        assert forall|v: SecureVault| #[trigger] vault_encoding(v) == b@ && vault_fits(v) implies same_vault(d, v) by {
            assert(d.managers@ == v.managers@);
            assert(d.emergency_contacts@ == v.emergency_contacts@);
        }
    }
    Some(d)
}

/// Distinct vaults never share a layout: equal layouts hold equal values.
pub proof fn lemma_vault_encoding_injective(a: SecureVault, b: SecureVault)
    requires
        vault_fits(a),
        vault_fits(b),
        vault_encoding(a) == vault_encoding(b),
    ensures
        same_vault(a, b),
{
    lemma_le_len_facts();
    lemma_vault_layout(a);
    lemma_vault_layout(b);
    vstd::array::axiom_array_ext_equal(a.discriminator, b.discriminator);
    vstd::array::axiom_array_ext_equal(a.admin.bytes, b.admin.bytes);
    lemma_keys_injective(a.managers@, b.managers@, MAX_MANAGER as nat);
    lemma_read_back_u64(a.total_balance);
    lemma_read_back_u64(b.total_balance);
    assert(enc_bool(a.is_paused)[0] == enc_bool(b.is_paused)[0]);
    assert(enc_u8(a.min_signatures_required)[0] == enc_u8(b.min_signatures_required)[0]);
    lemma_read_back_i64(a.last_operation_timestamp);
    lemma_read_back_i64(b.last_operation_timestamp);
    lemma_read_back_u64(a.daily_withdrawal_limit);
    lemma_read_back_u64(b.daily_withdrawal_limit);
    lemma_read_back_u64(a.daily_withdrawn_amount);
    lemma_read_back_u64(b.daily_withdrawn_amount);
    lemma_read_back_i64(a.last_reset_day);
    lemma_read_back_i64(b.last_reset_day);
    lemma_read_back_u64(a.operation_count);
    lemma_read_back_u64(b.operation_count);
    lemma_read_back_u32(a.daily_operation_count);
    lemma_read_back_u32(b.daily_operation_count);
    lemma_keys_injective(a.emergency_contacts@, b.emergency_contacts@, MAX_EMERGENCY_CONTACTS as nat);
    lemma_read_back_i64(a.created_at);
    lemma_read_back_i64(b.created_at);
    lemma_config_encoding_injective(a.config, b.config);
    assert(enc_u8(a.bump)[0] == enc_u8(b.bump)[0]);
}

/// Size in bytes of a persisted pending operation.
pub const PENDING_RECORD_LEN: usize = 807;

/// The persisted layout of a pending operation: kind tag, layout version, then each field.
pub open spec fn pending_encoding(p: PendingOperation) -> Seq<u8> {
    enc_u8(PENDING_RECORD)
        + enc_u8(LAYOUT_VERSION)
        + enc_u64(p.id)
        + enc_u8(op_type_index(p.operation_type))
        + p.performer.bytes@
        + enc_u64(p.amount)
        + p.target_account.bytes@
        + enc_i64(p.scheduled_execution)
        + enc_keys(p.required_signatures@, MAX_SIGNERS as nat)
        + enc_keys(p.received_signatures@, MAX_SIGNERS as nat)
        + enc_i64(p.created_at)
        + enc_u8(status_index(p.status))
        + enc_u8(p.bump)
}

/// The lists of a pending operation fit their fixed slots.
pub open spec fn pending_fits(p: PendingOperation) -> bool {
    p.required_signatures@.len() <= MAX_SIGNERS && p.received_signatures@.len() <= MAX_SIGNERS
}

/// `a` and `b` hold the same pending operation: equal fields and equal lists.
pub open spec fn same_pending(a: PendingOperation, b: PendingOperation) -> bool {
    (a == PendingOperation { required_signatures: a.required_signatures, received_signatures: a.received_signatures, ..b })
        && a.required_signatures@ == b.required_signatures@
        && a.received_signatures@ == b.received_signatures@
}

proof fn lemma_pending_layout(p: PendingOperation)
    requires
        pending_fits(p),
    ensures
        pending_encoding(p).len() == 807,
        pending_encoding(p).subrange(0, 1) == enc_u8(PENDING_RECORD),
        pending_encoding(p).subrange(1, 2) == enc_u8(LAYOUT_VERSION),
        pending_encoding(p).subrange(2, 10) == enc_u64(p.id),
        pending_encoding(p).subrange(10, 11) == enc_u8(op_type_index(p.operation_type)),
        pending_encoding(p).subrange(11, 43) == p.performer.bytes@,
        pending_encoding(p).subrange(43, 51) == enc_u64(p.amount),
        pending_encoding(p).subrange(51, 83) == p.target_account.bytes@,
        pending_encoding(p).subrange(83, 91) == enc_i64(p.scheduled_execution),
        pending_encoding(p).subrange(91, 444) == enc_keys(p.required_signatures@, MAX_SIGNERS as nat),
        pending_encoding(p).subrange(444, 797) == enc_keys(p.received_signatures@, MAX_SIGNERS as nat),
        pending_encoding(p).subrange(797, 805) == enc_i64(p.created_at),
        pending_encoding(p).subrange(805, 806) == enc_u8(status_index(p.status)),
        pending_encoding(p).subrange(806, 807) == enc_u8(p.bump),
{
    lemma_le_len_facts();
    let e = pending_encoding(p);
    assert(e.subrange(0, 1) =~= enc_u8(PENDING_RECORD));
    assert(e.subrange(1, 2) =~= enc_u8(LAYOUT_VERSION));
    assert(e.subrange(2, 10) =~= enc_u64(p.id));
    assert(e.subrange(10, 11) =~= enc_u8(op_type_index(p.operation_type)));
    assert(e.subrange(11, 43) =~= p.performer.bytes@);
    assert(e.subrange(43, 51) =~= enc_u64(p.amount));
    assert(e.subrange(51, 83) =~= p.target_account.bytes@);
    assert(e.subrange(83, 91) =~= enc_i64(p.scheduled_execution));
    assert(e.subrange(91, 444) =~= enc_keys(p.required_signatures@, MAX_SIGNERS as nat));
    assert(e.subrange(444, 797) =~= enc_keys(p.received_signatures@, MAX_SIGNERS as nat));
    assert(e.subrange(797, 805) =~= enc_i64(p.created_at));
    assert(e.subrange(805, 806) =~= enc_u8(status_index(p.status)));
    assert(e.subrange(806, 807) =~= enc_u8(p.bump));
}

/// Writes the persisted layout of a pending operation.
pub fn encode_pending(p: &PendingOperation) -> (r: Vec<u8>)
    requires
        pending_fits(*p),
    ensures
        r@ == pending_encoding(*p),
{
    let mut out: Vec<u8> = Vec::new();
    push_byte(&mut out, PENDING_RECORD);
    push_byte(&mut out, LAYOUT_VERSION);
    push_u64(&mut out, p.id);
    push_byte(&mut out, op_type_to_byte(p.operation_type));
    push_key(&mut out, &p.performer);
    push_u64(&mut out, p.amount);
    push_key(&mut out, &p.target_account);
    push_i64(&mut out, p.scheduled_execution);
    push_keys(&mut out, &p.required_signatures, MAX_SIGNERS);
    push_keys(&mut out, &p.received_signatures, MAX_SIGNERS);
    push_i64(&mut out, p.created_at);
    push_byte(&mut out, status_to_byte(p.status));
    push_byte(&mut out, p.bump);
    assert(out@ =~= pending_encoding(*p));
    out
}

/// Reads a persisted pending operation; the layout written by `encode_pending` is
/// always read back as the value written.
pub fn decode_pending(b: &[u8]) -> (r: Option<PendingOperation>)
    ensures
        forall|p: PendingOperation| #[trigger] pending_encoding(p) == b@ && pending_fits(p) ==> match r {
            Some(d) => same_pending(d, p),
            None => false,
        },
{
    if b.len() != PENDING_RECORD_LEN {
        proof {
            assert forall|p: PendingOperation| #[trigger] pending_encoding(p) == b@ && pending_fits(p) implies false by {
                lemma_pending_layout(p);
            }
        }
        return None;
    }
    let f_tag = read_u8_at(b, 0);
    let f_version = read_u8_at(b, 1);
    let f_id = read_u64_at(b, 2);
    let f_operation_type = read_op_type_at(b, 10);
    let f_performer = read_key_at(b, 11);
    let f_amount = read_u64_at(b, 43);
    let f_target_account = read_key_at(b, 51);
    let f_scheduled_execution = read_i64_at(b, 83);
    let f_required_signatures = read_keys_at(b, 91, MAX_SIGNERS);
    let f_received_signatures = read_keys_at(b, 444, MAX_SIGNERS);
    let f_created_at = read_i64_at(b, 797);
    let f_status = read_status_at(b, 805);
    let f_bump = read_u8_at(b, 806);
    proof {
        assert forall|p: PendingOperation| #[trigger] pending_encoding(p) == b@ && pending_fits(p) implies
            f_tag == PENDING_RECORD
            && f_version == LAYOUT_VERSION
            && f_id == p.id
            && f_operation_type == Some(p.operation_type)
            && f_performer == p.performer
            && f_amount == p.amount
            && f_target_account == p.target_account
            && f_scheduled_execution == p.scheduled_execution
            && (match f_required_signatures { Some(w) => w@ == p.required_signatures@, None => false })
            && (match f_received_signatures { Some(w) => w@ == p.received_signatures@, None => false })
            && f_created_at == p.created_at
            && f_status == Some(p.status)
            && f_bump == p.bump by {
            lemma_pending_layout(p);
            assert(b@.subrange(0, 1) == enc_u8(PENDING_RECORD));
            assert(b@.subrange(1, 2) == enc_u8(LAYOUT_VERSION));
            assert(b@.subrange(2, 10) == enc_u64(p.id));
            assert(b@.subrange(10, 11) == enc_u8(op_type_index(p.operation_type)));
            assert(b@.subrange(11, 43) == p.performer.bytes@);
            assert(b@.subrange(43, 51) == enc_u64(p.amount));
            assert(b@.subrange(51, 83) == p.target_account.bytes@);
            assert(b@.subrange(83, 91) == enc_i64(p.scheduled_execution));
            assert(b@.subrange(91, 444) == enc_keys(p.required_signatures@, MAX_SIGNERS as nat));
            assert(b@.subrange(444, 797) == enc_keys(p.received_signatures@, MAX_SIGNERS as nat));
            assert(b@.subrange(797, 805) == enc_i64(p.created_at));
            assert(b@.subrange(805, 806) == enc_u8(status_index(p.status)));
            assert(b@.subrange(806, 807) == enc_u8(p.bump));
        }
    }
    if f_tag != PENDING_RECORD || f_version != LAYOUT_VERSION {
        return None;
    }
    let id = f_id;
    let operation_type = match f_operation_type {
        Some(x) => x,
        None => {
            return None;
        },
    };
    let performer = f_performer;
    let amount = f_amount;
    let target_account = f_target_account;
    let scheduled_execution = f_scheduled_execution;
    let required_signatures = match f_required_signatures {
        Some(x) => x,
        None => {
            return None;
        },
    };
    let received_signatures = match f_received_signatures {
        Some(x) => x,
        None => {
            return None;
        },
    };
    let created_at = f_created_at;
    let status = match f_status {
        Some(x) => x,
        None => {
            return None;
        },
    };
    let bump = f_bump;
    let d = PendingOperation { id, operation_type, performer, amount, target_account, scheduled_execution, required_signatures, received_signatures, created_at, status, bump };
    proof {
        assert forall|p: PendingOperation| #[trigger] pending_encoding(p) == b@ && pending_fits(p) implies same_pending(d, p) by {
            assert(d.required_signatures@ == p.required_signatures@);
            assert(d.received_signatures@ == p.received_signatures@);
        }
    }
    Some(d)
}

/// Distinct pending operations never share a layout: equal layouts hold equal values.
pub proof fn lemma_pending_encoding_injective(a: PendingOperation, b: PendingOperation)
    requires
        pending_fits(a),
        pending_fits(b),
        pending_encoding(a) == pending_encoding(b),
    ensures
        same_pending(a, b),
{
    lemma_le_len_facts();
    lemma_pending_layout(a);
    lemma_pending_layout(b);
    lemma_read_back_u64(a.id);
    lemma_read_back_u64(b.id);
    assert(enc_u8(op_type_index(a.operation_type))[0] == enc_u8(op_type_index(b.operation_type))[0]);
    vstd::array::axiom_array_ext_equal(a.performer.bytes, b.performer.bytes);
    lemma_read_back_u64(a.amount);
    lemma_read_back_u64(b.amount);
    vstd::array::axiom_array_ext_equal(a.target_account.bytes, b.target_account.bytes);
    lemma_read_back_i64(a.scheduled_execution);
    lemma_read_back_i64(b.scheduled_execution);
    lemma_keys_injective(a.required_signatures@, b.required_signatures@, MAX_SIGNERS as nat);
    lemma_keys_injective(a.received_signatures@, b.received_signatures@, MAX_SIGNERS as nat);
    lemma_read_back_i64(a.created_at);
    lemma_read_back_i64(b.created_at);
    assert(enc_u8(status_index(a.status))[0] == enc_u8(status_index(b.status))[0]);
    assert(enc_u8(a.bump)[0] == enc_u8(b.bump)[0]);
}

} // verus!
