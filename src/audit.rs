use vstd::prelude::*;
use crate::pubkey::Pubkey;
use crate::error::{VaultError, ErrorSeverity, code_of, error_of_code, severity_of};
use crate::state::{AuditLog, OperationType};
use crate::security::{SecurityManager, AnomalyPolicy, large_withdrawal, too_frequent, privileged_cluster};

verus! {

/// The record of one attempt, with its outcome.
pub open spec fn entry_for(
    operation_id: u64,
    operation_type: OperationType,
    performer: Pubkey,
    timestamp: i64,
    amount: Option<u64>,
    target_account: Option<Pubkey>,
    outcome: Result<(), VaultError>,
) -> AuditLog {
    AuditLog {
        operation_id,
        operation_type,
        performer,
        timestamp,
        amount,
        target_account,
        success: outcome is Ok,
        error_code: match outcome {
            Ok(_) => None,
            Err(e) => Some(code_of(e)),
        },
        gas_used: 0,
        bump: 0,
    }
}

/// The append-only audit log of a vault: its records in order, numbered
/// without gaps, and the number the next record takes.
#[derive(Clone, Debug)]
pub struct AuditTrail {
    pub entries: Vec<AuditLog>,
    pub next_operation_id: u64,
}

impl AuditTrail {
    /// Records are numbered consecutively up to `next_operation_id`.
    pub open spec fn wf(&self) -> bool {
        &&& self.entries@.len() <= self.next_operation_id
        &&& forall|i: int| 0 <= i < self.entries@.len() ==> #[trigger] self.entries@[i].operation_id
            == self.next_operation_id - self.entries@.len() + i
    }

    /// An empty log whose first record will be numbered `first_id`.
    pub fn new(first_id: u64) -> (r: AuditTrail)
        ensures
            r.entries@ == Seq::<AuditLog>::empty(),
            r.next_operation_id == first_id,
            r.wf(),
    {
        AuditTrail { entries: Vec::new(), next_operation_id: first_id }
    }

    /// Appends the record of one attempt and its outcome.
    pub fn record(
        &mut self,
        operation_type: OperationType,
        performer: Pubkey,
        timestamp: i64,
        amount: Option<u64>,
        target_account: Option<Pubkey>,
        outcome: Result<(), VaultError>,
    )
        requires
            old(self).wf(),
            old(self).next_operation_id < u64::MAX,
        ensures
            final(self).wf(),
            final(self).next_operation_id == old(self).next_operation_id + 1,
            final(self).entries@ == old(self).entries@.push(
                entry_for(old(self).next_operation_id, operation_type, performer, timestamp, amount, target_account, outcome),
            ),
    {
        let entry = AuditManager::create_audit_log(
            self.next_operation_id,
            operation_type,
            performer,
            timestamp,
            amount,
            target_account,
        );
        let entry = match outcome {
            Ok(_) => AuditLog { success: true, ..entry },
            Err(e) => AuditLog { success: false, error_code: Some(e.error_code()), ..entry },
        };
        self.entries.push(entry);
        self.next_operation_id = self.next_operation_id + 1;
    }
}

pub struct AuditManager;

impl AuditManager {
    /// A record of an attempt, not yet marked as succeeded or failed.
    pub fn create_audit_log(
        operation_id: u64,
        operation_type: OperationType,
        performer: Pubkey,
        timestamp: i64,
        amount: Option<u64>,
        target_account: Option<Pubkey>,
    ) -> (r: AuditLog)
        ensures
            r == (AuditLog {
                operation_id,
                operation_type,
                performer,
                timestamp,
                amount,
                target_account,
                success: false,
                error_code: None,
                gas_used: 0,
                bump: 0,
            }),
    {
        AuditLog {
            operation_id,
            operation_type,
            performer,
            timestamp,
            amount,
            target_account,
            success: false,
            error_code: None,
            gas_used: 0,
            bump: 0,
        }
    }
}

/// The first index of the page that starts at `from` in a trail whose
/// records are numbered from `base`.
pub open spec fn page_start(base: int, len: int, from: int) -> int {
    if from <= base {
        0
    } else if from - base >= len {
        len
    } else {
        from - base
    }
}

pub open spec fn page_end(start: int, len: int, limit: int) -> int {
    if start + limit >= len {
        len
    } else {
        start + limit
    }
}

/// Consecutive ids and non-decreasing timestamps.
pub open spec fn log_is_continuous(s: Seq<AuditLog>) -> bool {
    forall|i: int| 1 <= i < s.len() ==> #[trigger] s[i].operation_id == s[i - 1].operation_id + 1
        && s[i - 1].timestamp <= s[i].timestamp
}

/// Conjunctive filter over audit records; an absent field matches all.
#[derive(Clone, Copy, Debug)]
pub struct AuditSearchCriteria {
    pub operation_type: Option<OperationType>,
    pub performer: Option<Pubkey>,
    pub target_account: Option<Pubkey>,
    pub from_timestamp: Option<i64>,
    pub to_timestamp: Option<i64>,
    pub min_amount: Option<u64>,
    pub max_amount: Option<u64>,
    pub success_only: Option<bool>,
    pub error_code: Option<u32>,
}

/// Whether record `e` meets every criterion set in `c`. Amount bounds
/// reject records without an amount.
pub open spec fn matches_criteria(e: AuditLog, c: AuditSearchCriteria) -> bool {
    &&& (c.operation_type is Some ==> e.operation_type == c.operation_type->Some_0)
    &&& (c.performer is Some ==> e.performer == c.performer->Some_0)
    &&& (c.target_account is Some ==> e.target_account == c.target_account)
    &&& (c.from_timestamp is Some ==> e.timestamp >= c.from_timestamp->Some_0)
    &&& (c.to_timestamp is Some ==> e.timestamp <= c.to_timestamp->Some_0)
    &&& (c.min_amount is Some ==> e.amount is Some && e.amount->Some_0 >= c.min_amount->Some_0)
    &&& (c.max_amount is Some ==> e.amount is Some && e.amount->Some_0 <= c.max_amount->Some_0)
    &&& (c.success_only is Some ==> e.success == c.success_only->Some_0)
    &&& (c.error_code is Some ==> e.error_code == c.error_code)
}

/// The records of `s` that match `c`, in their order.
pub open spec fn select(s: Seq<AuditLog>, c: AuditSearchCriteria) -> Seq<AuditLog>
    decreases s.len(),
{
    if s.len() == 0 {
        Seq::empty()
    } else if matches_criteria(s.last(), c) {
        select(s.drop_last(), c).push(s.last())
    } else {
        select(s.drop_last(), c)
    }
}

impl AuditSearchCriteria {
    /// Criteria that match every record.
    pub fn new() -> (r: AuditSearchCriteria)
        ensures
            r == (AuditSearchCriteria {
                operation_type: None,
                performer: None,
                target_account: None,
                from_timestamp: None,
                to_timestamp: None,
                min_amount: None,
                max_amount: None,
                success_only: None,
                error_code: None,
            }),
    {
        AuditSearchCriteria {
            operation_type: None,
            performer: None,
            target_account: None,
            from_timestamp: None,
            to_timestamp: None,
            min_amount: None,
            max_amount: None,
            success_only: None,
            error_code: None,
        }
    }

    pub fn with_operation_type(self, operation_type: OperationType) -> (r: AuditSearchCriteria)
        ensures
            r == (AuditSearchCriteria { operation_type: Some(operation_type), ..self }),
    {
        AuditSearchCriteria { operation_type: Some(operation_type), ..self }
    }

    pub fn with_performer(self, performer: Pubkey) -> (r: AuditSearchCriteria)
        ensures
            r == (AuditSearchCriteria { performer: Some(performer), ..self }),
    {
        AuditSearchCriteria { performer: Some(performer), ..self }
    }

    pub fn with_date_range(self, from: i64, to: i64) -> (r: AuditSearchCriteria)
        ensures
            r == (AuditSearchCriteria { from_timestamp: Some(from), to_timestamp: Some(to), ..self }),
    {
        AuditSearchCriteria { from_timestamp: Some(from), to_timestamp: Some(to), ..self }
    }

    pub fn with_amount_range(self, min: u64, max: u64) -> (r: AuditSearchCriteria)
        ensures
            r == (AuditSearchCriteria { min_amount: Some(min), max_amount: Some(max), ..self }),
    {
        AuditSearchCriteria { min_amount: Some(min), max_amount: Some(max), ..self }
    }

    /// Whether record `entry` meets every criterion set.
    pub fn matches(&self, entry: &AuditLog) -> (r: bool)
        ensures
            r == matches_criteria(*entry, *self),
    {
        if let Some(t) = self.operation_type {
            if entry.operation_type != t {
                return false;
            }
        }
        if let Some(p) = self.performer {
            if !entry.performer.same_as(&p) {
                return false;
            }
        }
        if let Some(t) = self.target_account {
            match entry.target_account {
                None => {
                    return false;
                },
                Some(et) => {
                    if !et.same_as(&t) {
                        return false;
                    }
                },
            }
        }
        if let Some(from) = self.from_timestamp {
            if entry.timestamp < from {
                return false;
            }
        }
        if let Some(to) = self.to_timestamp {
            if entry.timestamp > to {
                return false;
            }
        }
        if let Some(min) = self.min_amount {
            match entry.amount {
                None => {
                    return false;
                },
                Some(a) => {
                    if a < min {
                        return false;
                    }
                },
            }
        }
        if let Some(max) = self.max_amount {
            match entry.amount {
                None => {
                    return false;
                },
                Some(a) => {
                    if a > max {
                        return false;
                    }
                },
            }
        }
        if let Some(s) = self.success_only {
            if entry.success != s {
                return false;
            }
        }
        if let Some(code) = self.error_code {
            match entry.error_code {
                None => {
                    return false;
                },
                Some(ec) => {
                    if ec != code {
                        return false;
                    }
                },
            }
        }
        true
    }
}

impl AuditManager {
    /// An ascending page of at most `limit` records, from the record
    /// numbered `from_operation_id` (or the first, if that is earlier).
    pub fn get_audit_logs(trail: &AuditTrail, from_operation_id: u64, limit: u32) -> (r: Vec<AuditLog>)
        requires
            trail.wf(),
        ensures
            ({
                let len = trail.entries@.len() as int;
                let start = page_start(trail.next_operation_id - len, len, from_operation_id as int);
                r@ == trail.entries@.subrange(start, page_end(start, len, limit as int))
            }),
            r@.len() <= limit,
            forall|i: int| 0 <= i < r@.len() ==> #[trigger] r@[i].operation_id >= from_operation_id,
    {
        let len = trail.entries.len();
        let base: u64 = trail.next_operation_id - len as u64;
        let start: usize = if from_operation_id <= base {
            0
        } else if from_operation_id - base >= len as u64 {
            len
        } else {
            (from_operation_id - base) as usize
        };
        let end: usize = if start as u128 + limit as u128 >= len as u128 {
            len
        } else {
            start + limit as usize
        };
        let mut r: Vec<AuditLog> = Vec::new();
        let mut i: usize = start;
        while i < end
            invariant
                start <= i <= end,
                end <= trail.entries@.len(),
                r@ == trail.entries@.subrange(start as int, i as int),
            decreases end - i,
        {
            r.push(trail.entries[i]);
            i = i + 1;
            assert(r@ =~= trail.entries@.subrange(start as int, i as int));
        }
        proof {
            assert forall|i: int| 0 <= i < r@.len() implies #[trigger] r@[i].operation_id >= from_operation_id by {
                assert(r@[i] == trail.entries@[start + i]);
            }
        }
        r
    }

    /// Checks that ids run without gaps and time never goes backwards.
    pub fn verify_audit_integrity(entries: &Vec<AuditLog>) -> (r: bool)
        ensures
            r == log_is_continuous(entries@),
    {
        let mut i: usize = 1;
        while i < entries.len()
            invariant
                1 <= i,
                i <= entries@.len() || entries@.len() == 0,
                forall|j: int| 1 <= j < i && j < entries@.len() ==> #[trigger] entries@[j].operation_id
                    == entries@[j - 1].operation_id + 1 && entries@[j - 1].timestamp <= entries@[j].timestamp,
            decreases entries@.len() - i,
        {
            let prev = entries[i - 1].operation_id;
            if prev == u64::MAX || entries[i].operation_id != prev + 1 || entries[i - 1].timestamp > entries[i].timestamp {
                assert(entries@[i as int].operation_id != entries@[i - 1].operation_id + 1
                    || entries@[i - 1].timestamp > entries@[i as int].timestamp);
                return false;
            }
            i = i + 1;
        }
        true
    }

    /// The records that match every criterion, in log order.
    pub fn search_logs(entries: &Vec<AuditLog>, search_criteria: &AuditSearchCriteria) -> (r: Vec<AuditLog>)
        ensures
            r@ == select(entries@, *search_criteria),
    {
        let mut r: Vec<AuditLog> = Vec::new();
        let mut i: usize = 0;
        while i < entries.len()
            invariant
                0 <= i <= entries@.len(),
                r@ == select(entries@.subrange(0, i as int), *search_criteria),
            decreases entries@.len() - i,
        {
            let e = entries[i];
            proof {
                let s = entries@.subrange(0, i + 1);
                assert(s.drop_last() =~= entries@.subrange(0, i as int));
                assert(s.last() == e);
            }
            if search_criteria.matches(&e) {
                r.push(e);
            }
            i = i + 1;
        }
        assert(entries@.subrange(0, entries@.len() as int) =~= entries@);
        r
    }
}

/// A failed attempt whose error is of High or Critical severity.
pub open spec fn serious_failure(e: AuditLog) -> bool {
    !e.success && e.error_code is Some && match error_of_code(e.error_code->Some_0) {
        Some(err) => severity_of(err) == ErrorSeverity::High || severity_of(err) == ErrorSeverity::Critical,
        None => false,
    }
}

pub open spec fn in_period(e: AuditLog, from: i64, to: i64) -> bool {
    from <= e.timestamp <= to
}

/// Records of `s` in the period.
pub open spec fn period_count(s: Seq<AuditLog>, from: i64, to: i64) -> nat
    decreases s.len(),
{
    if s.len() == 0 {
        0
    } else {
        period_count(s.drop_last(), from, to) + if in_period(s.last(), from, to) { 1nat } else { 0nat }
    }
}

/// Successful records of `s` in the period.
pub open spec fn period_successes(s: Seq<AuditLog>, from: i64, to: i64) -> nat
    decreases s.len(),
{
    if s.len() == 0 {
        0
    } else {
        period_successes(s.drop_last(), from, to) + if in_period(s.last(), from, to) && s.last().success {
            1nat
        } else {
            0nat
        }
    }
}

/// Amount moved by the successful records of `s` in the period.
pub open spec fn period_volume(s: Seq<AuditLog>, from: i64, to: i64) -> nat
    decreases s.len(),
{
    if s.len() == 0 {
        0
    } else {
        period_volume(s.drop_last(), from, to) + if in_period(s.last(), from, to) && s.last().success
            && s.last().amount is Some {
            s.last().amount->Some_0 as nat
        } else {
            0nat
        }
    }
}

/// High or Critical failures of `s` in the period.
pub open spec fn period_serious(s: Seq<AuditLog>, from: i64, to: i64) -> nat
    decreases s.len(),
{
    if s.len() == 0 {
        0
    } else {
        period_serious(s.drop_last(), from, to) + if in_period(s.last(), from, to) && serious_failure(s.last()) {
            1nat
        } else {
            0nat
        }
    }
}

/// Share of successful attempts, in percent; 100 for an empty period.
pub open spec fn compliance_of(total: nat, successful: nat) -> nat {
    if total == 0 {
        100
    } else {
        (successful * 100 / total) as nat
    }
}

/// Aggregates of the audit log over a period.
#[derive(Clone, Copy, Debug)]
pub struct AuditReport {
    pub period_start: i64,
    pub period_end: i64,
    pub total_operations: u64,
    pub successful_operations: u64,
    pub failed_operations: u64,
    pub total_volume: u128,
    pub serious_failures: u64,
    pub compliance_score: u8,
}

impl AuditReport {
    /// An empty report of the period.
    pub fn new(period_start: i64, period_end: i64) -> (r: AuditReport)
        ensures
            r == (AuditReport {
                period_start,
                period_end,
                total_operations: 0,
                successful_operations: 0,
                failed_operations: 0,
                total_volume: 0,
                serious_failures: 0,
                compliance_score: 100,
            }),
    {
        AuditReport {
            period_start,
            period_end,
            total_operations: 0,
            successful_operations: 0,
            failed_operations: 0,
            total_volume: 0,
            serious_failures: 0,
            compliance_score: 100,
        }
    }

    /// Counts one record, when it falls in the period.
    pub fn add_operation(&mut self, log: &AuditLog)
        requires
            old(self).total_operations < u64::MAX,
            old(self).successful_operations <= old(self).total_operations,
            old(self).failed_operations <= old(self).total_operations,
            old(self).serious_failures <= old(self).total_operations,
            old(self).total_volume + 0xffff_ffff_ffff_ffff <= u128::MAX,
        ensures
            !in_period(*log, old(self).period_start, old(self).period_end) ==> *final(self) == *old(self),
            in_period(*log, old(self).period_start, old(self).period_end) ==> {
                let r = *final(self);
                &&& r.period_start == old(self).period_start
                &&& r.period_end == old(self).period_end
                &&& r.total_operations == old(self).total_operations + 1
                &&& r.successful_operations == old(self).successful_operations + if log.success { 1int } else { 0int }
                &&& r.failed_operations == old(self).failed_operations + if log.success { 0int } else { 1int }
                &&& r.total_volume == old(self).total_volume + if log.success && log.amount is Some {
                    log.amount->Some_0 as int
                } else {
                    0int
                }
                &&& r.serious_failures == old(self).serious_failures + if serious_failure(*log) { 1int } else { 0int }
                &&& r.compliance_score == compliance_of(r.total_operations as nat, r.successful_operations as nat)
            },
    {
        if log.timestamp < self.period_start || log.timestamp > self.period_end {
            return;
        }
        self.total_operations = self.total_operations + 1;
        if log.success {
            self.successful_operations = self.successful_operations + 1;
            if let Some(a) = log.amount {
                self.total_volume = self.total_volume + a as u128;
            }
        } else {
            self.failed_operations = self.failed_operations + 1;
            if let Some(code) = log.error_code {
                if let Some(err) = VaultError::from_code(code) {
                    let sev = err.severity_level();
                    if sev == ErrorSeverity::High || sev == ErrorSeverity::Critical {
                        self.serious_failures = self.serious_failures + 1;
                    }
                }
            }
        }
        self.compliance_score = self.calculate_compliance_score();
    }

    /// Share of successful attempts in percent; 100 when nothing was attempted.
    pub fn calculate_compliance_score(&self) -> (r: u8)
        requires
            self.successful_operations <= self.total_operations,
        ensures
            r == compliance_of(self.total_operations as nat, self.successful_operations as nat),
    {
        if self.total_operations == 0 {
            return 100;
        }
        let s = self.successful_operations as u128;
        let t = self.total_operations as u128;
        let ghost si = s as int;
        let ghost ti = t as int;
        assert(si * 100 / ti <= 100) by (nonlinear_arith)
            requires
                0 <= si <= ti,
                ti > 0,
        ;
        ((s * 100) / t) as u8
    }

    /// A report needs attention when a High or Critical failure occurred in
    /// its period.
    pub fn requires_attention(&self) -> (r: bool)
        ensures
            r == (self.serious_failures > 0),
    {
        self.serious_failures > 0
    }
}

impl AuditManager {
    /// Aggregates the records of `entries` in `[from_timestamp, to_timestamp]`.
    pub fn generate_audit_report(entries: &Vec<AuditLog>, from_timestamp: i64, to_timestamp: i64) -> (r: AuditReport)
        ensures
            r.period_start == from_timestamp,
            r.period_end == to_timestamp,
            r.total_operations == period_count(entries@, from_timestamp, to_timestamp),
            r.successful_operations == period_successes(entries@, from_timestamp, to_timestamp),
            r.failed_operations == period_count(entries@, from_timestamp, to_timestamp) - period_successes(
                entries@,
                from_timestamp,
                to_timestamp,
            ),
            r.total_volume == period_volume(entries@, from_timestamp, to_timestamp),
            r.serious_failures == period_serious(entries@, from_timestamp, to_timestamp),
            r.compliance_score == compliance_of(r.total_operations as nat, r.successful_operations as nat),
    {
        let mut report = AuditReport::new(from_timestamp, to_timestamp);
        let n = entries.len();
        let mut i: usize = 0;
        while i < n
            invariant
                0 <= i <= n,
                n == entries@.len(),
                report.period_start == from_timestamp,
                report.period_end == to_timestamp,
                report.total_operations == period_count(entries@.subrange(0, i as int), from_timestamp, to_timestamp),
                report.successful_operations == period_successes(entries@.subrange(0, i as int), from_timestamp, to_timestamp),
                report.failed_operations == report.total_operations - report.successful_operations,
                report.total_volume == period_volume(entries@.subrange(0, i as int), from_timestamp, to_timestamp),
                report.serious_failures == period_serious(entries@.subrange(0, i as int), from_timestamp, to_timestamp),
                report.compliance_score == compliance_of(report.total_operations as nat, report.successful_operations as nat),
                report.total_operations <= i,
                report.successful_operations <= report.total_operations,
                report.serious_failures <= report.failed_operations,
                report.total_volume <= i * 0xffff_ffff_ffff_ffff,
            decreases n - i,
        {
            let e = entries[i];
            proof {
                let t = entries@.subrange(0, i + 1);
                assert(t.drop_last() =~= entries@.subrange(0, i as int));
                assert(t.last() == e);
            }
            report.add_operation(&e);
            i = i + 1;
        }
        assert(entries@.subrange(0, n as int) =~= entries@);
        report
    }
}

/// Kinds of pattern found in the audit log.
#[derive(Clone, Copy, Debug, PartialEq, Eq, Structural)]
pub enum PatternType {
    HighFrequencyOperations,
    UnusualTimePattern,
    LargeAmountPattern,
    FailureSpike,
    UnauthorizedAccess,
    ConfigurationChanges,
}

#[derive(Clone, Copy, Debug, PartialEq, Eq, Structural)]
pub enum PatternSeverity {
    Low,
    Medium,
    High,
    Critical,
}

/// Records of one anomaly class found in a look-back window.
#[derive(Clone, Copy, Debug)]
pub struct AnomalousPattern {
    pub pattern_type: PatternType,
    pub severity: PatternSeverity,
    pub first_occurrence: i64,
    pub last_occurrence: i64,
    pub frequency: u64,
}

/// Whether record `i` of `s`, checked against the records before it, falls
/// in the anomaly class `kind`: large amounts, high frequency, or a
/// cluster of configuration changes.
pub open spec fn flagged(s: Seq<AuditLog>, i: int, kind: PatternType, policy: AnomalyPolicy) -> bool {
    let e = s[i];
    let h = s.subrange(0, i);
    match kind {
        PatternType::LargeAmountPattern => large_withdrawal(h, e.operation_type, e.amount, policy),
        PatternType::HighFrequencyOperations => too_frequent(h, e.performer, e.timestamp, policy),
        PatternType::ConfigurationChanges => privileged_cluster(h, e.operation_type, e.timestamp, policy),
        _ => false,
    }
}

pub open spec fn in_lookback(e: AuditLog, now: i64, lookback: i64) -> bool {
    now - lookback < e.timestamp <= now
}

pub open spec fn hit(s: Seq<AuditLog>, i: int, kind: PatternType, now: i64, lookback: i64, policy: AnomalyPolicy) -> bool {
    in_lookback(s[i], now, lookback) && flagged(s, i, kind, policy)
}

/// Hits among the first `n` records.
pub open spec fn hits(s: Seq<AuditLog>, n: int, kind: PatternType, now: i64, lookback: i64, policy: AnomalyPolicy) -> nat
    decreases n,
{
    if n <= 0 {
        0
    } else {
        hits(s, n - 1, kind, now, lookback, policy) + if hit(s, n - 1, kind, now, lookback, policy) { 1nat } else { 0nat }
    }
}

pub open spec fn first_hit(s: Seq<AuditLog>, n: int, kind: PatternType, now: i64, lookback: i64, policy: AnomalyPolicy) -> Option<i64>
    decreases n,
{
    if n <= 0 {
        None
    } else {
        match first_hit(s, n - 1, kind, now, lookback, policy) {
            Some(t) => Some(t),
            None => if hit(s, n - 1, kind, now, lookback, policy) { Some(s[n - 1].timestamp) } else { None },
        }
    }
}

pub open spec fn last_hit(s: Seq<AuditLog>, n: int, kind: PatternType, now: i64, lookback: i64, policy: AnomalyPolicy) -> Option<i64>
    decreases n,
{
    if n <= 0 {
        None
    } else if hit(s, n - 1, kind, now, lookback, policy) {
        Some(s[n - 1].timestamp)
    } else {
        last_hit(s, n - 1, kind, now, lookback, policy)
    }
}

/// Large amounts and configuration clusters weigh High, bursts Medium.
pub open spec fn pattern_severity(kind: PatternType) -> PatternSeverity {
    if kind == PatternType::HighFrequencyOperations {
        PatternSeverity::Medium
    } else {
        PatternSeverity::High
    }
}

/// The pattern of one class over all of `s`, if it was seen at all.
pub open spec fn pattern_of(s: Seq<AuditLog>, kind: PatternType, now: i64, lookback: i64, policy: AnomalyPolicy) -> Option<AnomalousPattern> {
    let n = s.len() as int;
    if hits(s, n, kind, now, lookback, policy) == 0 {
        None
    } else {
        Some(
            AnomalousPattern {
                pattern_type: kind,
                severity: pattern_severity(kind),
                first_occurrence: first_hit(s, n, kind, now, lookback, policy)->Some_0,
                last_occurrence: last_hit(s, n, kind, now, lookback, policy)->Some_0,
                frequency: hits(s, n, kind, now, lookback, policy) as u64,
            },
        )
    }
}

pub open spec fn push_some(acc: Seq<AnomalousPattern>, p: Option<AnomalousPattern>) -> Seq<AnomalousPattern> {
    match p {
        Some(x) => acc.push(x),
        None => acc,
    }
}

proof fn lemma_hits_bounded(s: Seq<AuditLog>, n: int, kind: PatternType, now: i64, lookback: i64, policy: AnomalyPolicy)
    requires
        0 <= n,
    ensures
        hits(s, n, kind, now, lookback, policy) <= n,
        hits(s, n, kind, now, lookback, policy) == 0 <==> first_hit(s, n, kind, now, lookback, policy) is None,
        hits(s, n, kind, now, lookback, policy) == 0 <==> last_hit(s, n, kind, now, lookback, policy) is None,
    decreases n,
{
    if n > 0 {
        lemma_hits_bounded(s, n - 1, kind, now, lookback, policy);
    }
}

/// Running tally of one class while scanning the log.
struct Tally {
    count: u64,
    first: Option<i64>,
    last: Option<i64>,
}

impl AuditManager {
    /// The anomaly classes of the policy engine, applied to each record of
    /// the log against the records before it, over the records of the
    /// look-back window ending at `current_timestamp`: one pattern per class
    /// that occurred, in the order large amounts, bursts, configuration
    /// clusters.
    pub fn detect_anomalous_patterns(
        entries: &Vec<AuditLog>,
        current_timestamp: i64,
        lookback_period: i64,
        policy: &AnomalyPolicy,
    ) -> (r: Vec<AnomalousPattern>)
        ensures
            r@ == push_some(
                push_some(
                    push_some(Seq::empty(), pattern_of(entries@, PatternType::LargeAmountPattern, current_timestamp, lookback_period, *policy)),
                    pattern_of(entries@, PatternType::HighFrequencyOperations, current_timestamp, lookback_period, *policy),
                ),
                pattern_of(entries@, PatternType::ConfigurationChanges, current_timestamp, lookback_period, *policy),
            ),
    {
        let large = Self::scan_class(entries, PatternType::LargeAmountPattern, current_timestamp, lookback_period, policy);
        let burst = Self::scan_class(entries, PatternType::HighFrequencyOperations, current_timestamp, lookback_period, policy);
        let cluster = Self::scan_class(entries, PatternType::ConfigurationChanges, current_timestamp, lookback_period, policy);
        let mut r: Vec<AnomalousPattern> = Vec::new();
        if let Some(p) = large {
            r.push(p);
        }
        if let Some(p) = burst {
            r.push(p);
        }
        if let Some(p) = cluster {
            r.push(p);
        }
        r
    }

    fn scan_class(
        entries: &Vec<AuditLog>,
        kind: PatternType,
        now: i64,
        lookback: i64,
        policy: &AnomalyPolicy,
    ) -> (r: Option<AnomalousPattern>)
        requires
            kind == PatternType::LargeAmountPattern || kind == PatternType::HighFrequencyOperations
                || kind == PatternType::ConfigurationChanges,
        ensures
            r == pattern_of(entries@, kind, now, lookback, *policy),
    {
        let n = entries.len();
        let mut seen: Vec<AuditLog> = Vec::new();
        let mut t = Tally { count: 0, first: None, last: None };
        let mut i: usize = 0;
        while i < n
            invariant
                0 <= i <= n,
                n == entries@.len(),
                seen@ == entries@.subrange(0, i as int),
                t.count == hits(entries@, i as int, kind, now, lookback, *policy),
                t.first == first_hit(entries@, i as int, kind, now, lookback, *policy),
                t.last == last_hit(entries@, i as int, kind, now, lookback, *policy),
                t.count <= i,
                kind == PatternType::LargeAmountPattern || kind == PatternType::HighFrequencyOperations
                    || kind == PatternType::ConfigurationChanges,
            decreases n - i,
        {
            let e = entries[i];
            let inside = (e.timestamp as i128) > (now as i128) - (lookback as i128) && e.timestamp <= now;
            let flagged = match kind {
                PatternType::LargeAmountPattern => SecurityManager::is_large_withdrawal(&seen, &e.operation_type, e.amount, policy),
                PatternType::HighFrequencyOperations => SecurityManager::is_too_frequent(&seen, &e.performer, e.timestamp, policy),
                _ => SecurityManager::is_privileged_cluster(&seen, &e.operation_type, e.timestamp, policy),
            };
            if inside && flagged {
                t.count = t.count + 1;
                if t.first.is_none() {
                    t.first = Some(e.timestamp);
                }
                t.last = Some(e.timestamp);
            }
            seen.push(e);
            assert(seen@ =~= entries@.subrange(0, i + 1));
            i = i + 1;
        }
        proof {
            lemma_hits_bounded(entries@, n as int, kind, now, lookback, *policy);
        }
        if t.count == 0 {
            return None;
        }
        let severity = if kind == PatternType::HighFrequencyOperations {
            PatternSeverity::Medium
        } else {
            PatternSeverity::High
        };
        match (t.first, t.last) {
            (Some(first), Some(last)) => Some(
                AnomalousPattern {
                    pattern_type: kind,
                    severity,
                    first_occurrence: first,
                    last_occurrence: last,
                    frequency: t.count,
                },
            ),
            _ => None,
        }
    }
}

} // verus!
