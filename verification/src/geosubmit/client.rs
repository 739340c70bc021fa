//! The assembly of an observation record and the rules of its submission.

use crate::error::Error;
use crate::geosubmit::payload::{
    cell_towers_from_json, defect_text, items, optional_towers, position_defect, position_of,
    towers_defect, towers_of, CellTower, ItemsView, Position,
};
use crate::json::{Json, JsonView};
use crate::scanner::bluetooth::{device_views, BleDeviceView};
use crate::scanner::wifi::{wifi_views, WifiBssidView};
use crate::scanner::ScanReport;
use vstd::arithmetic::power2::{lemma_pow2_strictly_increases, lemma_pow2_unfold, pow2};
use vstd::prelude::*;

verus! {

/// What the caller of an observation supplies, read and found well formed.
#[derive(Debug, PartialEq, Eq)]
pub struct Observation {
    pub position: Position,
    pub cell_towers: Option<Vec<CellTower>>,
}

/// The value of an optional JSON value behind a reference.
pub open spec fn optional_ref_view(json: Option<&Json>) -> Option<JsonView> {
    match json {
        Some(json) => Some(json@),
        None => None,
    }
}

/// What keeps the caller's data from being an observation: the defect of the
/// position, else that of the cell towers where there are any.
pub open spec fn observation_defect(position: JsonView, cell_towers: Option<JsonView>) -> Option<
    Seq<char>,
> {
    match position_defect(position) {
        Some(name) => Some(name),
        None => match cell_towers {
            Some(towers) => towers_defect(towers),
            None => None,
        },
    }
}

/// The cell towers of well-formed caller's data.
pub open spec fn observed_towers(cell_towers: Option<JsonView>) -> Option<Seq<CellTower>> {
    match cell_towers {
        Some(towers) => Some(towers_of(towers)),
        None => None,
    }
}

/// The record assembled from well-formed caller's data, the lists of the two
/// scans and the time of assembly.
pub open spec fn assembled(
    position: JsonView,
    cell_towers: Option<JsonView>,
    wifi: Seq<WifiBssidView>,
    ble: Seq<BleDeviceView>,
    timestamp: u128,
) -> ItemsView {
    ItemsView {
        timestamp,
        position: position_of(position),
        bluetoothBeacons: ble,
        wifiAccessPoints: wifi,
        CellTowers: observed_towers(cell_towers),
    }
}

/// Reads the caller's part of an observation: the position, and the cell
/// towers where the caller gave any. This is the one step of the assembly
/// that can fail.
pub fn parse_observation(position: &Json, cell_towers: Option<&Json>) -> (r: Result<
    Observation,
    Error,
>)
    ensures
        match observation_defect(position@, optional_ref_view(cell_towers)) {
            Some(name) => r matches Err(Error::Serialization(text)) && text@ == defect_text(name),
            None => r matches Ok(observation) && observation.position@ == position_of(position@)
                && optional_towers(observation.cell_towers) == observed_towers(
                optional_ref_view(cell_towers),
            ),
        },
{
    let position = match Position::from_json(position) {
        Ok(position) => position,
        Err(e) => return Err(e),
    };
    let cell_towers = match cell_towers {
        Some(json) => match cell_towers_from_json(json) {
            Ok(towers) => Some(towers),
            Err(e) => return Err(e),
        },
        None => None,
    };
    Ok(Observation { position, cell_towers })
}

/// Makes the record of an observation from the caller's part, the outcome of
/// the scans and the time of assembly. The cell towers are the caller's, as
/// they came.
pub fn build_record(observation: Observation, scans: ScanReport, timestamp: u128) -> (r: items)
    ensures
        r@ == (ItemsView {
            timestamp,
            position: observation.position@,
            bluetoothBeacons: device_views(scans.ble@),
            wifiAccessPoints: wifi_views(scans.wifi@),
            CellTowers: optional_towers(observation.cell_towers),
        }),
{
    items {
        timestamp,
        position: observation.position,
        bluetoothBeacons: scans.ble,
        wifiAccessPoints: scans.wifi,
        CellTowers: observation.cell_towers,
    }
}

/// Assembles the record of an observation with a given time stamp. It fails
/// on malformed caller's data and on nothing else: what the scans found, or
/// failed to find, has no part in it.
pub fn assemble_at(
    position: &Json,
    cell_towers: Option<&Json>,
    scans: ScanReport,
    timestamp: u128,
) -> (r: Result<items, Error>)
    ensures
        match observation_defect(position@, optional_ref_view(cell_towers)) {
            Some(name) => r matches Err(Error::Serialization(text)) && text@ == defect_text(name),
            None => r matches Ok(record) && record@ == assembled(
                position@,
                optional_ref_view(cell_towers),
                wifi_views(scans.wifi@),
                device_views(scans.ble@),
                timestamp,
            ),
        },
{
    match parse_observation(position, cell_towers) {
        Ok(observation) => Ok(build_record(observation, scans, timestamp)),
        Err(e) => Err(e),
    }
}

/// Makes the record of an observation and stamps it with the time of the
/// system clock at this moment: the time stamp is never the caller's. A clock
/// that stands before the Unix epoch stamps zero.
pub fn stamp_record(observation: Observation, scans: ScanReport) -> (r: items)
    ensures
        r@ == (ItemsView {
            timestamp: r.timestamp,
            position: observation.position@,
            bluetoothBeacons: device_views(scans.ble@),
            wifiAccessPoints: wifi_views(scans.wifi@),
            CellTowers: optional_towers(observation.cell_towers),
        }),
{
    let timestamp = match unix_millis() {
        Some(now) => now,
        None => 0,
    };
    build_record(observation, scans, timestamp)
}

/// Assembles the record of an observation, stamped with the time of the
/// system clock at this moment. As `assemble_at`, it fails on malformed
/// caller's data and on nothing else.
pub fn assemble_geo_payload(position: &Json, cell_towers: Option<&Json>, scans: ScanReport) -> (r:
    Result<items, Error>)
    ensures
        match observation_defect(position@, optional_ref_view(cell_towers)) {
            Some(name) => r matches Err(Error::Serialization(text)) && text@ == defect_text(name),
            None => r matches Ok(record) && record@ == assembled(
                position@,
                optional_ref_view(cell_towers),
                wifi_views(scans.wifi@),
                device_views(scans.ble@),
                record.timestamp,
            ),
        },
{
    match parse_observation(position, cell_towers) {
        Ok(observation) => Ok(stamp_record(observation, scans)),
        Err(e) => Err(e),
    }
}

/// `std::time::SystemTime::now`, as milliseconds since the Unix epoch;
/// `None` where `duration_since` reports that the clock stands before it.
/// Nothing is claimed of the value.
#[verifier::external_body]
fn unix_millis() -> Option<u128> {
    std::time::SystemTime::now().duration_since(std::time::UNIX_EPOCH).ok().map(|d| d.as_millis())
}

/// Assembly does not depend on the scans: whether it succeeds is decided by
/// the caller's data alone, and so are the position and the cell towers of
/// the record.
pub proof fn lemma_assembly_ignores_scans(
    position: JsonView,
    cell_towers: Option<JsonView>,
    wifi: Seq<WifiBssidView>,
    ble: Seq<BleDeviceView>,
    timestamp: u128,
)
    ensures
        assembled(position, cell_towers, wifi, ble, timestamp).position == assembled(
            position,
            cell_towers,
            Seq::empty(),
            Seq::empty(),
            timestamp,
        ).position,
        assembled(position, cell_towers, wifi, ble, timestamp).CellTowers == assembled(
            position,
            cell_towers,
            Seq::empty(),
            Seq::empty(),
            timestamp,
        ).CellTowers,
        assembled(position, cell_towers, wifi, ble, timestamp).timestamp == timestamp,
        assembled(position, cell_towers, wifi, ble, timestamp).wifiAccessPoints == wifi,
        assembled(position, cell_towers, wifi, ble, timestamp).bluetoothBeacons == ble,
{
}

/// How many times one record is sent at most, the first attempt included.
pub const MAX_ATTEMPTS: u32 = 5;

/// How long one attempt may take, in seconds.
pub const ATTEMPT_TIMEOUT_SECS: u64 = 10;

/// The wait before the first retry, in milliseconds.
pub const BASE_DELAY_MS: u64 = 1000;

/// The longest wait before a retry, in milliseconds.
pub const MAX_DELAY_MS: u64 = 1_800_000;

/// How one attempt to send a record ended.
#[derive(Debug, Clone, PartialEq, Eq)]
pub enum AttemptOutcome {
    /// No answer came: the connection, the handshake or the timeout failed.
    Transport(String),
    /// The service answered.
    Response { status: u16, body: String },
}

/// What follows an attempt.
#[derive(Debug, PartialEq, Eq)]
pub enum NextStep {
    /// Send again, after a wait of so many milliseconds.
    Retry { delay_ms: u64 },
    /// Stop: the submission has this result.
    Done(Result<(), Error>),
}

/// Whether a status reports success: the statuses from 200 to 299.
pub open spec fn is_success(status: u16) -> bool {
    200 <= status <= 299
}

/// Whether a status reports a failure that may pass: a server error (500 to
/// 599), a request timeout (408) or too many requests (429).
pub open spec fn is_transient_status(status: u16) -> bool {
    (500 <= status <= 599) || status == 408 || status == 429
}

/// Whether an attempt ended in a failure that may pass: no answer, or an
/// answer with a transient status.
pub open spec fn is_transient(outcome: AttemptOutcome) -> bool {
    match outcome {
        AttemptOutcome::Transport(_) => true,
        AttemptOutcome::Response { status, .. } => is_transient_status(status),
    }
}

/// Whether an attempt succeeded.
pub open spec fn succeeded(outcome: AttemptOutcome) -> bool {
    outcome matches AttemptOutcome::Response { status, .. } && is_success(status)
}

/// The wait before retry number `retry` (counted from zero), in
/// milliseconds: it doubles from one retry to the next, up to a cap.
pub open spec fn backoff_delay(retry: nat) -> nat {
    if BASE_DELAY_MS * pow2(retry) <= MAX_DELAY_MS {
        (BASE_DELAY_MS * pow2(retry)) as nat
    } else {
        MAX_DELAY_MS as nat
    }
}

/// Whether an attempt is followed by another: it failed in a way that may
/// pass, and fewer than `MAX_ATTEMPTS` attempts were made, this one included.
pub open spec fn retries(attempts: nat, outcome: AttemptOutcome) -> bool {
    !succeeded(outcome) && is_transient(outcome) && attempts < MAX_ATTEMPTS
}

/// Whether `result` is the result of a submission whose last attempt ended
/// in `outcome`: success for a success status, else the failure with what
/// the attempt reported.
pub open spec fn is_result_of(result: Result<(), Error>, outcome: AttemptOutcome) -> bool {
    match outcome {
        AttemptOutcome::Transport(cause) => result matches Err(Error::Transport(text)) && text@
            == cause@,
        AttemptOutcome::Response { status, body } => if is_success(status) {
            result is Ok
        } else {
            result matches Err(Error::HttpStatus { status: s, body: b }) && s == status && b@
                == body@
        },
    }
}

/// The wait is never shorter before a later retry.
pub proof fn lemma_backoff_monotonic(earlier: nat, later: nat)
    requires
        earlier <= later,
    ensures
        backoff_delay(earlier) <= backoff_delay(later),
        BASE_DELAY_MS <= backoff_delay(earlier) <= MAX_DELAY_MS,
{
    vstd::arithmetic::power2::lemma_pow2_pos(earlier);
    vstd::arithmetic::power2::lemma_pow2_pos(later);
    if earlier < later {
        lemma_pow2_strictly_increases(earlier, later);
    }
    assert(BASE_DELAY_MS * pow2(earlier) <= BASE_DELAY_MS * pow2(later)) by (nonlinear_arith)
        requires
            pow2(earlier) <= pow2(later),
    ;
    assert(BASE_DELAY_MS * pow2(earlier) >= BASE_DELAY_MS) by (nonlinear_arith)
        requires
            pow2(earlier) >= 1,
    ;
}

/// Every submission ends within `MAX_ATTEMPTS` attempts: the attempt that
/// reaches the limit is followed by no other, nor is a success, nor a
/// failure that cannot pass.
pub proof fn lemma_submission_ends(attempts: nat, outcome: AttemptOutcome)
    ensures
        attempts >= MAX_ATTEMPTS ==> !retries(attempts, outcome),
        succeeded(outcome) ==> !retries(attempts, outcome),
        !is_transient(outcome) ==> !retries(attempts, outcome),
        retries(attempts, outcome) ==> attempts + 1 <= MAX_ATTEMPTS,
{
}

/// The wait before retry number `retry`, counted from zero.
pub fn backoff_delay_ms(retry: u32) -> (r: u64)
    ensures
        r == backoff_delay(retry as nat),
{
    let mut delay: u64 = BASE_DELAY_MS;
    let mut i: u32 = 0;
    proof {
        vstd::arithmetic::power2::lemma2_to64();
    }
    while i < retry && delay < MAX_DELAY_MS
        invariant
            i <= retry,
            delay == backoff_delay(i as nat),
            delay <= MAX_DELAY_MS,
        decreases retry - i,
    {
        proof {
            lemma_pow2_unfold((i + 1) as nat);
            assert(BASE_DELAY_MS * (2 * pow2(i as nat)) == 2 * (BASE_DELAY_MS * pow2(i as nat)))
                by (nonlinear_arith);
        }
        delay = if delay * 2 <= MAX_DELAY_MS {
            delay * 2
        } else {
            MAX_DELAY_MS
        };
        i += 1;
    }
    proof {
        lemma_backoff_monotonic(i as nat, retry as nat);
    }
    delay
}

/// Whether a status is transient.
pub fn status_is_transient(status: u16) -> (r: bool)
    ensures
        r == is_transient_status(status),
{
    (500 <= status && status <= 599) || status == 408 || status == 429
}

/// The progress of one submission: how many attempts were made.
#[derive(Debug, PartialEq, Eq)]
pub struct Submission {
    attempts: u32,
}

impl Submission {
    #[verifier::type_invariant]
    spec fn bounded(self) -> bool {
        self.attempts <= MAX_ATTEMPTS
    }

    /// The attempts made so far.
    pub closed spec fn made(self) -> nat {
        self.attempts as nat
    }

    /// A submission of which no attempt was made yet.
    pub fn new() -> (r: Submission)
        ensures
            r.made() == 0,
    {
        Submission { attempts: 0 }
    }

    /// The attempts made so far; never more than `MAX_ATTEMPTS`.
    pub fn attempts(&self) -> (r: u32)
        ensures
            r == self.made(),
            r <= MAX_ATTEMPTS,
    {
        proof {
            use_type_invariant(self);
        }
        self.attempts
    }

    /// Takes note of the end of an attempt and says what follows. A success
    /// ends the submission; so does a failure that cannot pass, and so does
    /// the last attempt allowed. Any other failure is followed by a retry,
    /// after a wait that doubles from retry to retry.
    pub fn record(&mut self, outcome: AttemptOutcome) -> (r: NextStep)
        ensures
            final(self).made() == (if old(self).made() < MAX_ATTEMPTS {
                old(self).made() + 1
            } else {
                old(self).made()
            }),
            final(self).made() <= MAX_ATTEMPTS,
            match r {
                NextStep::Retry { delay_ms } => retries(final(self).made(), outcome) && delay_ms
                    == backoff_delay((final(self).made() - 1) as nat),
                NextStep::Done(result) => !retries(final(self).made(), outcome) && is_result_of(
                    result,
                    outcome,
                ),
            },
    {
        proof {
            use_type_invariant(&*self);
        }
        if self.attempts < MAX_ATTEMPTS {
            self.attempts = self.attempts + 1;
        }
        match outcome {
            AttemptOutcome::Transport(cause) => {
                if self.attempts < MAX_ATTEMPTS {
                    NextStep::Retry { delay_ms: backoff_delay_ms(self.attempts - 1) }
                } else {
                    NextStep::Done(Err(Error::Transport(cause)))
                }
            },
            AttemptOutcome::Response { status, body } => {
                if 200 <= status && status <= 299 {
                    NextStep::Done(Ok(()))
                } else if status_is_transient(status) && self.attempts < MAX_ATTEMPTS {
                    NextStep::Retry { delay_ms: backoff_delay_ms(self.attempts - 1) }
                } else {
                    NextStep::Done(Err(Error::HttpStatus { status, body }))
                }
            },
        }
    }
}

/// The line that reports the result of a submission in the log.
pub open spec fn report_text(result: Result<(), Error>) -> Seq<char> {
    match result {
        Ok(_) => "Successfully sent geolocation data"@,
        Err(e) => "Geosubmit error: "@ + crate::error::error_text(e),
    }
}

/// Writes the line that reports the result of a submission in the log.
pub fn report(result: &Result<(), Error>) -> (r: String)
    ensures
        r@ == report_text(*result),
{
    match result {
        Ok(_) => String::from_str("Successfully sent geolocation data"),
        Err(e) => {
            let text = e.message();
            String::from_str("Geosubmit error: ").concat(text.as_str())
        },
    }
}

} // verus!
