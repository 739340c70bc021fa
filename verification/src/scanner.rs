//! The device scans: what the two adapters report, and how their outcomes
//! become the lists of one observation.

pub mod bluetooth;
pub mod wifi;

pub use self::bluetooth::BleDevice;
pub use self::wifi::WifiBssid;

use crate::error::Error;
use vstd::prelude::*;

verus! {

/// The outcome of both scans of one observation.
#[derive(Debug, PartialEq, Eq)]
pub struct ScanReport {
    /// The access points seen; empty where the WiFi scan failed.
    pub wifi: Vec<WifiBssid>,
    /// The Bluetooth devices seen; empty where the Bluetooth scan failed.
    pub ble: Vec<BleDevice>,
    /// How long the WiFi scan took, in milliseconds.
    pub wifi_elapsed_ms: u64,
    /// How long the Bluetooth scan took, in milliseconds.
    pub ble_elapsed_ms: u64,
}

/// What a scan contributes: its list, or nothing where it failed.
pub open spec fn degraded<T>(outcome: Result<Vec<T>, Error>) -> Seq<T> {
    match outcome {
        Ok(found) => found@,
        Err(_) => Seq::empty(),
    }
}

/// Turns the outcome of a scan into a list: a failed scan gives the empty
/// list, and the failure goes no further.
pub fn degrade<T>(outcome: Result<Vec<T>, Error>) -> (r: Vec<T>)
    ensures
        r@ == degraded(outcome),
{
    match outcome {
        Ok(found) => found,
        Err(_) => Vec::new(),
    }
}

/// Puts the outcomes of the two scans together. Each scan degrades on its
/// own: a failure of one leaves the list of the other as it was.
pub fn collect_scans(
    wifi: Result<Vec<WifiBssid>, Error>,
    wifi_elapsed_ms: u64,
    ble: Result<Vec<BleDevice>, Error>,
    ble_elapsed_ms: u64,
) -> (r: ScanReport)
    ensures
        (r.wifi@, r.ble@) == collected(wifi, ble),
        r.wifi_elapsed_ms == wifi_elapsed_ms,
        r.ble_elapsed_ms == ble_elapsed_ms,
{
    ScanReport { wifi: degrade(wifi), ble: degrade(ble), wifi_elapsed_ms, ble_elapsed_ms }
}

impl ScanReport {
    /// The report of two scans that found nothing.
    pub fn empty() -> (r: ScanReport)
        ensures
            r.wifi@.len() == 0,
            r.ble@.len() == 0,
            r.wifi_elapsed_ms == 0,
            r.ble_elapsed_ms == 0,
    {
        ScanReport { wifi: Vec::new(), ble: Vec::new(), wifi_elapsed_ms: 0, ble_elapsed_ms: 0 }
    }

    /// How long the two scans took together. They run side by side, so this
    /// is the longer of the two.
    pub fn latency_ms(&self) -> (r: u64)
        ensures
            r >= self.wifi_elapsed_ms,
            r >= self.ble_elapsed_ms,
            r == self.wifi_elapsed_ms || r == self.ble_elapsed_ms,
    {
        if self.wifi_elapsed_ms >= self.ble_elapsed_ms {
            self.wifi_elapsed_ms
        } else {
            self.ble_elapsed_ms
        }
    }
}

/// What the two scans of one observation contribute: the list of access
/// points and the list of Bluetooth devices.
pub open spec fn collected(
    wifi: Result<Vec<WifiBssid>, Error>,
    ble: Result<Vec<BleDevice>, Error>,
) -> (Seq<WifiBssid>, Seq<BleDevice>) {
    (degraded(wifi), degraded(ble))
}

/// Fault isolation: a failed WiFi scan contributes no access point, and the
/// Bluetooth list is the same whatever the WiFi scan did.
pub proof fn lemma_wifi_failure_is_isolated(
    wifi: Result<Vec<WifiBssid>, Error>,
    other_wifi: Result<Vec<WifiBssid>, Error>,
    ble: Result<Vec<BleDevice>, Error>,
)
    requires
        wifi is Err,
    ensures
        collected(wifi, ble).0.len() == 0,
        collected(wifi, ble).1 == collected(other_wifi, ble).1,
        ble matches Ok(found) ==> collected(wifi, ble).1 == found@,
{
}

/// Fault isolation: a failed Bluetooth scan contributes no device, and the
/// WiFi list is the same whatever the Bluetooth scan did.
pub proof fn lemma_ble_failure_is_isolated(
    wifi: Result<Vec<WifiBssid>, Error>,
    ble: Result<Vec<BleDevice>, Error>,
    other_ble: Result<Vec<BleDevice>, Error>,
)
    requires
        ble is Err,
    ensures
        collected(wifi, ble).1.len() == 0,
        collected(wifi, ble).0 == collected(wifi, other_ble).0,
        wifi matches Ok(found) ==> collected(wifi, ble).0 == found@,
{
}

} // verus!
