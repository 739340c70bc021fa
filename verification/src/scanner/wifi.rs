//! What the WiFi scan reports.

use crate::json::{Json, JsonView, Member};
use crate::json::integer_number;
use vstd::prelude::*;

verus! {

/// One access point seen by the WiFi scan.
#[derive(Debug, PartialEq, Eq)]
pub struct WifiBssid {
    /// The hardware identifier (BSSID) of the access point.
    pub mac_address: String,
    /// The signal strength in dBm, where the scan gave one.
    pub signal_strength: Option<i16>,
}

/// The mathematical value of a `WifiBssid`.
pub struct WifiBssidView {
    pub mac_address: Seq<char>,
    pub signal_strength: Option<i16>,
}

impl View for WifiBssid {
    type V = WifiBssidView;

    open spec fn view(&self) -> WifiBssidView {
        WifiBssidView { mac_address: self.mac_address@, signal_strength: self.signal_strength }
    }
}

impl Clone for WifiBssid {
    fn clone(&self) -> (r: Self)
        ensures
            r@ == self@,
    {
        WifiBssid { mac_address: self.mac_address.clone(), signal_strength: self.signal_strength }
    }
}

/// The member `signalStrength` of a device on the wire: present where the
/// strength is known.
pub open spec fn strength_members(strength: Option<i16>) -> Seq<(Seq<char>, JsonView)> {
    match strength {
        Some(dbm) => seq![("signalStrength"@, JsonView::Number(integer_number(dbm as i64)))],
        None => seq![],
    }
}

/// An access point on the wire.
pub open spec fn wifi_json(wifi: WifiBssidView) -> JsonView {
    JsonView::Object(
        seq![("macAddress"@, JsonView::Text(wifi.mac_address))] + strength_members(
            wifi.signal_strength,
        ),
    )
}

/// The values of a list of access points.
pub open spec fn wifi_views(found: Seq<WifiBssid>) -> Seq<WifiBssidView> {
    found.map_values(|wifi: WifiBssid| wifi@)
}

impl WifiBssid {
    /// The access point as it goes on the wire.
    pub fn to_json(&self) -> (r: Json)
        ensures
            r@ == wifi_json(self@),
    {
        let mut members: Vec<Member> = Vec::new();
        members.push(Member::new("macAddress", Json::text(self.mac_address.as_str())));
        match self.signal_strength {
            Some(dbm) => {
                members.push(Member::new("signalStrength", Json::integer(dbm as i64)));
            },
            None => {},
        }
        let r = Json::object(members);
        assert(r@->Object_0 =~= wifi_json(self@)->Object_0);
        r
    }
}

} // verus!
