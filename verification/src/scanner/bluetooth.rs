//! What the Bluetooth scan reports.

use crate::json::{Json, JsonView, Member};
use crate::scanner::wifi::strength_members;
use crate::text::{byte_hex_upper, push_byte_hex_upper};
use vstd::prelude::*;

verus! {

/// One Bluetooth device seen by the scan.
#[derive(Debug, PartialEq, Eq)]
pub struct BleDevice {
    /// The address of the device.
    pub mac_address: [u8; 6],
    /// The received signal strength in dBm, where the scan gave one.
    pub rssi: Option<i16>,
    /// The name that the device advertises; never empty.
    pub name: Option<String>,
}

/// The mathematical value of a `BleDevice`.
pub struct BleDeviceView {
    pub mac_address: Seq<u8>,
    pub rssi: Option<i16>,
    pub name: Option<Seq<char>>,
}

/// The characters of an optional string.
pub open spec fn optional_text(text: Option<String>) -> Option<Seq<char>> {
    match text {
        Some(text) => Some(text@),
        None => None,
    }
}

impl View for BleDevice {
    type V = BleDeviceView;

    open spec fn view(&self) -> BleDeviceView {
        BleDeviceView {
            mac_address: self.mac_address@,
            rssi: self.rssi,
            name: optional_text(self.name),
        }
    }
}

impl Clone for BleDevice {
    fn clone(&self) -> (r: Self)
        ensures
            r@ == self@,
    {
        let name = match &self.name {
            Some(name) => Some(name.clone()),
            None => None,
        };
        BleDevice { mac_address: self.mac_address, rssi: self.rssi, name }
    }
}

/// What a scan knows of a device besides its address.
#[derive(Debug, PartialEq, Eq)]
pub struct Properties {
    pub rssi: Option<i16>,
    pub local_name: Option<String>,
}

/// One device that a scan came across. Its properties are missing where they
/// could not be read.
#[derive(Debug, PartialEq, Eq)]
pub struct Discovered {
    pub address: [u8; 6],
    pub properties: Option<Properties>,
}

/// How a Bluetooth scan ended.
#[derive(Debug, PartialEq, Eq)]
pub enum BleScan {
    /// The Bluetooth manager could not be had.
    ManagerError(String),
    /// The machine has no Bluetooth adapter.
    NoAdapter,
    /// The adapter refused to scan.
    ScanFailed(String),
    /// The scan ran, and came across these devices.
    Found(Vec<Discovered>),
}

/// An advertised name as it is reported: an empty name counts as none.
pub open spec fn normal_name(name: Option<String>) -> Option<Seq<char>> {
    match name {
        Some(name) => if name@.len() == 0 {
            None
        } else {
            Some(name@)
        },
        None => None,
    }
}

/// The device reported for an address and its properties.
pub open spec fn device_of(address: [u8; 6], properties: Properties) -> BleDeviceView {
    BleDeviceView {
        mac_address: address@,
        rssi: properties.rssi,
        name: normal_name(properties.local_name),
    }
}

/// The devices reported for what a scan came across: one for each device
/// whose properties could be read, in the same order.
pub open spec fn devices_of(found: Seq<Discovered>) -> Seq<BleDeviceView>
    decreases found.len(),
{
    if found.len() == 0 {
        seq![]
    } else {
        let before = devices_of(found.drop_last());
        match found.last().properties {
            Some(properties) => before.push(device_of(found.last().address, properties)),
            None => before,
        }
    }
}

/// The devices that a scan reports, whatever its end: none where it failed.
pub open spec fn scan_devices(scan: BleScan) -> Seq<BleDeviceView> {
    match scan {
        BleScan::Found(found) => devices_of(found@),
        _ => seq![],
    }
}

/// The values of a list of devices.
pub open spec fn device_views(devices: Seq<BleDevice>) -> Seq<BleDeviceView> {
    devices.map_values(|device: BleDevice| device@)
}

/// Reports the devices of a Bluetooth scan. A scan that failed at any stage
/// reports none; a device whose properties could not be read is left out;
/// an empty advertised name is reported as no name.
pub fn fetch_ble_devices(scan: &BleScan) -> (r: Vec<BleDevice>)
    ensures
        device_views(r@) == scan_devices(*scan),
{
    let mut devices: Vec<BleDevice> = Vec::new();
    match scan {
        BleScan::Found(found) => {
            let mut i: usize = 0;
            assert(found@.take(0) =~= Seq::<Discovered>::empty());
            while i < found.len()
                invariant
                    i <= found.len(),
                    device_views(devices@) =~= devices_of(found@.take(i as int)),
                decreases found.len() - i,
            {
                proof {
                    let next = found@.take(i + 1);
                    assert(next.drop_last() =~= found@.take(i as int));
                    assert(next.last() == found@[i as int]);
                }
                let seen = &found[i];
                match &seen.properties {
                    Some(properties) => {
                        let name = match &properties.local_name {
                            Some(name) => if name.as_str().unicode_len() == 0 {
                                None
                            } else {
                                Some(name.clone())
                            },
                            None => None,
                        };
                        let ghost before = devices@;
                        devices.push(
                            BleDevice { mac_address: seen.address, rssi: properties.rssi, name },
                        );
                        assert(device_views(devices@) =~= device_views(before).push(
                            device_of(seen.address, *properties),
                        ));
                    },
                    None => {},
                }
                i += 1;
            }
            assert(found@.take(i as int) =~= found@);
        },
        _ => {
            assert(device_views(devices@) =~= Seq::<BleDeviceView>::empty());
        },
    }
    devices
}

/// The text of a device address: its six bytes in capital hexadecimal digits,
/// with colons between them.
pub open spec fn mac_text(address: Seq<u8>) -> Seq<char> {
    byte_hex_upper(address[0]) + seq![':'] + byte_hex_upper(address[1]) + seq![':']
        + byte_hex_upper(address[2]) + seq![':'] + byte_hex_upper(address[3]) + seq![':']
        + byte_hex_upper(address[4]) + seq![':'] + byte_hex_upper(address[5])
}

/// The member `name` of a device on the wire: present where it has a name.
pub open spec fn name_members(name: Option<Seq<char>>) -> Seq<(Seq<char>, JsonView)> {
    match name {
        Some(name) => seq![("name"@, JsonView::Text(name))],
        None => seq![],
    }
}

/// A Bluetooth device on the wire.
pub open spec fn ble_json(device: BleDeviceView) -> JsonView {
    JsonView::Object(
        seq![("macAddress"@, JsonView::Text(mac_text(device.mac_address)))] + strength_members(
            device.rssi,
        ) + name_members(device.name),
    )
}

impl BleDevice {
    /// The address as text.
    pub fn mac_string(&self) -> (r: String)
        ensures
            r@ == mac_text(self.mac_address@),
    {
        proof {
            reveal_strlit(":");
        }
        let mut text = String::new();
        push_byte_hex_upper(&mut text, self.mac_address[0]);
        text.append(":");
        push_byte_hex_upper(&mut text, self.mac_address[1]);
        text.append(":");
        push_byte_hex_upper(&mut text, self.mac_address[2]);
        text.append(":");
        push_byte_hex_upper(&mut text, self.mac_address[3]);
        text.append(":");
        push_byte_hex_upper(&mut text, self.mac_address[4]);
        text.append(":");
        push_byte_hex_upper(&mut text, self.mac_address[5]);
        assert(text@ =~= mac_text(self.mac_address@));
        text
    }

    /// The device as it goes on the wire.
    pub fn to_json(&self) -> (r: Json)
        ensures
            r@ == ble_json(self@),
    {
        let mut members: Vec<Member> = Vec::new();
        let mac = self.mac_string();
        members.push(Member::new("macAddress", Json::text(mac.as_str())));
        match self.rssi {
            Some(dbm) => {
                members.push(Member::new("signalStrength", Json::integer(dbm as i64)));
            },
            None => {},
        }
        match &self.name {
            Some(name) => {
                members.push(Member::new("name", Json::text(name.as_str())));
            },
            None => {},
        }
        let r = Json::object(members);
        assert(r@->Object_0 =~= ble_json(self@)->Object_0);
        r
    }
}

} // verus!
