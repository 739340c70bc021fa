//! The observation record and its parts.

use crate::error::Error;
use crate::json::{lemma_lookup_found, lemma_lookup_skip, Json, JsonNumber, JsonView, Member};
use crate::scanner::bluetooth::{ble_json, device_views, BleDevice, BleDeviceView};
use crate::scanner::wifi::{wifi_json, wifi_views, WifiBssid, WifiBssidView};
use vstd::prelude::*;

verus! {

/// The radio technology of a cell tower.
#[derive(Clone, Copy, Debug, PartialEq, Eq, Structural)]
pub enum RadioType {
    Gsm,
    Wcdma,
    Lte,
}

/// One observed cell tower.
#[allow(non_snake_case)]
#[derive(Clone, Copy, Debug, PartialEq, Eq, Structural)]
pub struct CellTower {
    /// The radio technology; `None` where it is not specified.
    pub radioType: Option<RadioType>,
    /// The mobile country code (MCC).
    pub mobileCountryCode: u16,
    /// The mobile network code (MNC).
    pub mobileNetworkCode: u16,
    /// The location area code, or the tracking area code of LTE.
    pub locationAreaCode: u32,
    /// The cell identity.
    pub cellId: u32,
    /// Milliseconds since the tower was observed.
    pub age: Option<u32>,
    /// The signal strength in arbitrary strength units.
    pub asu: Option<u8>,
}

/// The lower-case form of an ASCII capital; any other character itself.
pub open spec fn ascii_lower(c: char) -> char {
    if 'A' <= c && c <= 'Z' {
        ((c as u8) + 32) as char
    } else {
        c
    }
}

/// `text` with its ASCII capitals in lower case.
pub open spec fn lowered(text: Seq<char>) -> Seq<char> {
    text.map_values(|c: char| ascii_lower(c))
}

/// The radio type that `text` names, whatever the case of its letters;
/// `None` for any other text.
pub open spec fn radio_type_of(text: Seq<char>) -> Option<RadioType> {
    let word = lowered(text);
    if word =~= seq!['g', 's', 'm'] {
        Some(RadioType::Gsm)
    } else if word =~= seq!['w', 'c', 'd', 'm', 'a'] {
        Some(RadioType::Wcdma)
    } else if word =~= seq!['l', 't', 'e'] {
        Some(RadioType::Lte)
    } else {
        None
    }
}

fn lower(c: char) -> (r: char)
    ensures
        r == ascii_lower(c),
{
    if 'A' <= c && c <= 'Z' {
        ((c as u8) + 32) as char
    } else {
        c
    }
}

impl RadioType {
    /// Reads a radio type from free text. Case does not matter, and text that
    /// names no radio type gives `None`: this never fails.
    pub fn parse(text: &str) -> (r: Option<RadioType>)
        ensures
            r == radio_type_of(text@),
    {
        let n = text.unicode_len();
        if n == 3 {
            let a = lower(text.get_char(0));
            let b = lower(text.get_char(1));
            let c = lower(text.get_char(2));
            assert(lowered(text@) =~= seq![a, b, c]);
            if a == 'g' && b == 's' && c == 'm' {
                Some(RadioType::Gsm)
            } else if a == 'l' && b == 't' && c == 'e' {
                Some(RadioType::Lte)
            } else {
                None
            }
        } else if n == 5 {
            let a = lower(text.get_char(0));
            let b = lower(text.get_char(1));
            let c = lower(text.get_char(2));
            let d = lower(text.get_char(3));
            let e = lower(text.get_char(4));
            assert(lowered(text@) =~= seq![a, b, c, d, e]);
            if a == 'w' && b == 'c' && c == 'd' && d == 'm' && e == 'a' {
                Some(RadioType::Wcdma)
            } else {
                None
            }
        } else {
            None
        }
    }

    /// The name of the radio type on the wire.
    pub fn name(&self) -> (r: &'static str)
        ensures
            r@ == radio_name(*self),
    {
        match self {
            RadioType::Gsm => "gsm",
            RadioType::Wcdma => "wcdma",
            RadioType::Lte => "lte",
        }
    }
}

/// The name of a radio type on the wire.
pub open spec fn radio_name(radio: RadioType) -> Seq<char> {
    match radio {
        RadioType::Gsm => "gsm"@,
        RadioType::Wcdma => "wcdma"@,
        RadioType::Lte => "lte"@,
    }
}

impl CellTower {
    /// Sets the radio type from free text, as `RadioType::parse` reads it.
    pub fn set_radio_type(&mut self, radio: &str)
        ensures
            *final(self) == (CellTower { radioType: radio_type_of(radio@), ..*old(self) }),
    {
        self.radioType = RadioType::parse(radio);
    }
}

/// A radio type is read back from its own name.
pub proof fn lemma_radio_name_round_trip(radio: RadioType)
    ensures
        radio_type_of(radio_name(radio)) == Some(radio),
{
    reveal_strlit("gsm");
    reveal_strlit("wcdma");
    reveal_strlit("lte");
    match radio {
        RadioType::Gsm => {
            assert(lowered("gsm"@) =~= seq!['g', 's', 'm']);
        },
        RadioType::Wcdma => {
            assert(lowered("wcdma"@) =~= seq!['w', 'c', 'd', 'm', 'a']);
        },
        RadioType::Lte => {
            assert(lowered("lte"@) =~= seq!['l', 't', 'e']);
        },
    }
}

/// A position fix. Each number is kept as the caller wrote it.
#[allow(non_snake_case)]
#[derive(Debug, PartialEq, Eq)]
pub struct Position {
    pub latitude: JsonNumber,
    pub longitude: JsonNumber,
    pub accuracy: JsonNumber,
    pub altitude: JsonNumber,
    pub altitudeAccuracy: JsonNumber,
    pub heading: JsonNumber,
    pub speed: JsonNumber,
    pub source: String,
}

/// The mathematical value of a `Position`.
#[allow(non_snake_case)]
pub struct PositionView {
    pub latitude: JsonNumber,
    pub longitude: JsonNumber,
    pub accuracy: JsonNumber,
    pub altitude: JsonNumber,
    pub altitudeAccuracy: JsonNumber,
    pub heading: JsonNumber,
    pub speed: JsonNumber,
    pub source: Seq<char>,
}

impl View for Position {
    type V = PositionView;

    open spec fn view(&self) -> PositionView {
        PositionView {
            latitude: self.latitude,
            longitude: self.longitude,
            accuracy: self.accuracy,
            altitude: self.altitude,
            altitudeAccuracy: self.altitudeAccuracy,
            heading: self.heading,
            speed: self.speed,
            source: self.source@,
        }
    }
}

impl Clone for Position {
    fn clone(&self) -> (r: Self)
        ensures
            r@ == self@,
    {
        Position {
            latitude: self.latitude,
            longitude: self.longitude,
            accuracy: self.accuracy,
            altitude: self.altitude,
            altitudeAccuracy: self.altitudeAccuracy,
            heading: self.heading,
            speed: self.speed,
            source: self.source.clone(),
        }
    }
}

/// The number in the member `name` of `json`, if it has that member and the
/// member is a number.
pub open spec fn number_field(json: JsonView, name: Seq<char>) -> Option<JsonNumber> {
    match json.field(name) {
        Some(JsonView::Number(n)) => Some(n),
        _ => None,
    }
}

/// The string in the member `name` of `json`, if it has that member and the
/// member is a string.
pub open spec fn text_field(json: JsonView, name: Seq<char>) -> Option<Seq<char>> {
    match json.field(name) {
        Some(JsonView::Text(text)) => Some(text),
        _ => None,
    }
}

/// The integer in the member `name` of `json`, if it has that member and the
/// member is a non-negative integer no larger than `max`.
pub open spec fn uint_field(json: JsonView, name: Seq<char>, max: nat) -> Option<nat> {
    match json.field(name) {
        Some(JsonView::Number(JsonNumber::PosInt(n))) => if n <= max {
            Some(n as nat)
        } else {
            None
        },
        _ => None,
    }
}

/// As `uint_field`, for a member that may be left out or be `null`: then the
/// integer is `None`. The outer `None` stands for a member of another kind.
pub open spec fn optional_uint_field(json: JsonView, name: Seq<char>, max: nat) -> Option<
    Option<nat>,
> {
    match json.field(name) {
        None => Some(None),
        Some(JsonView::Null) => Some(None),
        Some(_) => match uint_field(json, name, max) {
            Some(n) => Some(Some(n)),
            None => None,
        },
    }
}

/// The radio type in the member `radioType` of `json`. A member left out or
/// `null` leaves the type unspecified, and so does text that names no radio
/// type. The outer `None` stands for a member that is no text.
pub open spec fn radio_field(json: JsonView) -> Option<Option<RadioType>> {
    match json.field("radioType"@) {
        None => Some(None),
        Some(JsonView::Null) => Some(None),
        Some(JsonView::Text(text)) => Some(radio_type_of(text)),
        Some(_) => None,
    }
}

/// The text of the error that reports the member `name` as missing or
/// malformed.
pub open spec fn defect_text(name: Seq<char>) -> Seq<char> {
    "invalid or missing field: "@ + name
}

/// The error that reports the member `name` as missing or malformed.
pub fn defect(name: &str) -> (r: Error)
    ensures
        r matches Error::Serialization(text) && text@ == defect_text(name@),
{
    Error::Serialization(String::from_str("invalid or missing field: ").concat(name))
}

/// Reads the number in the member `name`.
pub fn read_number(json: &Json, name: &str) -> (r: Option<JsonNumber>)
    ensures
        r == number_field(json@, name@),
{
    match json.get(name) {
        Some(Json::Number(n)) => Some(*n),
        _ => None,
    }
}

/// Reads the string in the member `name`.
pub fn read_text(json: &Json, name: &str) -> (r: Option<String>)
    ensures
        match r {
            Some(text) => text_field(json@, name@) == Some(text@),
            None => text_field(json@, name@) is None,
        },
{
    match json.get(name) {
        Some(Json::Text(text)) => Some(text.clone()),
        _ => None,
    }
}

/// Reads the non-negative integer in the member `name`, if it is no larger
/// than `max`.
pub fn read_uint(json: &Json, name: &str, max: u32) -> (r: Option<u32>)
    ensures
        match r {
            Some(n) => uint_field(json@, name@, max as nat) == Some(n as nat),
            None => uint_field(json@, name@, max as nat) is None,
        },
{
    match json.get(name) {
        Some(Json::Number(JsonNumber::PosInt(n))) => {
            if *n <= max as u128 {
                Some(*n as u32)
            } else {
                None
            }
        },
        _ => None,
    }
}

/// Reads the non-negative integer in the member `name`, where the member may
/// be left out or be `null`.
pub fn read_optional_uint(json: &Json, name: &str, max: u32) -> (r: Option<Option<u32>>)
    ensures
        match r {
            Some(Some(n)) => optional_uint_field(json@, name@, max as nat) == Some(Some(n as nat)),
            Some(None) => optional_uint_field(json@, name@, max as nat) == Some(
                None::<nat>,
            ),
            None => optional_uint_field(json@, name@, max as nat) is None,
        },
{
    match json.get(name) {
        None => Some(None),
        Some(Json::Null) => Some(None),
        Some(_) => match read_uint(json, name, max) {
            Some(n) => Some(Some(n)),
            None => None,
        },
    }
}

/// Reads the radio type in the member `radioType`.
pub fn read_radio(json: &Json) -> (r: Option<Option<RadioType>>)
    ensures
        r == radio_field(json@),
{
    match json.get("radioType") {
        None => Some(None),
        Some(Json::Null) => Some(None),
        Some(Json::Text(text)) => Some(RadioType::parse(text.as_str())),
        Some(_) => None,
    }
}

/// The first member, in the order of the fields, that a position lacks or
/// holds malformed in `json`; `None` where `json` is a well-formed position.
pub open spec fn position_defect(json: JsonView) -> Option<Seq<char>> {
    if number_field(json, "latitude"@) is None {
        Some("latitude"@)
    } else if number_field(json, "longitude"@) is None {
        Some("longitude"@)
    } else if number_field(json, "accuracy"@) is None {
        Some("accuracy"@)
    } else if number_field(json, "altitude"@) is None {
        Some("altitude"@)
    } else if number_field(json, "altitudeAccuracy"@) is None {
        Some("altitudeAccuracy"@)
    } else if number_field(json, "heading"@) is None {
        Some("heading"@)
    } else if number_field(json, "speed"@) is None {
        Some("speed"@)
    } else if text_field(json, "source"@) is None {
        Some("source"@)
    } else {
        None
    }
}

/// The position that a well-formed `json` holds.
pub open spec fn position_of(json: JsonView) -> PositionView {
    PositionView {
        latitude: number_field(json, "latitude"@)->0,
        longitude: number_field(json, "longitude"@)->0,
        accuracy: number_field(json, "accuracy"@)->0,
        altitude: number_field(json, "altitude"@)->0,
        altitudeAccuracy: number_field(json, "altitudeAccuracy"@)->0,
        heading: number_field(json, "heading"@)->0,
        speed: number_field(json, "speed"@)->0,
        source: text_field(json, "source"@)->0,
    }
}

/// The first member, in the order of the fields, that a cell tower holds
/// malformed or lacks in `json`; `None` where `json` is a well-formed tower.
pub open spec fn tower_defect(json: JsonView) -> Option<Seq<char>> {
    if radio_field(json) is None {
        Some("radioType"@)
    } else if uint_field(json, "mobileCountryCode"@, 0xffff) is None {
        Some("mobileCountryCode"@)
    } else if uint_field(json, "mobileNetworkCode"@, 0xffff) is None {
        Some("mobileNetworkCode"@)
    } else if uint_field(json, "locationAreaCode"@, 0xffff_ffff) is None {
        Some("locationAreaCode"@)
    } else if uint_field(json, "cellId"@, 0xffff_ffff) is None {
        Some("cellId"@)
    } else if optional_uint_field(json, "age"@, 0xffff_ffff) is None {
        Some("age"@)
    } else if optional_uint_field(json, "asu"@, 0xff) is None {
        Some("asu"@)
    } else {
        None
    }
}

/// An optional integer as an optional `u32`.
pub open spec fn as_optional_u32(n: Option<nat>) -> Option<u32> {
    match n {
        Some(n) => Some(n as u32),
        None => None,
    }
}

/// An optional integer as an optional `u8`.
pub open spec fn as_optional_u8(n: Option<nat>) -> Option<u8> {
    match n {
        Some(n) => Some(n as u8),
        None => None,
    }
}

/// The cell tower that a well-formed `json` holds.
pub open spec fn tower_of(json: JsonView) -> CellTower {
    CellTower {
        radioType: radio_field(json)->0,
        mobileCountryCode: uint_field(json, "mobileCountryCode"@, 0xffff)->0 as u16,
        mobileNetworkCode: uint_field(json, "mobileNetworkCode"@, 0xffff)->0 as u16,
        locationAreaCode: uint_field(json, "locationAreaCode"@, 0xffff_ffff)->0 as u32,
        cellId: uint_field(json, "cellId"@, 0xffff_ffff)->0 as u32,
        age: as_optional_u32(optional_uint_field(json, "age"@, 0xffff_ffff)->0),
        asu: as_optional_u8(optional_uint_field(json, "asu"@, 0xff)->0),
    }
}

/// The defect of the first malformed tower of `towers`; `None` where every
/// one of them is well formed.
pub open spec fn first_tower_defect(towers: Seq<JsonView>) -> Option<Seq<char>>
    decreases towers.len(),
{
    if towers.len() == 0 {
        None
    } else {
        match first_tower_defect(towers.drop_last()) {
            Some(name) => Some(name),
            None => tower_defect(towers.last()),
        }
    }
}

/// What keeps `json` from being a list of cell towers: `cellTowers` where it
/// is no array, else the defect of its first malformed tower.
pub open spec fn towers_defect(json: JsonView) -> Option<Seq<char>> {
    match json {
        JsonView::Array(towers) => first_tower_defect(towers),
        _ => Some("cellTowers"@),
    }
}

/// The cell towers that a well-formed `json` holds.
pub open spec fn towers_of(json: JsonView) -> Seq<CellTower> {
    json->Array_0.map_values(|tower: JsonView| tower_of(tower))
}

impl Position {
    /// Reads a position from a JSON object. All eight members are required:
    /// seven numbers and the string `source`. Other members are ignored.
    pub fn from_json(json: &Json) -> (r: Result<Position, Error>)
        ensures
            match position_defect(json@) {
                Some(name) => r matches Err(Error::Serialization(text)) && text@ == defect_text(
                    name,
                ),
                None => r matches Ok(position) && position@ == position_of(json@),
            },
    {
        let latitude = match read_number(json, "latitude") {
            Some(n) => n,
            None => return Err(defect("latitude")),
        };
        let longitude = match read_number(json, "longitude") {
            Some(n) => n,
            None => return Err(defect("longitude")),
        };
        let accuracy = match read_number(json, "accuracy") {
            Some(n) => n,
            None => return Err(defect("accuracy")),
        };
        let altitude = match read_number(json, "altitude") {
            Some(n) => n,
            None => return Err(defect("altitude")),
        };
        let altitude_accuracy = match read_number(json, "altitudeAccuracy") {
            Some(n) => n,
            None => return Err(defect("altitudeAccuracy")),
        };
        let heading = match read_number(json, "heading") {
            Some(n) => n,
            None => return Err(defect("heading")),
        };
        let speed = match read_number(json, "speed") {
            Some(n) => n,
            None => return Err(defect("speed")),
        };
        let source = match read_text(json, "source") {
            Some(text) => text,
            None => return Err(defect("source")),
        };
        Ok(
            Position {
                latitude,
                longitude,
                accuracy,
                altitude,
                altitudeAccuracy: altitude_accuracy,
                heading,
                speed,
                source,
            },
        )
    }
}

impl CellTower {
    /// Reads a cell tower from a JSON object. The codes and the cell identity
    /// are required; `radioType`, `age` and `asu` may be left out or `null`.
    pub fn from_json(json: &Json) -> (r: Result<CellTower, Error>)
        ensures
            match tower_defect(json@) {
                Some(name) => r matches Err(Error::Serialization(text)) && text@ == defect_text(
                    name,
                ),
                None => r == Ok::<CellTower, Error>(tower_of(json@)),
            },
    {
        let radio = match read_radio(json) {
            Some(radio) => radio,
            None => return Err(defect("radioType")),
        };
        let country = match read_uint(json, "mobileCountryCode", 0xffff) {
            Some(n) => n as u16,
            None => return Err(defect("mobileCountryCode")),
        };
        let network = match read_uint(json, "mobileNetworkCode", 0xffff) {
            Some(n) => n as u16,
            None => return Err(defect("mobileNetworkCode")),
        };
        let area = match read_uint(json, "locationAreaCode", 0xffff_ffff) {
            Some(n) => n,
            None => return Err(defect("locationAreaCode")),
        };
        let cell = match read_uint(json, "cellId", 0xffff_ffff) {
            Some(n) => n,
            None => return Err(defect("cellId")),
        };
        let age = match read_optional_uint(json, "age", 0xffff_ffff) {
            Some(n) => n,
            None => return Err(defect("age")),
        };
        let asu = match read_optional_uint(json, "asu", 0xff) {
            Some(Some(n)) => Some(n as u8),
            Some(None) => None,
            None => return Err(defect("asu")),
        };
        Ok(
            CellTower {
                radioType: radio,
                mobileCountryCode: country,
                mobileNetworkCode: network,
                locationAreaCode: area,
                cellId: cell,
                age,
                asu,
            },
        )
    }
}

/// Reads a list of cell towers from a JSON array.
pub fn cell_towers_from_json(json: &Json) -> (r: Result<Vec<CellTower>, Error>)
    ensures
        match towers_defect(json@) {
            Some(name) => r matches Err(Error::Serialization(text)) && text@ == defect_text(name),
            None => r matches Ok(towers) && towers@ == towers_of(json@),
        },
{
    match json {
        Json::Array(items) => {
            let mut towers: Vec<CellTower> = Vec::new();
            let mut i: usize = 0;
            while i < items.len()
                invariant
                    i <= items.len(),
                    json@ is Array,
                    json@->Array_0.len() == items.len(),
                    forall|k: int| 0 <= k < items.len() ==> json@->Array_0[k] == items[k]@,
                    first_tower_defect(json@->Array_0.take(i as int)) is None,
                    towers@ == json@->Array_0.take(i as int).map_values(
                        |tower: JsonView| tower_of(tower),
                    ),
                decreases items.len() - i,
            {
                proof {
                    let next = json@->Array_0.take(i + 1);
                    assert(next.drop_last() =~= json@->Array_0.take(i as int));
                    assert(next.last() == items[i as int]@);
                }
                match CellTower::from_json(&items[i]) {
                    Ok(tower) => {
                        towers.push(tower);
                    },
                    Err(e) => {
                        proof {
                            lemma_first_defect_prefix(json@->Array_0, i + 1);
                        }
                        return Err(e);
                    },
                }
                i += 1;
                assert(towers@ =~= json@->Array_0.take(i as int).map_values(
                    |tower: JsonView| tower_of(tower),
                ));
            }
            assert(json@->Array_0.take(i as int) =~= json@->Array_0);
            Ok(towers)
        },
        _ => Err(defect("cellTowers")),
    }
}

/// A defect among the first `n` towers is the defect of the whole list.
pub proof fn lemma_first_defect_prefix(towers: Seq<JsonView>, n: int)
    requires
        0 <= n <= towers.len(),
        first_tower_defect(towers.take(n)) is Some,
    ensures
        first_tower_defect(towers) == first_tower_defect(towers.take(n)),
    decreases towers.len() - n,
{
    if n == towers.len() {
        assert(towers.take(n) =~= towers);
    } else {
        assert(towers.take(n + 1).drop_last() =~= towers.take(n));
        lemma_first_defect_prefix(towers, n + 1);
    }
}

/// One observation as it is submitted: a position and what was seen around
/// it, stamped with the time of its assembly.
#[allow(non_camel_case_types)]
#[allow(non_snake_case)]
#[derive(Debug, PartialEq, Eq)]
pub struct items {
    /// Milliseconds since the Unix epoch, taken when the record was assembled.
    pub timestamp: u128,
    pub position: Position,
    pub bluetoothBeacons: Vec<BleDevice>,
    pub wifiAccessPoints: Vec<WifiBssid>,
    /// The cell towers that the caller handed in, if any; never inferred.
    pub CellTowers: Option<Vec<CellTower>>,
}

/// The mathematical value of a record.
#[allow(non_snake_case)]
pub struct ItemsView {
    pub timestamp: u128,
    pub position: PositionView,
    pub bluetoothBeacons: Seq<BleDeviceView>,
    pub wifiAccessPoints: Seq<WifiBssidView>,
    pub CellTowers: Option<Seq<CellTower>>,
}

/// The elements of an optional list.
pub open spec fn optional_towers(towers: Option<Vec<CellTower>>) -> Option<Seq<CellTower>> {
    match towers {
        Some(towers) => Some(towers@),
        None => None,
    }
}

impl View for items {
    type V = ItemsView;

    open spec fn view(&self) -> ItemsView {
        ItemsView {
            timestamp: self.timestamp,
            position: self.position@,
            bluetoothBeacons: device_views(self.bluetoothBeacons@),
            wifiAccessPoints: wifi_views(self.wifiAccessPoints@),
            CellTowers: optional_towers(self.CellTowers),
        }
    }
}

/// A position on the wire.
pub open spec fn position_json(position: PositionView) -> JsonView {
    JsonView::Object(
        seq![
            ("latitude"@, JsonView::Number(position.latitude)),
            ("longitude"@, JsonView::Number(position.longitude)),
            ("accuracy"@, JsonView::Number(position.accuracy)),
            ("altitude"@, JsonView::Number(position.altitude)),
            ("altitudeAccuracy"@, JsonView::Number(position.altitudeAccuracy)),
            ("heading"@, JsonView::Number(position.heading)),
            ("speed"@, JsonView::Number(position.speed)),
            ("source"@, JsonView::Text(position.source)),
        ],
    )
}

/// An optional radio type on the wire: its name, or `null`.
pub open spec fn radio_json(radio: Option<RadioType>) -> JsonView {
    match radio {
        Some(radio) => JsonView::Text(radio_name(radio)),
        None => JsonView::Null,
    }
}

/// An optional integer on the wire: the number, or `null`.
pub open spec fn optional_json(n: Option<nat>) -> JsonView {
    match n {
        Some(n) => JsonView::Number(JsonNumber::PosInt(n as u128)),
        None => JsonView::Null,
    }
}

/// An optional `u32` as an optional integer.
pub open spec fn optional_nat(n: Option<u32>) -> Option<nat> {
    match n {
        Some(n) => Some(n as nat),
        None => None,
    }
}

/// An optional `u8` as an optional integer.
pub open spec fn optional_nat_u8(n: Option<u8>) -> Option<nat> {
    match n {
        Some(n) => Some(n as nat),
        None => None,
    }
}

/// A cell tower on the wire. All seven members are written; what is not
/// specified is `null`.
pub open spec fn tower_json(tower: CellTower) -> JsonView {
    JsonView::Object(
        seq![
            ("radioType"@, radio_json(tower.radioType)),
            (
                "mobileCountryCode"@,
                JsonView::Number(JsonNumber::PosInt(tower.mobileCountryCode as u128)),
            ),
            (
                "mobileNetworkCode"@,
                JsonView::Number(JsonNumber::PosInt(tower.mobileNetworkCode as u128)),
            ),
            (
                "locationAreaCode"@,
                JsonView::Number(JsonNumber::PosInt(tower.locationAreaCode as u128)),
            ),
            ("cellId"@, JsonView::Number(JsonNumber::PosInt(tower.cellId as u128))),
            ("age"@, optional_json(optional_nat(tower.age))),
            ("asu"@, optional_json(optional_nat_u8(tower.asu))),
        ],
    )
}

/// The member `CellTowers` of a record on the wire: present where the caller
/// handed cell towers in.
pub open spec fn towers_members(towers: Option<Seq<CellTower>>) -> Seq<(Seq<char>, JsonView)> {
    match towers {
        Some(towers) => seq![
            ("CellTowers"@, JsonView::Array(towers.map_values(|tower: CellTower| tower_json(tower)))),
        ],
        None => seq![],
    }
}

/// A record on the wire. The names of the members, and their case, are those
/// of the submission interface.
pub open spec fn record_json(record: ItemsView) -> JsonView {
    JsonView::Object(
        seq![
            ("timestamp"@, JsonView::Number(JsonNumber::PosInt(record.timestamp))),
            ("position"@, position_json(record.position)),
            (
                "bluetoothBeacons"@,
                JsonView::Array(
                    record.bluetoothBeacons.map_values(|device: BleDeviceView| ble_json(device)),
                ),
            ),
            (
                "wifiAccessPoints"@,
                JsonView::Array(
                    record.wifiAccessPoints.map_values(|wifi: WifiBssidView| wifi_json(wifi)),
                ),
            ),
        ] + towers_members(record.CellTowers),
    )
}

impl Position {
    /// The position as it goes on the wire.
    pub fn to_json(&self) -> (r: Json)
        ensures
            r@ == position_json(self@),
    {
        let mut members: Vec<Member> = Vec::new();
        members.push(Member::new("latitude", Json::Number(self.latitude)));
        members.push(Member::new("longitude", Json::Number(self.longitude)));
        members.push(Member::new("accuracy", Json::Number(self.accuracy)));
        members.push(Member::new("altitude", Json::Number(self.altitude)));
        members.push(Member::new("altitudeAccuracy", Json::Number(self.altitudeAccuracy)));
        members.push(Member::new("heading", Json::Number(self.heading)));
        members.push(Member::new("speed", Json::Number(self.speed)));
        members.push(Member::new("source", Json::text(self.source.as_str())));
        let r = Json::object(members);
        assert(r@->Object_0 =~= position_json(self@)->Object_0);
        r
    }
}

fn optional_to_json(n: Option<u32>) -> (r: Json)
    ensures
        r@ == optional_json(optional_nat(n)),
{
    match n {
        Some(n) => Json::unsigned(n as u128),
        None => Json::Null,
    }
}

impl CellTower {
    /// The tower as it goes on the wire.
    pub fn to_json(&self) -> (r: Json)
        ensures
            r@ == tower_json(*self),
    {
        let radio = match self.radioType {
            Some(radio) => Json::text(radio.name()),
            None => Json::Null,
        };
        let asu = match self.asu {
            Some(n) => Json::unsigned(n as u128),
            None => Json::Null,
        };
        let mut members: Vec<Member> = Vec::new();
        members.push(Member::new("radioType", radio));
        members.push(Member::new("mobileCountryCode", Json::unsigned(self.mobileCountryCode as u128)));
        members.push(Member::new("mobileNetworkCode", Json::unsigned(self.mobileNetworkCode as u128)));
        members.push(Member::new("locationAreaCode", Json::unsigned(self.locationAreaCode as u128)));
        members.push(Member::new("cellId", Json::unsigned(self.cellId as u128)));
        members.push(Member::new("age", optional_to_json(self.age)));
        members.push(Member::new("asu", asu));
        let r = Json::object(members);
        assert(r@->Object_0 =~= tower_json(*self)->Object_0);
        r
    }
}

fn beacons_to_json(devices: &Vec<BleDevice>) -> (r: Json)
    ensures
        r@ == JsonView::Array(
            device_views(devices@).map_values(|device: BleDeviceView| ble_json(device)),
        ),
{
    let mut list: Vec<Json> = Vec::new();
    let mut i: usize = 0;
    while i < devices.len()
        invariant
            i <= devices.len(),
            list.len() == i,
            forall|k: int| 0 <= k < i ==> list[k]@ == ble_json(devices[k]@),
        decreases devices.len() - i,
    {
        list.push(devices[i].to_json());
        i += 1;
    }
    let r = Json::array(list);
    assert(r@->Array_0 =~= device_views(devices@).map_values(
        |device: BleDeviceView| ble_json(device),
    ));
    r
}

fn access_points_to_json(found: &Vec<WifiBssid>) -> (r: Json)
    ensures
        r@ == JsonView::Array(wifi_views(found@).map_values(|wifi: WifiBssidView| wifi_json(wifi))),
{
    let mut list: Vec<Json> = Vec::new();
    let mut i: usize = 0;
    while i < found.len()
        invariant
            i <= found.len(),
            list.len() == i,
            forall|k: int| 0 <= k < i ==> list[k]@ == wifi_json(found[k]@),
        decreases found.len() - i,
    {
        list.push(found[i].to_json());
        i += 1;
    }
    let r = Json::array(list);
    assert(r@->Array_0 =~= wifi_views(found@).map_values(|wifi: WifiBssidView| wifi_json(wifi)));
    r
}

fn towers_to_json(towers: &Vec<CellTower>) -> (r: Json)
    ensures
        r@ == JsonView::Array(towers@.map_values(|tower: CellTower| tower_json(tower))),
{
    let mut list: Vec<Json> = Vec::new();
    let mut i: usize = 0;
    while i < towers.len()
        invariant
            i <= towers.len(),
            list.len() == i,
            forall|k: int| 0 <= k < i ==> list[k]@ == tower_json(towers[k]),
        decreases towers.len() - i,
    {
        list.push(towers[i].to_json());
        i += 1;
    }
    let r = Json::array(list);
    assert(r@->Array_0 =~= towers@.map_values(|tower: CellTower| tower_json(tower)));
    r
}

impl items {
    /// The record as it goes on the wire, in the shape that the submission
    /// interface fixes. `CellTowers` is left out where there are none.
    pub fn to_json(&self) -> (r: Json)
        ensures
            r@ == record_json(self@),
    {
        let mut members: Vec<Member> = Vec::new();
        members.push(Member::new("timestamp", Json::unsigned(self.timestamp)));
        members.push(Member::new("position", self.position.to_json()));
        members.push(Member::new("bluetoothBeacons", beacons_to_json(&self.bluetoothBeacons)));
        members.push(Member::new("wifiAccessPoints", access_points_to_json(&self.wifiAccessPoints)));
        match &self.CellTowers {
            Some(towers) => {
                members.push(Member::new("CellTowers", towers_to_json(towers)));
            },
            None => {},
        }
        let r = Json::object(members);
        assert(r@->Object_0 =~= record_json(self@)->Object_0);
        r
    }
}

/// A position is read back from its form on the wire.
pub proof fn lemma_position_round_trip(position: PositionView)
    ensures
        position_defect(position_json(position)) is None,
        position_of(position_json(position)) == position,
{
    reveal_strlit("latitude");
    reveal_strlit("longitude");
    reveal_strlit("accuracy");
    reveal_strlit("altitude");
    reveal_strlit("altitudeAccuracy");
    reveal_strlit("heading");
    reveal_strlit("speed");
    reveal_strlit("source");
    let members = position_json(position)->Object_0;
    assert("latitude"@.len() == 8 && "longitude"@.len() == 9 && "accuracy"@.len() == 8);
    assert("altitude"@.len() == 8 && "altitudeAccuracy"@.len() == 16);
    assert("heading"@.len() == 7 && "speed"@.len() == 5 && "source"@.len() == 6);
    assert("accuracy"@[1] != "latitude"@[1]);
    assert("altitude"@[0] != "latitude"@[0]);
    assert("altitude"@[1] != "accuracy"@[1]);
    assert("source"@[1] != "speed"@[1]);
    lemma_lookup_found(members, "latitude"@, 0);
    lemma_lookup_found(members, "longitude"@, 1);
    lemma_lookup_found(members, "accuracy"@, 2);
    lemma_lookup_found(members, "altitude"@, 3);
    lemma_lookup_found(members, "altitudeAccuracy"@, 4);
    lemma_lookup_found(members, "heading"@, 5);
    lemma_lookup_found(members, "speed"@, 6);
    lemma_lookup_found(members, "source"@, 7);
}

/// A cell tower is read back from its form on the wire.
pub proof fn lemma_tower_round_trip(tower: CellTower)
    ensures
        tower_defect(tower_json(tower)) is None,
        tower_of(tower_json(tower)) == tower,
{
    reveal_strlit("radioType");
    reveal_strlit("mobileCountryCode");
    reveal_strlit("mobileNetworkCode");
    reveal_strlit("locationAreaCode");
    reveal_strlit("cellId");
    reveal_strlit("age");
    reveal_strlit("asu");
    let members = tower_json(tower)->Object_0;
    assert("radioType"@.len() == 9 && "mobileCountryCode"@.len() == 17);
    assert("mobileNetworkCode"@.len() == 17 && "locationAreaCode"@.len() == 16);
    assert("cellId"@.len() == 6 && "age"@.len() == 3 && "asu"@.len() == 3);
    assert("mobileNetworkCode"@[6] != "mobileCountryCode"@[6]);
    assert("asu"@[1] != "age"@[1]);
    lemma_lookup_found(members, "radioType"@, 0);
    lemma_lookup_found(members, "mobileCountryCode"@, 1);
    lemma_lookup_found(members, "mobileNetworkCode"@, 2);
    lemma_lookup_found(members, "locationAreaCode"@, 3);
    lemma_lookup_found(members, "cellId"@, 4);
    lemma_lookup_found(members, "age"@, 5);
    lemma_lookup_found(members, "asu"@, 6);
    match tower.radioType {
        Some(radio) => {
            lemma_radio_name_round_trip(radio);
        },
        None => {},
    }
}

/// The members of a record on the wire, found by their names: the four that
/// are always there, and `CellTowers` where the record has cell towers and
/// only there.
pub proof fn lemma_record_members(record: ItemsView)
    ensures
        record_json(record).field("timestamp"@) == Some(
            JsonView::Number(JsonNumber::PosInt(record.timestamp)),
        ),
        record_json(record).field("position"@) == Some(position_json(record.position)),
        record_json(record).field("bluetoothBeacons"@) == Some(
            JsonView::Array(
                record.bluetoothBeacons.map_values(|device: BleDeviceView| ble_json(device)),
            ),
        ),
        record_json(record).field("wifiAccessPoints"@) == Some(
            JsonView::Array(
                record.wifiAccessPoints.map_values(|wifi: WifiBssidView| wifi_json(wifi)),
            ),
        ),
        record_json(record).field("CellTowers"@) == match record.CellTowers {
            Some(towers) => Some(
                JsonView::Array(towers.map_values(|tower: CellTower| tower_json(tower))),
            ),
            None => None,
        },
{
    reveal_strlit("timestamp");
    reveal_strlit("position");
    reveal_strlit("bluetoothBeacons");
    reveal_strlit("wifiAccessPoints");
    reveal_strlit("CellTowers");
    let members = record_json(record)->Object_0;
    assert("timestamp"@.len() == 9 && "position"@.len() == 8 && "CellTowers"@.len() == 10);
    assert("bluetoothBeacons"@.len() == 16 && "wifiAccessPoints"@.len() == 16);
    assert("bluetoothBeacons"@[0] != "wifiAccessPoints"@[0]);
    lemma_lookup_found(members, "timestamp"@, 0);
    lemma_lookup_found(members, "position"@, 1);
    lemma_lookup_found(members, "bluetoothBeacons"@, 2);
    lemma_lookup_found(members, "wifiAccessPoints"@, 3);
    match record.CellTowers {
        Some(_) => {
            lemma_lookup_found(members, "CellTowers"@, 4);
        },
        None => {
            lemma_lookup_skip(members, "CellTowers"@, 4);
            assert(members.skip(4).len() == 0);
        },
    }
}

} // verus!
