//! An edge relay for geolocation observations: it takes a position fix from
//! a companion device, over HTTPS or over Bluetooth, joins it with the WiFi
//! access points and Bluetooth devices around, and submits the record to a
//! geolocation service.
//!
//! This library holds the rules of the relay; reading the radios, the
//! network and the clock of the ingress is left to the program around it.

pub mod error;
pub mod geosubmit;
pub mod json;
pub mod peripheral;
pub mod scanner;
pub mod server;
pub mod text;

pub use error::Error;
pub use geosubmit::{items, CellTower, Position};
pub use scanner::{BleDevice, WifiBssid};
