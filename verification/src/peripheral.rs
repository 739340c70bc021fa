//! The Bluetooth ingress: a GATT peripheral that takes messages in pieces.

pub mod gatt;

pub use self::gatt::Reassembler;
