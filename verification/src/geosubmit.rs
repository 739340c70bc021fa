//! The observation record, its assembly and its submission.

pub mod client;
pub mod payload;

pub use self::client::{
    assemble_at, assemble_geo_payload, build_record, parse_observation, stamp_record,
};
pub use self::payload::{items, CellTower, Position, RadioType};
