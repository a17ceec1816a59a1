//! Verified core of a thermal-label-printer driver speaking the ZPL
//! line-oriented command protocol: command encoding, raster serialization,
//! status-response decoding, response framing, and the per-device connection
//! state machine with its bounded job queue.

pub mod command;
pub mod config;
pub mod crc;
pub mod data_uri;
pub mod dims;
pub mod driver;
pub mod image;
pub mod job;
pub mod label;
pub mod raster;
pub mod read;
pub mod status;
pub mod text;
