//! Decoder for AIS (Automatic Identification System) broadcasts carried over
//! NMEA 0183 sentence lines.
//!
//! The decoder has two layers. The sentence layer frames an NMEA line,
//! verifies its checksum, strips an optional tag-block prefix and reassembles
//! multi-part fragments. The message layer un-armors the 6-bit packed payload
//! into a bitstream and dispatches it to one of the per-type decoders, each of
//! which extracts a fixed schema of bit-aligned fields and translates wire
//! sentinels ("not available" markers) into absent optional values.

pub mod bits;
pub mod errors;
pub mod messages;
pub mod sentence;

pub use sentence::{AisFragments, AisParser};
