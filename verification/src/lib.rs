//! Operations on one partition of a flat disk-image file: resolving the
//! partition's byte region from the partition table, zeroing and copying
//! byte ranges in bounded chunks, validating filesystem kinds, and the
//! loopback-session and mount protocols that format and mount follow.
//!
//! The library is pure logic over plain values; the surrounding driver
//! performs the file, device and subprocess work and reports its outcomes
//! back as events.

pub mod chunk;
pub mod decimal;
pub mod errors;
pub mod fskind;
pub mod geometry;
pub mod image;
pub mod mount;
pub mod part;
pub mod session;
