//! Manufacturer-specific (enhanced) PID types that carry no measured value.

use vstd::prelude::*;

verus! {

/// Confidence level of diagnostic data from a vehicle spec.
#[derive(Debug, Clone, Copy, PartialEq, Eq, Structural)]
pub enum Confidence {
    Verified,
    Community,
    Inferred,
    Unverified,
}

/// A set of named boolean flags decoded from raw bytes.
#[derive(Debug, Clone)]
pub struct Bitfield {
    pub raw: u32,
    pub flags: Vec<(String, bool)>,
}

/// Source of a reading.
#[derive(Debug, Clone, Copy, PartialEq, Eq, Structural)]
pub enum ReadingSource {
    Live,
    FreezeFrame,
    Replay,
}

} // verus!
