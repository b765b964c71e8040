use vstd::prelude::*;

verus! {

/// Conditions that the engine rejects rather than computing degenerate output.
#[derive(Clone, Copy, Debug, PartialEq, Eq, Structural)]
pub enum SpectrogramError {
    /// The transform length is below two samples.
    InvalidFrameLength,
    /// The overlap is not smaller than the transform length (hop would be zero or negative).
    InvalidOverlap,
    /// The dynamic range in dB is not positive.
    InvalidRangeDb,
}

} // verus!
