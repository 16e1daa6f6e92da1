use vstd::prelude::*;

verus! {

/// Why a draw pass failed for this tick. Configuration errors leave the
/// surface alive and it retries on the next eligible tick; the others are
/// fatal for this draw call and are reported rather than half-submitted.
#[derive(Clone, Copy, PartialEq, Eq, Structural, Debug)]
pub enum DrawError {
    /// The output's directory matched no eligible image file.
    EmptyDirectory,
    /// The output's path could not be read or enumerated.
    UnreadablePath,
    /// The chosen image could not be decoded.
    DecodeFailed,
    /// A source raster was empty or did not hold four bytes per pixel.
    MalformedSource,
    /// The resized frame missed the requested dimensions.
    MalformedFrame,
    /// stride * height does not fit in the pool's address space.
    PoolSizeOverflow,
    /// The shared-memory pool could not be resized or hand out a buffer.
    PoolAllocationFailed,
}

} // verus!
