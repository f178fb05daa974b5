use vstd::prelude::*;

verus! {

/// Sub-cell units per cell: a position `x` lies in cell `x / UNIT`.
/// Direction vectors have length `UNIT`, and uniform draws in `[0, 1)` are
/// taken in `[0, UNIT)`.
pub const UNIT: u64 = 1000;

/// Number of distinct headings: one full turn is `ANGLE_STEPS` steps of a
/// tenth of a degree.
pub const ANGLE_STEPS: u32 = 3600;

/// Milliseconds per second.
pub const MILLIS: u64 = 1000;

/// Denominator of `diffusion_strength`: a strength of `DIFFUSION_SCALE`
/// replaces a cell by the mean of its neighbourhood.
pub const DIFFUSION_SCALE: u32 = 100;

/// Largest accepted field side, in cells.
pub const MAX_FIELD_SIDE: u32 = 1_000_000;

/// Largest total of the three channels of one cell.
pub const MAX_CELL_WEIGHT: u64 = 765;

} // verus!
