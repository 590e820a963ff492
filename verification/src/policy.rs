//! The numeric policy of the engine, gathered in one place: the fixed-point
//! scale, the per-category scoring multipliers, the detection threshold and
//! the safety-level boundaries.
//!
//! Every value is in thousandths (milli-units) unless its name says otherwise.

use vstd::prelude::*;

verus! {

/// The fixed-point scale: `1000` milli-units stand for the real value `1.0`.
pub const MILLI_ONE: u32 = 1000;

/// Hard cap on the vulnerability factor: `3.0`.
pub const FACTOR_CAP_MILLI: u32 = 3000;

/// A candidate match is confirmed when its adjusted confidence exceeds `0.7`.
pub const CONFIRMATION_THRESHOLD_MILLI: u32 = 700;

/// Detections with adjusted confidence at or below `1.5` classify as Caution.
pub const CAUTION_MAX_MILLI: u32 = 1500;

/// Detections with adjusted confidence in `(1.5, 2.5]` classify as AtRisk;
/// anything above classifies as ImmediateDanger.
pub const AT_RISK_MAX_MILLI: u32 = 2500;

/// Gaslighting multiplier (`1.5`) for users with variable processing speed.
pub const GASLIGHTING_SPEED_MULTIPLIER_MILLI: u32 = 1500;

/// Cognitive-overload multiplier (`2.0`) for users sensitive to information
/// floods.
pub const OVERLOAD_FLOOD_MULTIPLIER_MILLI: u32 = 2000;

/// Social-exclusion multiplier (`1.8`) for users whose social style requires
/// caution.
pub const EXCLUSION_CAUTION_MULTIPLIER_MILLI: u32 = 1800;

/// Compounding weight (`1.3`) for bureaucratic delay and denial patterns.
/// Unlike the flat category multipliers, this weight applies to the base
/// score directly, and the compounded value (base times `1.3`) stands as
/// the factor for these categories.
pub const BUREAUCRATIC_COMPOUND_MULTIPLIER_MILLI: u32 = 1300;

/// Length of the processing break granted by a processing-support measure,
/// in seconds.
pub const PROCESSING_TIMEOUT_SECS: u64 = 300;

} // verus!
