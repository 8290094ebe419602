//! Platform feedback and window-chrome parameters.
//!
//! The desktop shell forwards these values to the operating system; the
//! numeric codes the native APIs expect are fixed here by explicit,
//! exhaustive conversions so they cannot drift.

use vstd::prelude::*;

verus! {

/// Haptic feedback patterns the shell can request.
#[derive(Debug, Clone, Copy, PartialEq, Eq, Structural)]
pub enum HapticPattern {
    Alignment,
    LevelChange,
    Generic,
}

impl Default for HapticPattern {
    /// The pattern used when none is specified.
    fn default() -> (r: Self)
        ensures
            r == HapticPattern::Generic,
    {
        HapticPattern::Generic
    }
}

/// Specification of the native code of each haptic pattern.
pub open spec fn spec_haptic_pattern_code(p: HapticPattern) -> int {
    match p {
        HapticPattern::Alignment => 0,
        HapticPattern::LevelChange => 1,
        HapticPattern::Generic => 2,
    }
}

/// The native constant a haptic pattern is passed as.
pub fn haptic_pattern_code(p: HapticPattern) -> (code: i64)
    ensures
        code == spec_haptic_pattern_code(p),
{
    match p {
        HapticPattern::Alignment => 0,
        HapticPattern::LevelChange => 1,
        HapticPattern::Generic => 2,
    }
}

/// When requested haptic feedback is performed.
#[derive(Debug, Clone, Copy, PartialEq, Eq, Structural)]
pub enum HapticPerformanceTime {
    Default,
    Now,
    DrawCompleted,
}

impl Default for HapticPerformanceTime {
    /// The performance time used when none is specified.
    fn default() -> (r: Self)
        ensures
            r == HapticPerformanceTime::Now,
    {
        HapticPerformanceTime::Now
    }
}

/// Specification of the native code of each performance time.
pub open spec fn spec_haptic_time_code(t: HapticPerformanceTime) -> int {
    match t {
        HapticPerformanceTime::Default => 0,
        HapticPerformanceTime::Now => 1,
        HapticPerformanceTime::DrawCompleted => 2,
    }
}

/// The native constant a performance time is passed as.
pub fn haptic_time_code(t: HapticPerformanceTime) -> (code: u64)
    ensures
        code == spec_haptic_time_code(t),
{
    match t {
        HapticPerformanceTime::Default => 0,
        HapticPerformanceTime::Now => 1,
        HapticPerformanceTime::DrawCompleted => 2,
    }
}

/// Styles of the translucent glass backdrop a window can carry.
#[derive(Debug, Clone, Copy, PartialEq, Eq, Structural)]
pub enum GlassEffectStyle {
    Regular,
    Clear,
}

impl Default for GlassEffectStyle {
    /// The style used when none is specified.
    fn default() -> (r: Self)
        ensures
            r == GlassEffectStyle::Regular,
    {
        GlassEffectStyle::Regular
    }
}

} // verus!
