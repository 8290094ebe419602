//! Timeline data consumed by the compositing engine.
//!
//! A segment is a time-windowed effect instance: it carries its window in
//! microseconds, an enabled flag, and the effect's normalized parameters.
//! Segments are immutable snapshots supplied per render request; the engine
//! only reads them. Times are microseconds; spatial and strength parameters
//! are normalized fixed-point values (see [`crate::geometry::NORM_SCALE`]).

use vstd::prelude::*;

verus! {

/// The magnifier's lens shape.
#[derive(Clone, Copy, Debug, PartialEq, Eq, Structural)]
pub enum MagnifierShape {
    Circle,
    Ellipse,
    RoundedRectangle,
}

/// The numeric code a shape is encoded as in the GPU uniform layout.
///
/// The mapping is explicit and exhaustive so it cannot drift silently from
/// the shader contract: Circle is 0, Ellipse is 1, RoundedRectangle is 2.
pub fn shape_code(shape: MagnifierShape) -> (code: u32)
    ensures
        code == spec_shape_code(shape),
{
    match shape {
        MagnifierShape::Circle => 0,
        MagnifierShape::Ellipse => 1,
        MagnifierShape::RoundedRectangle => 2,
    }
}

/// Specification of the shape encoding.
pub open spec fn spec_shape_code(shape: MagnifierShape) -> u32 {
    match shape {
        MagnifierShape::Circle => 0,
        MagnifierShape::Ellipse => 1,
        MagnifierShape::RoundedRectangle => 2,
    }
}

/// One magnifier effect instance on the timeline.
///
/// `start_us` and `end_us` bound the active window in microseconds,
/// inclusive at both ends. `center_x`, `center_y`, `radius` and
/// `glass_radius` are normalized fixed-point coordinates; `zoom_amount`,
/// `glass_strength`, `border_width` and `feather` are fixed-point values
/// handed to the shader verbatim. `border_color` is a `#RRGGBB[AA]` string,
/// falling back to opaque white when malformed.
#[derive(Clone, Debug)]
pub struct MagnifierSegment {
    pub start_us: u64,
    pub end_us: u64,
    pub enabled: bool,
    pub center_x: u32,
    pub center_y: u32,
    pub radius: u32,
    pub glass_radius: u32,
    pub zoom_amount: u32,
    pub glass_strength: u32,
    pub border_width: u32,
    pub feather: u32,
    pub shape: MagnifierShape,
    pub border_color: String,
}

impl MagnifierSegment {
    /// A segment's time window is well-formed when it does not end before
    /// it starts.
    pub open spec fn wf(self) -> bool {
        self.start_us <= self.end_us
    }

    /// Whether this segment is active at `time_us`: it must be enabled and
    /// the time must lie inside the window, boundaries included.
    pub open spec fn active_at(self, time_us: u64) -> bool {
        self.enabled && self.start_us <= time_us && time_us <= self.end_us
    }

    /// Runtime test for [`Self::active_at`].
    pub fn is_active(&self, time_us: u64) -> (r: bool)
        ensures
            r == self.active_at(time_us),
    {
        self.enabled && self.start_us <= time_us && time_us <= self.end_us
    }
}

/// A disabled segment is never active, no matter the time.
pub proof fn lemma_disabled_never_active(seg: MagnifierSegment, time_us: u64)
    requires
        !seg.enabled,
    ensures
        !seg.active_at(time_us),
{
}

/// The ordered segments of a project, grouped by layer type. Order matters:
/// simultaneously active segments are drawn in timeline order, later ones
/// on top.
#[derive(Clone, Debug)]
pub struct Timeline {
    pub magnifier_segments: Vec<MagnifierSegment>,
}

impl Timeline {
    /// All segment windows are well-formed.
    pub open spec fn wf(self) -> bool {
        forall|i: int|
            0 <= i < self.magnifier_segments@.len() ==> (
            #[trigger] self.magnifier_segments@[i]).wf()
    }

    /// A timeline with no segments for any layer type.
    pub fn empty() -> (t: Timeline)
        ensures
            t.magnifier_segments@.len() == 0,
            t.wf(),
    {
        Timeline { magnifier_segments: Vec::new() }
    }
}

} // verus!
