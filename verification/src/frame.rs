//! Shared per-frame context.
//!
//! A [`FrameUniforms`] value is built fresh for every render request: it
//! carries the output frame's pixel dimensions and the timeline the layers
//! read their segments from. A zero-sized output would make every resolved
//! parameter degenerate, so construction rejects it up front.

use vstd::prelude::*;

use crate::timeline::Timeline;

verus! {

/// Pixel dimensions of the target frame.
#[derive(Clone, Copy, Debug, PartialEq, Eq, Structural)]
pub struct OutputSize {
    pub width: u32,
    pub height: u32,
}

impl OutputSize {
    /// Both dimensions must be positive for a frame to be renderable.
    pub open spec fn valid(self) -> bool {
        self.width > 0 && self.height > 0
    }
}

/// Why a frame request was rejected before any layer ran.
#[derive(Clone, Copy, Debug, PartialEq, Eq, Structural)]
pub enum FrameError {
    /// The output size had a zero width or height.
    EmptyOutput,
}

/// Per-frame shared context: output size and the borrowed timeline.
pub struct FrameUniforms {
    pub output_size: OutputSize,
    pub timeline: Timeline,
}

impl FrameUniforms {
    /// A frame request the engine accepts: positive output dimensions and
    /// well-formed segment windows.
    pub open spec fn valid(self) -> bool {
        self.output_size.valid() && self.timeline.wf()
    }

    /// Builds the context for one render request, rejecting zero-sized
    /// outputs.
    pub fn new(output_size: OutputSize, timeline: Timeline) -> (r: Result<
        FrameUniforms,
        FrameError,
    >)
        requires
            timeline.wf(),
        ensures
            output_size.valid() ==> (r matches Ok(f) && f == (FrameUniforms {
                output_size,
                timeline,
            })),
            !output_size.valid() ==> r == Err::<FrameUniforms, FrameError>(FrameError::EmptyOutput),
            r matches Ok(f) ==> f.valid(),
    {
        if output_size.width == 0 || output_size.height == 0 {
            Err(FrameError::EmptyOutput)
        } else {
            Ok(FrameUniforms { output_size, timeline })
        }
    }
}

} // verus!
