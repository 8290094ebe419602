//! Frame orchestration: prepare and render each layer in order, threading
//! the texture chain.
//!
//! Textures are identified by slot index. Every frame reads the upstream
//! source in slot 0. A layer that draws writes into the next slot, which
//! then feeds the next layer; a layer with no active instance passes its
//! input slot through unchanged, so an idle layer costs nothing and the
//! final slot always names the texture holding the finished frame.

use vstd::prelude::*;

use crate::frame::FrameUniforms;
use crate::magnifier::{active_uniforms, DrawCall, MagnifierLayer};

verus! {

/// The texture slot every frame's upstream source occupies.
pub const SOURCE_SLOT: u32 = 0;

/// The texture slot the magnifier layer writes when it draws.
pub const MAGNIFIER_SLOT: u32 = 1;

/// Everything the GPU executor must do for one frame: the draw calls in
/// order, each reading `input_texture`, and the slot that holds the final
/// composited image. `upload_first` reports whether the first active
/// instance's uniforms differed from the cached value of the last upload,
/// i.e. whether the prepare-phase buffer write may be skipped.
pub struct FramePlan {
    pub draws: Vec<DrawCall>,
    pub upload_first: bool,
    pub input_texture: u32,
    pub final_texture: u32,
}

/// The compositor owns the ordered layers; each render request runs
/// `prepare` then `render` on every layer against one shared frame context.
pub struct Compositor {
    pub magnifier: MagnifierLayer,
}

impl Compositor {
    /// A compositor with all layers in their initial, empty state.
    pub fn new() -> (c: Compositor)
        ensures
            c.magnifier.active_magnifiers@.len() == 0,
            c.magnifier.cached_uniforms is None,
    {
        Compositor { magnifier: MagnifierLayer::new() }
    }

    /// Composites one frame at `time_us`.
    ///
    /// The plan carries one draw call per active instance, in timeline
    /// order, with that instance's resolved uniforms. When nothing is
    /// active the plan is empty and the source texture passes through as
    /// the final image unchanged.
    pub fn render_frame(&mut self, frame: &FrameUniforms, time_us: u64) -> (plan: FramePlan)
        requires
            frame.valid(),
        ensures
            ({
                let acts = active_uniforms(
                    frame.timeline.magnifier_segments@,
                    frame.output_size,
                    time_us,
                );
                &&& final(self).magnifier.active_magnifiers@ == acts
                &&& final(self).magnifier.cached_uniforms == if acts.len() > 0 {
                    Some(acts[0])
                } else {
                    old(self).magnifier.cached_uniforms
                }
                &&& plan.upload_first == (acts.len() > 0 && old(self).magnifier.cached_uniforms
                    != Some(acts[0]))
                &&& plan.draws@.len() == acts.len()
                &&& forall|i: int|
                    0 <= i < plan.draws@.len() ==> (#[trigger] plan.draws@[i]).uniforms == acts[i]
                &&& plan.input_texture == SOURCE_SLOT
                &&& plan.final_texture == if acts.len() == 0 {
                    SOURCE_SLOT
                } else {
                    MAGNIFIER_SLOT
                }
            }),
    {
        let upload_first = self.magnifier.prepare(frame, time_us);
        let layer_plan = self.magnifier.render();
        let final_texture = if layer_plan.draws.len() == 0 {
            SOURCE_SLOT
        } else {
            MAGNIFIER_SLOT
        };
        FramePlan { draws: layer_plan.draws, upload_first, input_texture: SOURCE_SLOT, final_texture }
    }
}

} // verus!
