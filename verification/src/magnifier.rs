//! The magnifier (zoom) layer.
//!
//! Per frame, the layer filters its segments down to the ones active at the
//! frame's timestamp, resolves each one's normalized parameters into pixel
//! space, and emits one full-screen-quad draw call per active instance, in
//! timeline order. The resolved parameters of the first active instance are
//! compared against a cache of the last uploaded value so a redundant GPU
//! buffer write can be skipped.

use vstd::prelude::*;

use crate::color::{parse_color, parsed_color, valid_hex_color, Color};
use crate::frame::{FrameUniforms, OutputSize};
use crate::geometry::{min_dim, to_pixels};
use crate::timeline::{shape_code, spec_shape_code, MagnifierSegment};

verus! {

/// Resolved pixel-space parameters for one active magnifier instance.
///
/// This is the verified image of the GPU uniform record. Coordinates and
/// radii are in millionths of a pixel; the remaining fixed-point fields are
/// carried over from the segment verbatim. The unverified GPU boundary
/// turns each field into the 4-byte float the shader's uniform block
/// expects, in this field order: center, radius, zoom amount, shape code,
/// glass strength, glass radius, frame size, texture size, border width,
/// border color, feather.
#[derive(Clone, Copy, Debug, PartialEq, Eq, Structural)]
pub struct MagnifierUniforms {
    pub center_x: u64,
    pub center_y: u64,
    pub radius: u64,
    pub zoom_amount: u32,
    pub shape_code: u32,
    pub glass_strength: u32,
    pub glass_radius: u64,
    pub frame_width: u32,
    pub frame_height: u32,
    pub texture_width: u32,
    pub texture_height: u32,
    pub border_width: u32,
    pub border_color: Color,
    pub feather: u32,
}

/// The uniforms a segment resolves to against a given output size: centers
/// scale by the matching dimension, radii by the smaller of the two, and a
/// malformed border color falls back to opaque white.
pub open spec fn resolved(seg: MagnifierSegment, out: OutputSize) -> MagnifierUniforms {
    let m = vstd::math::min(out.width as int, out.height as int);
    MagnifierUniforms {
        center_x: (seg.center_x * out.width) as u64,
        center_y: (seg.center_y * out.height) as u64,
        radius: (seg.radius * m) as u64,
        zoom_amount: seg.zoom_amount,
        shape_code: spec_shape_code(seg.shape),
        glass_strength: seg.glass_strength,
        glass_radius: (seg.glass_radius * m) as u64,
        frame_width: out.width,
        frame_height: out.height,
        texture_width: out.width,
        texture_height: out.height,
        border_width: seg.border_width,
        border_color: if valid_hex_color(seg.border_color@) {
            parsed_color(seg.border_color@)
        } else {
            Color { r: 255, g: 255, b: 255, a: 255 }
        },
        feather: seg.feather,
    }
}

/// Resolves one segment's parameters into pixel space.
pub fn resolve(seg: &MagnifierSegment, out: OutputSize) -> (u: MagnifierUniforms)
    ensures
        u == resolved(*seg, out),
{
    let m = min_dim(out.width, out.height);
    let border_color = match parse_color(seg.border_color.as_str()) {
        Some(c) => c,
        None => Color::white(),
    };
    MagnifierUniforms {
        center_x: to_pixels(seg.center_x, out.width),
        center_y: to_pixels(seg.center_y, out.height),
        radius: to_pixels(seg.radius, m),
        zoom_amount: seg.zoom_amount,
        shape_code: shape_code(seg.shape),
        glass_strength: seg.glass_strength,
        glass_radius: to_pixels(seg.glass_radius, m),
        frame_width: out.width,
        frame_height: out.height,
        texture_width: out.width,
        texture_height: out.height,
        border_width: seg.border_width,
        border_color,
        feather: seg.feather,
    }
}

/// The resolved uniforms of the segments active at `time_us`, in timeline
/// order.
pub open spec fn active_uniforms(segs: Seq<MagnifierSegment>, out: OutputSize, time_us: u64) -> Seq<
    MagnifierUniforms,
>
    decreases segs.len(),
{
    if segs.len() == 0 {
        Seq::empty()
    } else {
        active_uniforms(segs.drop_last(), out, time_us) + (if segs.last().active_at(time_us) {
            seq![resolved(segs.last(), out)]
        } else {
            Seq::empty()
        })
    }
}

/// Extending the prefix under consideration by one segment appends that
/// segment's resolved uniforms exactly when it is active.
proof fn lemma_active_uniforms_take_succ(
    segs: Seq<MagnifierSegment>,
    out: OutputSize,
    time_us: u64,
    i: int,
)
    requires
        0 <= i < segs.len(),
    ensures
        active_uniforms(segs.take(i + 1), out, time_us) =~= active_uniforms(
            segs.take(i),
            out,
            time_us,
        ) + (if segs[i].active_at(time_us) {
            seq![resolved(segs[i], out)]
        } else {
            Seq::<MagnifierUniforms>::empty()
        }),
{
    assert(segs.take(i + 1).drop_last() =~= segs.take(i));
    assert(segs.take(i + 1).last() == segs[i]);
}

/// No segment of the sequence is active at `time_us` exactly when the
/// active list is empty.
pub proof fn lemma_active_uniforms_empty(segs: Seq<MagnifierSegment>, out: OutputSize, time_us: u64)
    ensures
        active_uniforms(segs, out, time_us).len() == 0 <==> (forall|i: int|
            0 <= i < segs.len() ==> !(#[trigger] segs[i]).active_at(time_us)),
    decreases segs.len(),
{
    if segs.len() > 0 {
        lemma_active_uniforms_empty(segs.drop_last(), out, time_us);
        assert(forall|i: int| 0 <= i < segs.len() - 1 ==> segs.drop_last()[i] == segs[i]);
        assert(segs.last() == segs[segs.len() - 1]);
    }
}

/// A timeline holding one single, active segment yields exactly that
/// segment's resolved uniforms.
pub proof fn lemma_single_active_segment(segs: Seq<MagnifierSegment>, out: OutputSize, time_us: u64)
    requires
        segs.len() == 1,
        segs[0].active_at(time_us),
    ensures
        active_uniforms(segs, out, time_us) =~= seq![resolved(segs[0], out)],
{
    assert(segs.drop_last() =~= Seq::<MagnifierSegment>::empty());
    assert(active_uniforms(Seq::<MagnifierSegment>::empty(), out, time_us)
        =~= Seq::<MagnifierUniforms>::empty());
    assert(segs.last() == segs[0]);
}

/// One draw call: upload these uniforms, then draw the full-screen quad (6
/// vertices, one instance, no index buffer).
#[derive(Clone, Copy, Debug, PartialEq, Eq, Structural)]
pub struct DrawCall {
    pub uniforms: MagnifierUniforms,
}

/// What one layer's render pass must do: bind its pipeline once if anything
/// is drawn at all, then issue the draws in order.
pub struct RenderPlan {
    pub pipeline_bound: bool,
    pub draws: Vec<DrawCall>,
}

/// The magnifier layer's mutable per-frame state: the instances active for
/// the frame being prepared, and the last uniform value uploaded to the
/// GPU buffer.
pub struct MagnifierLayer {
    pub active_magnifiers: Vec<MagnifierUniforms>,
    pub cached_uniforms: Option<MagnifierUniforms>,
}

/// The exact effect of one `prepare` call: `post` holds the active
/// instances for the frame, and the upload flag and cache follow the
/// first active instance.
pub open spec fn prepare_post(
    pre: MagnifierLayer,
    post: MagnifierLayer,
    upload: bool,
    frame: FrameUniforms,
    time_us: u64,
) -> bool {
    let acts = active_uniforms(frame.timeline.magnifier_segments@, frame.output_size, time_us);
    &&& post.active_magnifiers@ == acts
    &&& if acts.len() > 0 {
        &&& upload == (pre.cached_uniforms != Some(acts[0]))
        &&& post.cached_uniforms == Some(acts[0])
    } else {
        &&& upload == false
        &&& post.cached_uniforms == pre.cached_uniforms
    }
}

impl MagnifierLayer {
    /// A fresh layer: no active instances, nothing cached.
    pub fn new() -> (l: MagnifierLayer)
        ensures
            l.active_magnifiers@.len() == 0,
            l.cached_uniforms is None,
    {
        MagnifierLayer { active_magnifiers: Vec::new(), cached_uniforms: None }
    }

    /// Recomputes the active instances for `time_us` and reports whether
    /// the first instance's uniforms must be uploaded, i.e. whether they
    /// differ from the cached value of the last upload.
    pub fn prepare(&mut self, frame: &FrameUniforms, time_us: u64) -> (upload: bool)
        ensures
            prepare_post(*old(self), *final(self), upload, *frame, time_us),
    {
        self.active_magnifiers.clear();
        let segs = &frame.timeline.magnifier_segments;
        let ghost all = segs@;
        let n = segs.len();
        let mut i: usize = 0;
        while i < n
            invariant
                i <= n,
                n == all.len(),
                segs@ == all,
                self.active_magnifiers@ =~= active_uniforms(
                    all.take(i as int),
                    frame.output_size,
                    time_us,
                ),
                self.cached_uniforms == old(self).cached_uniforms,
            decreases n - i,
        {
            let seg = &segs[i];
            if seg.is_active(time_us) {
                let u = resolve(seg, frame.output_size);
                self.active_magnifiers.push(u);
            }
            proof {
                lemma_active_uniforms_take_succ(all, frame.output_size, time_us, i as int);
            }
            i = i + 1;
        }
        proof {
            assert(all.take(n as int) =~= all);
        }
        if self.active_magnifiers.len() > 0 {
            let first = self.active_magnifiers[0];
            let upload = match &self.cached_uniforms {
                Some(c) => !(*c == first),
                None => true,
            };
            if upload {
                self.cached_uniforms = Some(first);
            }
            upload
        } else {
            false
        }
    }

    /// Builds the layer's render pass plan: nothing at all when no instance
    /// is active, otherwise one pipeline bind and one draw call per active
    /// instance, in timeline order.
    pub fn render(&self) -> (plan: RenderPlan)
        ensures
            plan.pipeline_bound == (self.active_magnifiers@.len() > 0),
            plan.draws@.len() == self.active_magnifiers@.len(),
            forall|i: int|
                0 <= i < plan.draws@.len() ==> (#[trigger] plan.draws@[i]).uniforms
                    == self.active_magnifiers@[i],
    {
        let n = self.active_magnifiers.len();
        let mut draws: Vec<DrawCall> = Vec::new();
        let mut i: usize = 0;
        while i < n
            invariant
                i <= n,
                n == self.active_magnifiers@.len(),
                draws@.len() == i,
                forall|j: int|
                    0 <= j < i ==> (#[trigger] draws@[j]).uniforms == self.active_magnifiers@[j],
            decreases n - i,
        {
            draws.push(DrawCall { uniforms: self.active_magnifiers[i] });
            i = i + 1;
        }
        RenderPlan { pipeline_bound: n > 0, draws }
    }
}

/// Preparing the same frame at the same time twice leaves the active list
/// unchanged and reports that no upload is needed the second time.
pub proof fn lemma_prepare_idempotent(
    l0: MagnifierLayer,
    l1: MagnifierLayer,
    upload1: bool,
    l2: MagnifierLayer,
    upload2: bool,
    frame: FrameUniforms,
    time_us: u64,
)
    requires
        prepare_post(l0, l1, upload1, frame, time_us),
        prepare_post(l1, l2, upload2, frame, time_us),
    ensures
        l2.active_magnifiers@ == l1.active_magnifiers@,
        l2.cached_uniforms == l1.cached_uniforms,
        upload2 == false,
{
}

} // verus!
