use cap_engine::color::Color;
use cap_engine::compositor::{Compositor, MAGNIFIER_SLOT, SOURCE_SLOT};
use cap_engine::frame::{FrameError, FrameUniforms, OutputSize};
use cap_engine::magnifier::{resolve, MagnifierLayer};
use cap_engine::timeline::{shape_code, MagnifierSegment, MagnifierShape, Timeline};
use cap_engine::NORM_SCALE;

const SECOND: u64 = 1_000_000;

fn segment(start_s: u64, end_s: u64, enabled: bool) -> MagnifierSegment {
    MagnifierSegment {
        start_us: start_s * SECOND,
        end_us: end_s * SECOND,
        enabled,
        center_x: NORM_SCALE / 2,
        center_y: NORM_SCALE / 2,
        radius: NORM_SCALE / 5,
        glass_radius: NORM_SCALE / 4,
        zoom_amount: 2 * NORM_SCALE,
        glass_strength: NORM_SCALE / 2,
        border_width: 3 * NORM_SCALE,
        feather: NORM_SCALE / 10,
        shape: MagnifierShape::Circle,
        border_color: String::from("#ff8040"),
    }
}

fn frame(width: u32, height: u32, segments: Vec<MagnifierSegment>) -> FrameUniforms {
    FrameUniforms::new(
        OutputSize { width, height },
        Timeline { magnifier_segments: segments },
    )
    .expect("valid output size")
}

#[test]
fn segment_window_is_inclusive_at_both_ends() {
    let seg = segment(2, 5, true);
    assert!(seg.is_active(2_000_000));
    assert!(seg.is_active(5_000_000));
    assert!(seg.is_active(3_500_000));
    assert!(!seg.is_active(1_999_000));
    assert!(!seg.is_active(5_001_000));
}

#[test]
fn disabled_segment_is_never_active() {
    let seg = segment(2, 5, false);
    for t in [0, 1_999_000, 2_000_000, 3_500_000, 5_000_000, 5_001_000, u64::MAX] {
        assert!(!seg.is_active(t), "disabled segment active at {t}");
    }
}

#[test]
fn shapes_encode_explicitly() {
    assert_eq!(shape_code(MagnifierShape::Circle), 0);
    assert_eq!(shape_code(MagnifierShape::Ellipse), 1);
    assert_eq!(shape_code(MagnifierShape::RoundedRectangle), 2);
}

#[test]
fn radius_scales_by_the_smaller_dimension() {
    // normalized radius 0.1 against 1920x1080 resolves to 0.1 * 1080 = 108 px.
    let mut seg = segment(0, 10, true);
    seg.radius = NORM_SCALE / 10;
    let out = OutputSize { width: 1920, height: 1080 };
    let u = resolve(&seg, out);
    assert_eq!(u.radius, 108_000_000); // 108 pixels, in micro-pixels
    // Against a portrait output the width is the reference instead.
    let portrait = OutputSize { width: 1080, height: 1920 };
    assert_eq!(resolve(&seg, portrait).radius, 108_000_000);
}

#[test]
fn resolve_fills_every_uniform_field() {
    let seg = segment(0, 10, true);
    let out = OutputSize { width: 1280, height: 720 };
    let u = resolve(&seg, out);
    assert_eq!(u.center_x, 640_000_000);
    assert_eq!(u.center_y, 360_000_000);
    assert_eq!(u.radius, 144_000_000); // 0.2 * 720
    assert_eq!(u.glass_radius, 180_000_000); // 0.25 * 720
    assert_eq!(u.zoom_amount, seg.zoom_amount);
    assert_eq!(u.shape_code, 0);
    assert_eq!(u.glass_strength, seg.glass_strength);
    assert_eq!((u.frame_width, u.frame_height), (1280, 720));
    assert_eq!((u.texture_width, u.texture_height), (1280, 720));
    assert_eq!(u.border_width, seg.border_width);
    assert_eq!(u.border_color, Color { r: 0xff, g: 0x80, b: 0x40, a: 255 });
    assert_eq!(u.feather, seg.feather);
}

#[test]
fn malformed_border_color_falls_back_to_white() {
    let mut seg = segment(0, 10, true);
    seg.border_color = String::from("#not-a-color");
    let u = resolve(&seg, OutputSize { width: 100, height: 100 });
    assert_eq!(u.border_color, Color { r: 255, g: 255, b: 255, a: 255 });
}

#[test]
fn prepare_keeps_timeline_order_and_skips_inactive() {
    let mut early = segment(0, 3, true);
    early.radius = NORM_SCALE / 10;
    let mut late = segment(2, 8, true);
    late.radius = NORM_SCALE / 4;
    let disabled = segment(0, 10, false);
    let gone = segment(9, 10, true);
    let f = frame(1000, 1000, vec![early, disabled, late, gone]);

    let mut layer = MagnifierLayer::new();
    layer.prepare(&f, 2_500_000);
    assert_eq!(layer.active_magnifiers.len(), 2);
    // Timeline order, not time-sorted: `early` first, then `late`.
    assert_eq!(layer.active_magnifiers[0].radius, 100_000_000);
    assert_eq!(layer.active_magnifiers[1].radius, 250_000_000);
}

#[test]
fn prepare_is_idempotent_and_skips_redundant_uploads() {
    let f = frame(1280, 720, vec![segment(0, 10, true)]);
    let mut layer = MagnifierLayer::new();

    let first = layer.prepare(&f, 5 * SECOND);
    assert!(first, "first prepare must upload");
    let uniforms_first = layer.active_magnifiers.clone();

    let second = layer.prepare(&f, 5 * SECOND);
    assert!(!second, "second prepare must find the cache up to date");
    assert_eq!(layer.active_magnifiers, uniforms_first);
}

#[test]
fn prepare_uploads_again_when_parameters_change() {
    let mut moving = segment(0, 10, true);
    moving.center_x = NORM_SCALE / 4;
    let f1 = frame(1280, 720, vec![segment(0, 10, true)]);
    let f2 = frame(1280, 720, vec![moving]);
    let mut layer = MagnifierLayer::new();
    assert!(layer.prepare(&f1, 0));
    assert!(layer.prepare(&f2, 0), "changed segment must re-upload");
    assert!(!layer.prepare(&f2, 0));
}

#[test]
fn prepare_with_nothing_active_clears_and_keeps_cache() {
    let f = frame(1280, 720, vec![segment(0, 10, true)]);
    let empty = frame(1280, 720, vec![]);
    let mut layer = MagnifierLayer::new();
    assert!(layer.prepare(&f, 0));
    assert!(!layer.prepare(&empty, 0));
    assert_eq!(layer.active_magnifiers.len(), 0);
    // The stale cache still matches when the same segment returns.
    assert!(!layer.prepare(&f, 0));
}

#[test]
fn render_emits_one_draw_per_active_instance() {
    let f = frame(1280, 720, vec![segment(0, 10, true), segment(0, 10, true)]);
    let mut layer = MagnifierLayer::new();
    layer.prepare(&f, SECOND);
    let plan = layer.render();
    assert!(plan.pipeline_bound);
    assert_eq!(plan.draws.len(), 2);
    for (i, d) in plan.draws.iter().enumerate() {
        assert_eq!(d.uniforms, layer.active_magnifiers[i]);
    }
}

#[test]
fn render_with_no_active_instances_is_a_no_op() {
    let layer = MagnifierLayer::new();
    let plan = layer.render();
    assert!(!plan.pipeline_bound, "no pipeline may be bound");
    assert_eq!(plan.draws.len(), 0, "no draw calls may be issued");
}

#[test]
fn one_active_magnifier_yields_exactly_one_draw() {
    // End to end: one enabled segment over [0s, 10s], centered at (0.5, 0.5),
    // radius 0.2, rendered at 5s against 1280x720.
    let f = frame(1280, 720, vec![segment(0, 10, true)]);
    let mut compositor = Compositor::new();
    let plan = compositor.render_frame(&f, 5 * SECOND);
    assert_eq!(plan.draws.len(), 1);
    let u = plan.draws[0].uniforms;
    assert_eq!((u.center_x, u.center_y), (640_000_000, 360_000_000)); // (640, 360) px
    assert_eq!(u.radius, 144_000_000); // 144 px
    assert_eq!(plan.input_texture, SOURCE_SLOT);
    assert_eq!(plan.final_texture, MAGNIFIER_SLOT);
    assert!(plan.upload_first, "first frame must upload the uniforms");
    let again = compositor.render_frame(&f, 5 * SECOND);
    assert!(!again.upload_first, "an unchanged frame may skip the prepare upload");
    assert_eq!(again.draws.len(), 1);
}

#[test]
fn empty_timeline_passes_the_source_through() {
    let f = frame(1280, 720, vec![]);
    let mut compositor = Compositor::new();
    let plan = compositor.render_frame(&f, 5 * SECOND);
    assert_eq!(plan.draws.len(), 0, "zero draw calls");
    assert_eq!(plan.final_texture, plan.input_texture, "source passes through unchanged");
}

#[test]
fn zero_sized_outputs_are_rejected_up_front() {
    let t = Timeline { magnifier_segments: vec![] };
    let r = FrameUniforms::new(OutputSize { width: 0, height: 720 }, t);
    assert!(matches!(r, Err(FrameError::EmptyOutput)));
    let t = Timeline { magnifier_segments: vec![] };
    let r = FrameUniforms::new(OutputSize { width: 1280, height: 0 }, t);
    assert!(matches!(r, Err(FrameError::EmptyOutput)));
    let t = Timeline { magnifier_segments: vec![] };
    assert!(FrameUniforms::new(OutputSize { width: 1, height: 1 }, t).is_ok());
}
