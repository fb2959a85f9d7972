//! Draw-target lifecycle: construction, cloning, release symmetry, and the
//! call log.

use azure_hl::Backend;
use azure_hl::BackendOp;
use azure_hl::BackendType;
use azure_hl::Color;
use azure_hl::ColorPattern;
use azure_hl::DrawOptions;
use azure_hl::DrawTarget;
use azure_hl::HandleKind;
use azure_hl::Point2D;
use azure_hl::Rect;
use azure_hl::Size2D;
use azure_hl::StrokeOptions;
use azure_hl::SurfaceFormat;
use azure_hl::clone_mutable_draw_target;

fn float_rect(x: f32, y: f32, w: f32, h: f32) -> Rect<u32> {
    Rect {
        origin: Point2D { x: x.to_bits(), y: y.to_bits() },
        size: Size2D { width: w.to_bits(), height: h.to_bits() },
    }
}

#[test]
fn new_with_data_reports_requested_size() {
    let mut backend = Backend::new();
    let data = vec![0u8; 40_000];
    let size = Size2D { width: 100, height: 100 };
    let dt = DrawTarget::new_with_data(
        BackendType::SkiaBackend,
        data,
        0,
        size,
        400,
        SurfaceFormat::B8G8R8A8,
        &mut backend,
    );
    let s = dt.get_size(&backend);
    assert_eq!(s.width, 100);
    assert_eq!(s.height, 100);
    dt.release(&mut backend);
}

#[test]
fn new_with_data_honours_offset() {
    let mut backend = Backend::new();
    // 16 rows of 8 bytes after a 16-byte offset.
    let data = vec![7u8; 16 * 8 + 16];
    let size = Size2D { width: 8, height: 16 };
    let dt = DrawTarget::new_with_data(
        BackendType::CairoBackend,
        data,
        16,
        size,
        8,
        SurfaceFormat::A8,
        &mut backend,
    );
    let s = dt.get_size(&backend);
    assert_eq!((s.width, s.height), (8, 16));
    dt.release(&mut backend);
}

#[test]
fn clone_release_symmetry_destroys_once() {
    // N clones and N + 1 releases: the backend frees the target exactly
    // once, on the last release and not before.
    let mut backend = Backend::new();
    let dt = DrawTarget::new(
        BackendType::SkiaBackend,
        Size2D { width: 4, height: 4 },
        SurfaceFormat::B8G8R8A8,
        &mut backend,
    );
    let h = dt.azure_draw_target;
    let c1 = dt.clone(&mut backend);
    let c2 = dt.clone(&mut backend);
    let c3 = c2.clone(&mut backend);
    assert_eq!(backend.refcount(h), 4);
    c1.release(&mut backend);
    c3.release(&mut backend);
    dt.release(&mut backend);
    assert_eq!(backend.destroy_count(h), 0);
    assert!(backend.is_live(h));
    c2.release(&mut backend);
    assert_eq!(backend.destroy_count(h), 1);
    assert_eq!(backend.refcount(h), 0);
    assert!(!backend.is_live(h));
}

#[test]
fn fbo_target_releases_context_exactly_once() {
    let mut backend = Backend::new();
    let dt = DrawTarget::new_with_fbo(
        BackendType::SkiaBackend,
        0xbeef,
        Size2D { width: 8, height: 8 },
        SurfaceFormat::B8G8R8A8,
        &mut backend,
    );
    let ctx = dt.skia_context.unwrap();
    let h = dt.azure_draw_target;
    let c1 = dt.clone(&mut backend);
    assert_eq!(backend.refcount(ctx), 2);
    dt.release(&mut backend);
    assert!(backend.is_live(ctx));
    c1.release(&mut backend);
    assert_eq!(backend.destroy_count(h), 1);
    assert_eq!(backend.destroy_count(ctx), 1);
    assert!(!backend.is_live(ctx));
}

#[test]
fn clone_mutable_draw_target_clones_in_place() {
    let mut backend = Backend::new();
    let mut dt = DrawTarget::new(
        BackendType::CairoBackend,
        Size2D { width: 2, height: 2 },
        SurfaceFormat::A8,
        &mut backend,
    );
    let copy = clone_mutable_draw_target(&mut dt, &mut backend);
    assert_eq!(copy.azure_draw_target, dt.azure_draw_target);
    assert_eq!(backend.refcount(dt.azure_draw_target), 2);
    assert_eq!(
        backend.op_at(backend.ops_len() - 1),
        BackendOp::Retain { kind: HandleKind::DrawTarget, handle: dt.azure_draw_target }
    );
    let h = copy.azure_draw_target;
    copy.release(&mut backend);
    dt.release(&mut backend);
    assert_eq!(backend.destroy_count(h), 1);
}

#[test]
fn fill_rect_forwards_wire_values_to_the_log() {
    let mut backend = Backend::new();
    let dt = DrawTarget::new(
        BackendType::SkiaBackend,
        Size2D { width: 10, height: 10 },
        SurfaceFormat::B8G8R8A8,
        &mut backend,
    );
    let pattern = ColorPattern::new(
        Color::new(0, 0, 0, 1.0f32.to_bits()),
        &mut backend,
    );
    let rect = float_rect(1.0, 2.0, 3.0, 4.0);
    let mut options = DrawOptions::new(1.0f32.to_bits(), 0);
    options.set_composition_op(azure_hl::CompositionOp::AddOp);
    dt.fill_rect(&rect, &pattern, Some(&options), &mut backend);
    let op = backend.op_at(backend.ops_len() - 1);
    match op {
        BackendOp::FillRect { target, rect: wire, pattern: p, options: o } => {
            assert_eq!(target, dt.azure_draw_target);
            assert_eq!(wire.x, 1.0f32.to_bits());
            assert_eq!(wire.y, 2.0f32.to_bits());
            assert_eq!(wire.width, 3.0f32.to_bits());
            assert_eq!(wire.height, 4.0f32.to_bits());
            assert_eq!(p, pattern.azure_color_pattern);
            let o = o.unwrap();
            assert_eq!(o.alpha, 1.0f32.to_bits());
            assert_eq!(o.fields, 1);
        },
        other => panic!("wrong op logged: {:?}", other),
    }
    dt.fill_rect(&rect, &pattern, None, &mut backend);
    match backend.op_at(backend.ops_len() - 1) {
        BackendOp::FillRect { options, .. } => assert!(options.is_none()),
        other => panic!("wrong op logged: {:?}", other),
    }
    pattern.release(&mut backend);
    dt.release(&mut backend);
}

#[test]
fn stroke_and_clear_and_flush_log_their_calls() {
    let mut backend = Backend::new();
    let dt = DrawTarget::new(
        BackendType::SkiaBackend,
        Size2D { width: 10, height: 10 },
        SurfaceFormat::B8G8R8A8,
        &mut backend,
    );
    let pattern = ColorPattern::new(
        Color::new(1.0f32.to_bits(), 0, 0, 1.0f32.to_bits()),
        &mut backend,
    );
    let stroke = StrokeOptions::new(1.0f32.to_bits(), 10.0f32.to_bits());
    let draw = DrawOptions::new(1.0f32.to_bits(), 0);
    let start = Point2D { x: 0.0f32.to_bits(), y: 0.0f32.to_bits() };
    let end = Point2D { x: 5.0f32.to_bits(), y: 5.0f32.to_bits() };
    dt.stroke_line(start, end, &pattern, &stroke, &draw, &mut backend);
    match backend.op_at(backend.ops_len() - 1) {
        BackendOp::StrokeLine { start: s, end: e, stroke: w, .. } => {
            assert_eq!(s.x, 0.0f32.to_bits());
            assert_eq!(e.y, 5.0f32.to_bits());
            assert_eq!(w.fields, stroke.fields);
            assert_eq!(w.dash_length, 0);
        },
        other => panic!("wrong op logged: {:?}", other),
    }
    let rect = float_rect(0.0, 0.0, 4.0, 4.0);
    dt.stroke_rect(&rect, &pattern, &stroke, &draw, &mut backend);
    match backend.op_at(backend.ops_len() - 1) {
        BackendOp::StrokeRect { .. } => {},
        other => panic!("wrong op logged: {:?}", other),
    }
    dt.clear_rect(&rect, &mut backend);
    match backend.op_at(backend.ops_len() - 1) {
        BackendOp::ClearRect { rect: w, .. } => assert_eq!(w.width, 4.0f32.to_bits()),
        other => panic!("wrong op logged: {:?}", other),
    }
    dt.flush(&mut backend);
    match backend.op_at(backend.ops_len() - 1) {
        BackendOp::Flush { target } => assert_eq!(target, dt.azure_draw_target),
        other => panic!("wrong op logged: {:?}", other),
    }
    pattern.release(&mut backend);
    dt.release(&mut backend);
}

#[test]
fn release_logs_release_then_destroy() {
    let mut backend = Backend::new();
    let dt = DrawTarget::new(
        BackendType::SkiaBackend,
        Size2D { width: 1, height: 1 },
        SurfaceFormat::A8,
        &mut backend,
    );
    let h = dt.azure_draw_target;
    dt.release(&mut backend);
    let n = backend.ops_len();
    assert_eq!(
        backend.op_at(n - 2),
        BackendOp::Release { kind: HandleKind::DrawTarget, handle: h }
    );
    assert_eq!(
        backend.op_at(n - 1),
        BackendOp::Destroy { kind: HandleKind::DrawTarget, handle: h }
    );
}

#[test]
fn steal_gl_resources_hands_over_the_surface() {
    let mut backend = Backend::new();
    let dt = DrawTarget::new_with_fbo(
        BackendType::SkiaBackend,
        7,
        Size2D { width: 8, height: 8 },
        SurfaceFormat::B8G8R8A8,
        &mut backend,
    );
    let h = dt.azure_draw_target;
    let ctx = dt.skia_context.unwrap();
    let stolen = dt.steal_gl_resources(&mut backend).unwrap();
    // The target and its context are released as on destruction, but the
    // extracted surface now belongs to the caller and stays live.
    assert_eq!(backend.destroy_count(h), 1);
    assert_eq!(backend.destroy_count(ctx), 1);
    assert!(backend.is_live(stolen.surface));

    let plain = DrawTarget::new(
        BackendType::SkiaBackend,
        Size2D { width: 8, height: 8 },
        SurfaceFormat::B8G8R8A8,
        &mut backend,
    );
    assert!(plain.steal_gl_resources(&mut backend).is_none());
}

#[test]
fn fill_glyphs_logs_the_glyph_count() {
    let mut backend = Backend::new();
    let dt = DrawTarget::new(
        BackendType::SkiaBackend,
        Size2D { width: 10, height: 10 },
        SurfaceFormat::B8G8R8A8,
        &mut backend,
    );
    let glyphs = azure_hl::AzGlyphBuffer {
        glyphs: vec![
            azure_hl::Glyph {
                index: 42,
                position: azure_hl::AzPoint { x: 1.0f32.to_bits(), y: 2.0f32.to_bits() },
            },
            azure_hl::Glyph {
                index: 43,
                position: azure_hl::AzPoint { x: 9.0f32.to_bits(), y: 2.0f32.to_bits() },
            },
        ],
    };
    let options = DrawOptions::new(1.0f32.to_bits(), 0).as_azure_draw_options();
    dt.fill_glyphs(700, &glyphs, 900, options, 1000, &mut backend);
    match backend.op_at(backend.ops_len() - 1) {
        BackendOp::FillGlyphs { font, glyph_count, pattern, rendering_options, .. } => {
            assert_eq!(font, 700);
            assert_eq!(glyph_count, 2);
            assert_eq!(pattern, 900);
            assert_eq!(rendering_options, 1000);
        },
        other => panic!("wrong op logged: {:?}", other),
    }
    dt.release(&mut backend);
}

#[test]
fn make_current_and_set_transform_log_their_calls() {
    let mut backend = Backend::new();
    let dt = DrawTarget::new_with_fbo(
        BackendType::SkiaBackend,
        1,
        Size2D { width: 4, height: 4 },
        SurfaceFormat::B8G8R8A8,
        &mut backend,
    );
    let ctx = dt.skia_context.unwrap();
    dt.make_current(&mut backend);
    assert_eq!(
        backend.op_at(backend.ops_len() - 1),
        BackendOp::MakeCurrent { context: ctx }
    );
    let m = azure_hl::Matrix2D {
        m11: 1.0f32.to_bits(),
        m12: 0,
        m21: 0,
        m22: 1.0f32.to_bits(),
        m31: 0,
        m32: 0,
    };
    dt.set_transform(&m, &mut backend);
    match backend.op_at(backend.ops_len() - 1) {
        BackendOp::SetTransform { matrix, .. } => assert_eq!(matrix.m11, 1.0f32.to_bits()),
        other => panic!("wrong op logged: {:?}", other),
    }
    dt.release(&mut backend);
}
