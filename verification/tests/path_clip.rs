//! Path building and the clip stack.

use azure_hl::Backend;
use azure_hl::BackendType;
use azure_hl::Color;
use azure_hl::ColorPattern;
use azure_hl::DrawOptions;
use azure_hl::DrawTarget;
use azure_hl::PathOp;
use azure_hl::Point2D;
use azure_hl::Rect;
use azure_hl::Size2D;
use azure_hl::SurfaceFormat;

fn point(x: f32, y: f32) -> Point2D<u32> {
    Point2D { x: x.to_bits(), y: y.to_bits() }
}

#[test]
fn builder_accumulates_commands_in_order() {
    let mut backend = Backend::new();
    let dt = DrawTarget::new(
        BackendType::SkiaBackend,
        Size2D { width: 100, height: 100 },
        SurfaceFormat::B8G8R8A8,
        &mut backend,
    );
    let builder = dt.create_path_builder(&mut backend);
    builder.move_to(point(10.0, 10.0), &mut backend);
    builder.line_to(point(50.0, 90.0), &mut backend);
    builder.line_to(point(90.0, 10.0), &mut backend);
    assert_eq!(backend.cmd_count(builder.azure_path_builder), 3);
    match backend.cmd_at(builder.azure_path_builder, 0) {
        PathOp::MoveTo(p) => {
            assert_eq!(p.x, 10.0f32.to_bits());
            assert_eq!(p.y, 10.0f32.to_bits());
        },
        other => panic!("wrong first command: {:?}", other),
    }
    match backend.cmd_at(builder.azure_path_builder, 2) {
        PathOp::LineTo(p) => assert_eq!(p.x, 90.0f32.to_bits()),
        other => panic!("wrong third command: {:?}", other),
    }
    builder.release(&mut backend);
    dt.release(&mut backend);
}

#[test]
fn finish_freezes_exactly_the_commands_so_far() {
    // A second finish reflects the backend's then-current state, including
    // commands issued after the first one; the first path is unchanged.
    let mut backend = Backend::new();
    let dt = DrawTarget::new(
        BackendType::SkiaBackend,
        Size2D { width: 10, height: 10 },
        SurfaceFormat::B8G8R8A8,
        &mut backend,
    );
    let builder = dt.create_path_builder(&mut backend);
    builder.move_to(point(0.0, 0.0), &mut backend);
    let first = builder.finish(&mut backend);
    assert_eq!(backend.cmd_count(first.azure_path), 1);
    builder.line_to(point(5.0, 5.0), &mut backend);
    let second = builder.finish(&mut backend);
    assert_eq!(backend.cmd_count(second.azure_path), 2);
    assert_eq!(backend.cmd_count(first.azure_path), 1);
    first.release(&mut backend);
    second.release(&mut backend);
    builder.release(&mut backend);
    dt.release(&mut backend);
}

#[test]
fn triangle_clip_scenario_returns_depth_to_zero() {
    // Build a triangle, push it as a clip, fill a larger rectangle, pop
    // the clip: the clip stack ends where it began.
    let mut backend = Backend::new();
    let dt = DrawTarget::new(
        BackendType::SkiaBackend,
        Size2D { width: 100, height: 100 },
        SurfaceFormat::B8G8R8A8,
        &mut backend,
    );
    let builder = dt.create_path_builder(&mut backend);
    builder.move_to(point(10.0, 10.0), &mut backend);
    builder.line_to(point(50.0, 90.0), &mut backend);
    builder.line_to(point(90.0, 10.0), &mut backend);
    builder.line_to(point(10.0, 10.0), &mut backend);
    let triangle = builder.finish(&mut backend);
    assert_eq!(backend.cmd_count(triangle.azure_path), 4);

    assert_eq!(dt.clip_depth(&backend), 0);
    dt.push_clip(&triangle, &mut backend);
    assert_eq!(dt.clip_depth(&backend), 1);

    let pattern = ColorPattern::new(
        Color::new(0, 0, 0, 1.0f32.to_bits()),
        &mut backend,
    );
    let big = Rect {
        origin: Point2D { x: 0.0f32.to_bits(), y: 0.0f32.to_bits() },
        size: Size2D { width: 200.0f32.to_bits(), height: 200.0f32.to_bits() },
    };
    let options = DrawOptions::new(1.0f32.to_bits(), 0);
    dt.fill_rect(&big, &pattern, Some(&options), &mut backend);

    dt.pop_clip(&mut backend);
    assert_eq!(dt.clip_depth(&backend), 0);

    pattern.release(&mut backend);
    triangle.release(&mut backend);
    builder.release(&mut backend);
    dt.release(&mut backend);
}

#[test]
fn fill_with_path_logs_the_path_handle() {
    let mut backend = Backend::new();
    let dt = DrawTarget::new(
        BackendType::SkiaBackend,
        Size2D { width: 10, height: 10 },
        SurfaceFormat::B8G8R8A8,
        &mut backend,
    );
    let builder = dt.create_path_builder(&mut backend);
    builder.move_to(point(1.0, 1.0), &mut backend);
    builder.line_to(point(2.0, 2.0), &mut backend);
    let path = builder.finish(&mut backend);
    let pattern = ColorPattern::new(Color::new(0, 0, 0, 1.0f32.to_bits()), &mut backend);
    let options = DrawOptions::new(1.0f32.to_bits(), 0);
    dt.fill(&path, &pattern, &options, &mut backend);
    match backend.op_at(backend.ops_len() - 1) {
        azure_hl::BackendOp::Fill { path: p, pattern: c, .. } => {
            assert_eq!(p, path.azure_path);
            assert_eq!(c, pattern.azure_color_pattern);
        },
        other => panic!("wrong op logged: {:?}", other),
    }
    pattern.release(&mut backend);
    path.release(&mut backend);
    builder.release(&mut backend);
    dt.release(&mut backend);
}
