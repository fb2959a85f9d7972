//! Surfaces: snapshots, data surfaces, and pixel-byte access.

use azure_hl::Backend;
use azure_hl::BackendType;
use azure_hl::Color;
use azure_hl::ColorPattern;
use azure_hl::DrawOptions;
use azure_hl::DrawSurfaceOptions;
use azure_hl::DrawTarget;
use azure_hl::Filter;
use azure_hl::Point2D;
use azure_hl::Rect;
use azure_hl::Size2D;
use azure_hl::SourceSurfaceMethods;
use azure_hl::SurfaceFormat;

fn whole_rect(w: f32, h: f32) -> Rect<u32> {
    Rect {
        origin: Point2D { x: 0.0f32.to_bits(), y: 0.0f32.to_bits() },
        size: Size2D { width: w.to_bits(), height: h.to_bits() },
    }
}

#[test]
fn snapshot_data_surface_exposes_stride_times_height_bytes() {
    // Fill a 100 by 100 surface, snapshot it, convert to a data surface:
    // one row is 400 bytes in B8G8R8A8, and exactly stride * 100 bytes are
    // readable.
    let mut backend = Backend::new();
    let dt = DrawTarget::new(
        BackendType::SkiaBackend,
        Size2D { width: 100, height: 100 },
        SurfaceFormat::B8G8R8A8,
        &mut backend,
    );
    let black = ColorPattern::new(Color::new(0, 0, 0, 1.0f32.to_bits()), &mut backend);
    dt.fill_rect(&whole_rect(100.0, 100.0), &black, None, &mut backend);
    let snapshot = dt.snapshot(&mut backend);
    let data_surface = snapshot.get_data_surface(&mut backend);
    let stride = data_surface.stride(&backend);
    assert_eq!(stride, 400);
    let size = data_surface.get_size(&backend);
    assert_eq!((size.width, size.height), (100, 100));
    assert_eq!(data_surface.format(&backend), SurfaceFormat::B8G8R8A8);
    let bytes = data_surface.with_data(&backend);
    assert_eq!(bytes.len(), (stride as usize) * 100);
    data_surface.release(&mut backend);
    snapshot.release(&mut backend);
    black.release(&mut backend);
    dt.release(&mut backend);
}

#[test]
fn snapshot_strides_follow_the_pixel_format() {
    let mut backend = Backend::new();
    let cases = [
        (SurfaceFormat::B8G8R8A8, 40),
        (SurfaceFormat::B8G8R8X8, 40),
        (SurfaceFormat::R5G6B5, 20),
        (SurfaceFormat::A8, 10),
    ];
    for (format, expected_stride) in cases {
        let dt = DrawTarget::new(
            BackendType::SkiaBackend,
            Size2D { width: 10, height: 10 },
            format,
            &mut backend,
        );
        let snapshot = dt.snapshot(&mut backend);
        let data_surface = snapshot.get_data_surface(&mut backend);
        assert_eq!(data_surface.stride(&backend), expected_stride);
        assert_eq!(data_surface.format(&backend), format);
        data_surface.release(&mut backend);
        snapshot.release(&mut backend);
        dt.release(&mut backend);
    }
}

#[test]
fn source_surface_from_data_round_trips_the_bytes() {
    let mut backend = Backend::new();
    let dt = DrawTarget::new(
        BackendType::SkiaBackend,
        Size2D { width: 8, height: 8 },
        SurfaceFormat::B8G8R8A8,
        &mut backend,
    );
    let pixels: Vec<u8> = (0..20u8).collect();
    let surface = dt.create_source_surface_from_data(
        &pixels,
        Size2D { width: 4, height: 5 },
        4,
        SurfaceFormat::A8,
        &mut backend,
    );
    let size = surface.size(&backend);
    assert_eq!((size.width, size.height), (4, 5));
    assert_eq!(surface.format(&backend), SurfaceFormat::A8);
    assert_eq!(surface.get_azure_source_surface(), surface.azure_source_surface);
    let data_surface = surface.get_data_surface(&mut backend);
    assert_eq!(data_surface.with_data(&backend), &pixels[..]);
    assert_eq!(data_surface.stride(&backend), 4);
    data_surface.release(&mut backend);
    surface.release(&mut backend);
    dt.release(&mut backend);
}

#[test]
fn data_surface_keeps_bytes_after_source_release() {
    // The conversion is non-destructive and the data surface owns its own
    // reference: releasing the source first leaves the bytes readable.
    let mut backend = Backend::new();
    let dt = DrawTarget::new(
        BackendType::SkiaBackend,
        Size2D { width: 4, height: 4 },
        SurfaceFormat::A8,
        &mut backend,
    );
    let pixels = vec![9u8; 16];
    let surface = dt.create_source_surface_from_data(
        &pixels,
        Size2D { width: 4, height: 4 },
        4,
        SurfaceFormat::A8,
        &mut backend,
    );
    let data_surface = surface.get_data_surface(&mut backend);
    surface.release(&mut backend);
    assert_eq!(data_surface.with_data(&backend), &pixels[..]);
    data_surface.release(&mut backend);
    dt.release(&mut backend);
}

#[test]
fn draw_surface_consumes_and_releases_the_surface() {
    let mut backend = Backend::new();
    let dt = DrawTarget::new(
        BackendType::SkiaBackend,
        Size2D { width: 8, height: 8 },
        SurfaceFormat::B8G8R8A8,
        &mut backend,
    );
    let pixels = vec![1u8; 16];
    let surface = dt.create_source_surface_from_data(
        &pixels,
        Size2D { width: 4, height: 4 },
        4,
        SurfaceFormat::A8,
        &mut backend,
    );
    let h = surface.azure_source_surface;
    dt.draw_surface(
        surface,
        whole_rect(8.0, 8.0),
        whole_rect(4.0, 4.0),
        DrawSurfaceOptions::new(Filter::Linear, false),
        DrawOptions::new(1.0f32.to_bits(), 0),
        &mut backend,
    );
    assert_eq!(backend.destroy_count(h), 1);
    assert!(!backend.is_live(h));
    dt.release(&mut backend);
}
