//! Geometry adapters: engine types to the backend's wire layout.

use azure_hl::AsAzureIntSize;
use azure_hl::AsAzurePoint;
use azure_hl::AsAzureRect;
use azure_hl::Color;
use azure_hl::Matrix2D;
use azure_hl::Point2D;
use azure_hl::Rect;
use azure_hl::Size2D;

#[test]
fn rect_converts_field_for_field() {
    let r = Rect {
        origin: Point2D { x: 1.5f32.to_bits(), y: (-2.0f32).to_bits() },
        size: Size2D { width: 30.0f32.to_bits(), height: 40.25f32.to_bits() },
    };
    let w = r.as_azure_rect();
    assert_eq!(w.x, 1.5f32.to_bits());
    assert_eq!(w.y, (-2.0f32).to_bits());
    assert_eq!(w.width, 30.0f32.to_bits());
    assert_eq!(w.height, 40.25f32.to_bits());
}

#[test]
fn int_size_converts_field_for_field() {
    let s = Size2D { width: 640, height: -480 };
    let w = s.as_azure_int_size();
    assert_eq!(w.width, 640);
    assert_eq!(w.height, -480);
}

#[test]
fn point_converts_field_for_field() {
    let p = Point2D { x: 0.0f32.to_bits(), y: 7.75f32.to_bits() };
    let w = p.as_azure_point();
    assert_eq!(w.x, 0.0f32.to_bits());
    assert_eq!(w.y, 7.75f32.to_bits());
}

#[test]
fn matrix_converts_field_for_field() {
    let m = Matrix2D {
        m11: 1.0f32.to_bits(),
        m12: 0.0f32.to_bits(),
        m21: 0.0f32.to_bits(),
        m22: 1.0f32.to_bits(),
        m31: 5.0f32.to_bits(),
        m32: 6.0f32.to_bits(),
    };
    let w = m.as_azure_matrix();
    assert_eq!(w.m11, 1.0f32.to_bits());
    assert_eq!(w.m12, 0.0f32.to_bits());
    assert_eq!(w.m21, 0.0f32.to_bits());
    assert_eq!(w.m22, 1.0f32.to_bits());
    assert_eq!(w.m31, 5.0f32.to_bits());
    assert_eq!(w.m32, 6.0f32.to_bits());
}

#[test]
fn color_converts_field_for_field() {
    let c = Color::new(
        0.25f32.to_bits(),
        0.5f32.to_bits(),
        0.75f32.to_bits(),
        1.0f32.to_bits(),
    );
    let w = c.as_azure_color();
    assert_eq!(w.r, 0.25f32.to_bits());
    assert_eq!(w.g, 0.5f32.to_bits());
    assert_eq!(w.b, 0.75f32.to_bits());
    assert_eq!(w.a, 1.0f32.to_bits());
}
