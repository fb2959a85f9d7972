//! Bit-field option encoders: exact layouts and field isolation.

use azure_hl::AzDrawSurfaceOptions;
use azure_hl::BackendType;
use azure_hl::CompositionOp;
use azure_hl::DrawOptions;
use azure_hl::DrawSurfaceOptions;
use azure_hl::Filter;
use azure_hl::StrokeOptions;
use azure_hl::SurfaceFormat;
use azure_hl::AZ_CAP_BUTT;
use azure_hl::AZ_JOIN_MITER_OR_BEVEL;

#[test]
fn stroke_options_new_packs_default_cap_and_join() {
    let o = StrokeOptions::new(2.0f32.to_bits(), 10.0f32.to_bits());
    assert_eq!(o.line_width, 2.0f32.to_bits());
    assert_eq!(o.miter_limit, 10.0f32.to_bits());
    assert_eq!(o.fields, (AZ_CAP_BUTT << 4) | AZ_JOIN_MITER_OR_BEVEL);
}

#[test]
fn stroke_setters_touch_only_their_nibble() {
    let mut o = StrokeOptions::new(1.0f32.to_bits(), 4.0f32.to_bits());
    o.set_join_style(0x3);
    assert_eq!(o.fields & 0x0f, 0x3);
    let cap_before = o.fields & 0xf0;
    o.set_join_style(0x2);
    assert_eq!(o.fields & 0x0f, 0x2);
    assert_eq!(o.fields & 0xf0, cap_before);
    o.set_cap_style(0x1);
    assert_eq!(o.fields, (0x1 << 4) | 0x2);
    o.set_cap_style(0x2);
    assert_eq!(o.fields, (0x2 << 4) | 0x2);
}

#[test]
fn stroke_wire_layout_keeps_fields_and_zeroes_dashes() {
    let mut o = StrokeOptions::new(1.5f32.to_bits(), 4.0f32.to_bits());
    o.set_cap_style(2);
    let w = o.as_azure_stroke_options();
    assert_eq!(w.line_width, 1.5f32.to_bits());
    assert_eq!(w.miter_limit, 4.0f32.to_bits());
    assert_eq!(w.dash_length, 0);
    assert_eq!(w.dash_offset, 0);
    assert_eq!(w.fields, o.fields);
}

#[test]
fn composition_op_codes_follow_declaration_order() {
    assert_eq!(CompositionOp::OverOp.as_azure_composition_op(), 0);
    assert_eq!(CompositionOp::SourceOp.as_azure_composition_op(), 5);
    assert_eq!(CompositionOp::XorOp.as_azure_composition_op(), 10);
    assert_eq!(CompositionOp::MultiplyOp.as_azure_composition_op(), 11);
    assert_eq!(CompositionOp::LuminosityOp.as_azure_composition_op(), 25);
}

#[test]
fn draw_options_field_isolation_scenario() {
    // Setting the op, then the antialias mode, then snapping leaves the
    // op's byte alone: the final word is the OR of the three sub-fields.
    let mut o = DrawOptions::new(1.0f32.to_bits(), 0);
    o.set_composition_op(CompositionOp::MultiplyOp);
    o.set_antialias_mode(5);
    o.set_snapping(1);
    assert_eq!(o.fields, 11 | (5 << 8) | (1 << 11));
    assert_eq!(o.fields & 0x00ff, 11);
}

#[test]
fn draw_options_setters_mask_their_inputs() {
    let mut o = DrawOptions::new(0, 0xffff);
    o.set_composition_op(CompositionOp::OverOp);
    assert_eq!(o.fields, 0xff00);
    o.set_antialias_mode(0xff);
    assert_eq!(o.fields, 0xff00);
    o.set_antialias_mode(0);
    assert_eq!(o.fields, 0xf800);
    o.set_snapping(0);
    assert_eq!(o.fields, 0xf000);
    o.set_snapping(3);
    assert_eq!(o.fields, 0xf800);
}

#[test]
fn draw_options_wire_layout_carries_alpha_and_fields() {
    let o = DrawOptions::new(0.5f32.to_bits(), 0x1234);
    let w = o.as_azure_draw_options();
    assert_eq!(w.alpha, 0.5f32.to_bits());
    assert_eq!(w.fields, 0x1234);
}

#[test]
fn surface_format_round_trip_in_order() {
    // Codes 0..3 name the four variants in declaration order, and each
    // converts back to its code.
    assert_eq!(SurfaceFormat::new(0), SurfaceFormat::B8G8R8A8);
    assert_eq!(SurfaceFormat::new(1), SurfaceFormat::B8G8R8X8);
    assert_eq!(SurfaceFormat::new(2), SurfaceFormat::R5G6B5);
    assert_eq!(SurfaceFormat::new(3), SurfaceFormat::A8);
    for code in 0..4u32 {
        assert_eq!(SurfaceFormat::new(code).as_azure_surface_format(), code);
    }
}

#[test]
fn filter_codes_follow_declaration_order() {
    assert_eq!(Filter::Linear.as_azure_filter(), 0);
    assert_eq!(Filter::Point.as_azure_filter(), 1);
}

#[test]
fn draw_surface_options_pack_filter_and_sampling_flag() {
    let o = DrawSurfaceOptions::new(Filter::Linear, false);
    assert_eq!(o.as_azure_draw_surface_options(), AzDrawSurfaceOptions { fields: 0 });
    let o = DrawSurfaceOptions::new(Filter::Point, false);
    assert_eq!(o.as_azure_draw_surface_options(), AzDrawSurfaceOptions { fields: 1 });
    let o = DrawSurfaceOptions::new(Filter::Linear, true);
    assert_eq!(o.as_azure_draw_surface_options(), AzDrawSurfaceOptions { fields: 8 });
    let o = DrawSurfaceOptions::new(Filter::Point, true);
    assert_eq!(o.as_azure_draw_surface_options(), AzDrawSurfaceOptions { fields: 9 });
}

#[test]
fn backend_type_codes_follow_declaration_order() {
    assert_eq!(BackendType::NoBackend.as_azure_backend_type(), 0);
    assert_eq!(BackendType::Direct2DBackend.as_azure_backend_type(), 1);
    assert_eq!(BackendType::CoreGraphicsBackend.as_azure_backend_type(), 2);
    assert_eq!(BackendType::CoreGraphicsAcceleratedBackend.as_azure_backend_type(), 3);
    assert_eq!(BackendType::CairoBackend.as_azure_backend_type(), 4);
    assert_eq!(BackendType::SkiaBackend.as_azure_backend_type(), 5);
    assert_eq!(BackendType::RecordingBackend.as_azure_backend_type(), 6);
}
