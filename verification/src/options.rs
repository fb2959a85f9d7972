//! User-facing drawing parameters and their bit-packed backend layouts.
//!
//! Stroke, draw and surface options are pure data. Each setter masks out its
//! own sub-field and ORs in the new value, so that no setter can disturb
//! another field: join and cap style occupy four bits each of the stroke
//! field byte; the composition op occupies the low byte of the draw field
//! word, the antialias mode three bits at offset 8, and snapping one bit at
//! offset 11. These layouts are an ABI contract with the backend and are
//! stated exactly in the contracts below.

use vstd::prelude::*;

use crate::geometry::AzFloat;

verus! {

/// An RGBA color; each channel is a 0–1 float of the backend, carried as its
/// bit pattern.
#[derive(Clone, Copy, Debug, PartialEq, Eq, Structural)]
pub struct Color {
    pub r: AzFloat,
    pub g: AzFloat,
    pub b: AzFloat,
    pub a: AzFloat,
}

/// The backend's wire layout for a color.
#[derive(Clone, Copy, Debug, PartialEq, Eq, Structural)]
pub struct AzColor {
    pub r: AzFloat,
    pub g: AzFloat,
    pub b: AzFloat,
    pub a: AzFloat,
}

/// The wire color that a given color converts to.
pub open spec fn spec_azure_color(c: Color) -> AzColor {
    AzColor { r: c.r, g: c.g, b: c.b, a: c.a }
}

impl Color {
    pub fn new(r: AzFloat, g: AzFloat, b: AzFloat, a: AzFloat) -> (c: Color)
        ensures
            c == (Color { r, g, b, a }),
    {
        Color { r, g, b, a }
    }

    /// The backend's wire layout of this color.
    pub fn as_azure_color(&self) -> (c: AzColor)
        ensures
            c == spec_azure_color(*self),
    {
        AzColor { r: self.r, g: self.g, b: self.b, a: self.a }
    }
}

/// The pixel-blending rule applied when drawing.
#[derive(Clone, Copy, Debug, PartialEq, Eq, Structural)]
pub enum CompositionOp {
    OverOp,
    AddOp,
    AtopOp,
    OutOp,
    InOp,
    SourceOp,
    DestInOp,
    DestOutOp,
    DestOverOp,
    DestAtopOp,
    XorOp,
    MultiplyOp,
    ScreenOp,
    OverlayOp,
    DarkenOp,
    LightenOp,
    ColorDodgeOp,
    ColorBurnOp,
    HardLightOp,
    SoftLightOp,
    DifferenceOp,
    ExclusionOp,
    HueOp,
    SaturationOp,
    ColorOp,
    LuminosityOp,
}

impl CompositionOp {
    /// The backend's numeric code for this composition op. The codes follow
    /// the declaration order, starting from zero, and all fit in one byte.
    pub open spec fn spec_code(self) -> u16 {
        match self {
            CompositionOp::OverOp => 0,
            CompositionOp::AddOp => 1,
            CompositionOp::AtopOp => 2,
            CompositionOp::OutOp => 3,
            CompositionOp::InOp => 4,
            CompositionOp::SourceOp => 5,
            CompositionOp::DestInOp => 6,
            CompositionOp::DestOutOp => 7,
            CompositionOp::DestOverOp => 8,
            CompositionOp::DestAtopOp => 9,
            CompositionOp::XorOp => 10,
            CompositionOp::MultiplyOp => 11,
            CompositionOp::ScreenOp => 12,
            CompositionOp::OverlayOp => 13,
            CompositionOp::DarkenOp => 14,
            CompositionOp::LightenOp => 15,
            CompositionOp::ColorDodgeOp => 16,
            CompositionOp::ColorBurnOp => 17,
            CompositionOp::HardLightOp => 18,
            CompositionOp::SoftLightOp => 19,
            CompositionOp::DifferenceOp => 20,
            CompositionOp::ExclusionOp => 21,
            CompositionOp::HueOp => 22,
            CompositionOp::SaturationOp => 23,
            CompositionOp::ColorOp => 24,
            CompositionOp::LuminosityOp => 25,
        }
    }

    /// Every composition-op code fits in the low byte of the field word.
    pub proof fn lemma_code_fits_low_byte(self)
        ensures
            self.spec_code() < 256,
    {
    }

    pub fn as_azure_composition_op(self) -> (c: u16)
        ensures
            c == self.spec_code(),
    {
        match self {
            CompositionOp::OverOp => 0,
            CompositionOp::AddOp => 1,
            CompositionOp::AtopOp => 2,
            CompositionOp::OutOp => 3,
            CompositionOp::InOp => 4,
            CompositionOp::SourceOp => 5,
            CompositionOp::DestInOp => 6,
            CompositionOp::DestOutOp => 7,
            CompositionOp::DestOverOp => 8,
            CompositionOp::DestAtopOp => 9,
            CompositionOp::XorOp => 10,
            CompositionOp::MultiplyOp => 11,
            CompositionOp::ScreenOp => 12,
            CompositionOp::OverlayOp => 13,
            CompositionOp::DarkenOp => 14,
            CompositionOp::LightenOp => 15,
            CompositionOp::ColorDodgeOp => 16,
            CompositionOp::ColorBurnOp => 17,
            CompositionOp::HardLightOp => 18,
            CompositionOp::SoftLightOp => 19,
            CompositionOp::DifferenceOp => 20,
            CompositionOp::ExclusionOp => 21,
            CompositionOp::HueOp => 22,
            CompositionOp::SaturationOp => 23,
            CompositionOp::ColorOp => 24,
            CompositionOp::LuminosityOp => 25,
        }
    }
}

/// The backend's cap-style code for a butt cap.
pub const AZ_CAP_BUTT: u8 = 0;

/// The backend's join-style code for a miter-or-bevel join.
pub const AZ_JOIN_MITER_OR_BEVEL: u8 = 1;

/// Stroke parameters. `fields` packs the cap style into its high four bits
/// and the join style into its low four bits.
#[derive(Clone, Copy, Debug, PartialEq, Eq, Structural)]
pub struct StrokeOptions {
    pub line_width: AzFloat,
    pub miter_limit: AzFloat,
    pub fields: u8,
}

/// The backend's wire layout for stroke options. Dash support is not
/// exposed, so the dash length and offset are always zero.
#[derive(Clone, Copy, Debug, PartialEq, Eq, Structural)]
pub struct AzStrokeOptions {
    pub line_width: AzFloat,
    pub miter_limit: AzFloat,
    pub dash_length: u64,
    pub dash_offset: AzFloat,
    pub fields: u8,
}

/// The stroke field byte after the join style is set: the low four bits are
/// replaced by the new style, masked to the field's width.
pub open spec fn spec_set_join_style(fields: u8, style: u8) -> u8 {
    (fields & 0xf0) | (style & 0x0f)
}

/// The stroke field byte after the cap style is set: the high four bits are
/// replaced by the new style, masked to the field's width.
pub open spec fn spec_set_cap_style(fields: u8, style: u8) -> u8 {
    (fields & 0x0f) | ((style & 0x0f) << 4)
}

/// The wire stroke options that given stroke options convert to.
pub open spec fn spec_azure_stroke_options(o: StrokeOptions) -> AzStrokeOptions {
    AzStrokeOptions {
        line_width: o.line_width,
        miter_limit: o.miter_limit,
        dash_length: 0,
        dash_offset: 0,
        fields: o.fields,
    }
}

impl StrokeOptions {
    /// Fresh stroke options: a butt cap and a miter-or-bevel join.
    pub fn new(line_width: AzFloat, miter_limit: AzFloat) -> (o: StrokeOptions)
        ensures
            o.line_width == line_width,
            o.miter_limit == miter_limit,
            o.fields == (AZ_CAP_BUTT << 4) | AZ_JOIN_MITER_OR_BEVEL,
    {
        StrokeOptions {
            line_width,
            miter_limit,
            fields: (AZ_CAP_BUTT << 4) | AZ_JOIN_MITER_OR_BEVEL,
        }
    }

    /// The backend's wire layout of these options.
    pub fn as_azure_stroke_options(&self) -> (o: AzStrokeOptions)
        ensures
            o == spec_azure_stroke_options(*self),
    {
        AzStrokeOptions {
            line_width: self.line_width,
            miter_limit: self.miter_limit,
            dash_length: 0,
            dash_offset: 0,
            fields: self.fields,
        }
    }

    pub fn set_join_style(&mut self, style: u8)
        ensures
            final(self).fields == spec_set_join_style(old(self).fields, style),
            final(self).line_width == old(self).line_width,
            final(self).miter_limit == old(self).miter_limit,
    {
        self.fields = (self.fields & 0xf0) | (style & 0x0f);
    }

    pub fn set_cap_style(&mut self, style: u8)
        ensures
            final(self).fields == spec_set_cap_style(old(self).fields, style),
            final(self).line_width == old(self).line_width,
            final(self).miter_limit == old(self).miter_limit,
    {
        self.fields = (self.fields & 0x0f) | ((style & 0x0f) << 4);
    }
}

/// Draw parameters. `fields` packs the composition op into its low byte, the
/// antialias mode into bits 8–10, and snapping into bit 11.
#[derive(Clone, Copy, Debug, PartialEq, Eq, Structural)]
pub struct DrawOptions {
    pub alpha: AzFloat,
    pub fields: u16,
}

/// The backend's wire layout for draw options.
#[derive(Clone, Copy, Debug, PartialEq, Eq, Structural)]
pub struct AzDrawOptions {
    pub alpha: AzFloat,
    pub fields: u16,
}

/// The draw field word after the composition op is set: the low byte is
/// replaced by the op's code.
pub open spec fn spec_set_composition_op(fields: u16, op: CompositionOp) -> u16 {
    (fields & 0xff00) | op.spec_code()
}

/// The draw field word after the antialias mode is set: bits 8–10 are
/// replaced by the mode, masked to three bits.
pub open spec fn spec_set_antialias_mode(fields: u16, style: u8) -> u16 {
    (fields & 0xf8ff) | (((style & 7) as u16) << 8)
}

/// The draw field word after snapping is set: bit 11 is replaced by the
/// flag, masked to one bit.
pub open spec fn spec_set_snapping(fields: u16, style: u8) -> u16 {
    (fields & 0xf7ff) | (((style & 1) as u16) << 11)
}

/// The wire draw options that given draw options convert to.
pub open spec fn spec_azure_draw_options(o: DrawOptions) -> AzDrawOptions {
    AzDrawOptions { alpha: o.alpha, fields: o.fields }
}

impl DrawOptions {
    pub fn new(alpha: AzFloat, fields: u16) -> (o: DrawOptions)
        ensures
            o == (DrawOptions { alpha, fields }),
    {
        DrawOptions { alpha, fields }
    }

    /// The backend's wire layout of these options.
    pub fn as_azure_draw_options(&self) -> (o: AzDrawOptions)
        ensures
            o == spec_azure_draw_options(*self),
    {
        AzDrawOptions { alpha: self.alpha, fields: self.fields }
    }

    pub fn set_composition_op(&mut self, style: CompositionOp)
        ensures
            final(self).fields == spec_set_composition_op(old(self).fields, style),
            final(self).alpha == old(self).alpha,
    {
        let code = style.as_azure_composition_op();
        self.fields = (self.fields & 0xff00) | code;
    }

    pub fn set_antialias_mode(&mut self, style: u8)
        ensures
            final(self).fields == spec_set_antialias_mode(old(self).fields, style),
            final(self).alpha == old(self).alpha,
    {
        self.fields = (self.fields & 0xf8ff) | (((style & 7) as u16) << 8);
    }

    pub fn set_snapping(&mut self, style: u8)
        ensures
            final(self).fields == spec_set_snapping(old(self).fields, style),
            final(self).alpha == old(self).alpha,
    {
        self.fields = (self.fields & 0xf7ff) | (((style & 1) as u16) << 11);
    }
}

/// Field isolation over the raw field word: setting the composition op, then
/// the antialias mode, then snapping leaves the op's byte in place, and the
/// three sub-fields land disjointly; only bits 12–15 keep their old value.
proof fn lemma_field_word_isolation(fields: u16, code: u16, aa: u8, snap: u8)
    by (bit_vector)
    requires
        code < 256,
    ensures
        ({
            let f = ((((fields & 0xff00) | code) & 0xf8ff) | (((aa & 7) as u16) << 8));
            let g = (f & 0xf7ff) | (((snap & 1) as u16) << 11);
            g == (fields & 0xf000) | code | (((aa & 7) as u16) << 8) | (((snap & 1) as u16)
                << 11)
        }),
{
}

/// Field-isolation law: `set_composition_op`, then `set_antialias_mode`,
/// then `set_snapping` leaves the composition-op byte unchanged by the two
/// later calls. The final field word is the op's code, the masked antialias
/// mode at bit 8 and the masked snapping flag at bit 11, with only bits
/// 12–15 surviving from the starting word.
pub proof fn lemma_draw_options_field_isolation(fields: u16, op: CompositionOp, aa: u8, snap: u8)
    ensures
        spec_set_snapping(spec_set_antialias_mode(spec_set_composition_op(fields, op), aa), snap)
            == (fields & 0xf000) | op.spec_code() | (((aa & 7) as u16) << 8) | (((snap & 1) as u16)
            << 11),
{
    op.lemma_code_fits_low_byte();
    lemma_field_word_isolation(fields, op.spec_code(), aa, snap);
}

/// The pixel formats the backend can report; the set is closed.
#[derive(Clone, Copy, Debug, PartialEq, Eq, Structural)]
pub enum SurfaceFormat {
    B8G8R8A8,
    B8G8R8X8,
    R5G6B5,
    A8,
}

impl SurfaceFormat {
    /// The backend's numeric code for this format, following declaration
    /// order from zero.
    pub open spec fn spec_code(self) -> u32 {
        match self {
            SurfaceFormat::B8G8R8A8 => 0,
            SurfaceFormat::B8G8R8X8 => 1,
            SurfaceFormat::R5G6B5 => 2,
            SurfaceFormat::A8 => 3,
        }
    }

    /// The format a given backend code names. Meaningful only for the four
    /// codes of the closed set.
    pub open spec fn spec_of_code(code: u32) -> SurfaceFormat
        recommends
            code < 4,
    {
        if code == 0 {
            SurfaceFormat::B8G8R8A8
        } else if code == 1 {
            SurfaceFormat::B8G8R8X8
        } else if code == 2 {
            SurfaceFormat::R5G6B5
        } else {
            SurfaceFormat::A8
        }
    }

    pub fn as_azure_surface_format(self) -> (code: u32)
        ensures
            code == self.spec_code(),
    {
        match self {
            SurfaceFormat::B8G8R8A8 => 0,
            SurfaceFormat::B8G8R8X8 => 1,
            SurfaceFormat::R5G6B5 => 2,
            SurfaceFormat::A8 => 3,
        }
    }

    /// The format named by a backend code. A code outside the closed set of
    /// four is an ABI mismatch, unrecoverable at this layer, and is ruled
    /// out by the precondition.
    pub fn new(azure_surface_format: u32) -> (f: SurfaceFormat)
        requires
            azure_surface_format < 4,
        ensures
            f == SurfaceFormat::spec_of_code(azure_surface_format),
            f.spec_code() == azure_surface_format,
    {
        if azure_surface_format == 0 {
            SurfaceFormat::B8G8R8A8
        } else if azure_surface_format == 1 {
            SurfaceFormat::B8G8R8X8
        } else if azure_surface_format == 2 {
            SurfaceFormat::R5G6B5
        } else {
            SurfaceFormat::A8
        }
    }
}

/// Round-trip law for the closed format set: each of the four backend codes
/// names exactly one format, in declaration order, and converting a format
/// to its code and back yields the format again.
pub proof fn lemma_surface_format_round_trip(f: SurfaceFormat, code: u32)
    requires
        code < 4,
    ensures
        SurfaceFormat::spec_of_code(f.spec_code()) == f,
        SurfaceFormat::spec_of_code(code).spec_code() == code,
{
}

/// The sampling filter applied when drawing a surface.
#[derive(Clone, Copy, Debug, PartialEq, Eq, Structural)]
pub enum Filter {
    Linear,
    Point,
}

impl Filter {
    /// The backend's numeric code for this filter, following declaration
    /// order from zero.
    pub open spec fn spec_code(self) -> u32 {
        match self {
            Filter::Linear => 0,
            Filter::Point => 1,
        }
    }

    pub fn as_azure_filter(self) -> (code: u32)
        ensures
            code == self.spec_code(),
    {
        match self {
            Filter::Linear => 0,
            Filter::Point => 1,
        }
    }
}

/// Parameters for drawing one surface onto another. The wire word packs the
/// filter code into its low bits and the sampling-bounds flag at bit 3.
#[derive(Clone, Copy, Debug, PartialEq, Eq, Structural)]
pub struct DrawSurfaceOptions {
    pub filter: Filter,
    pub sampling_bounds: bool,
}

/// The backend's wire layout for draw-surface options.
#[derive(Clone, Copy, Debug, PartialEq, Eq, Structural)]
pub struct AzDrawSurfaceOptions {
    pub fields: u32,
}

/// The wire word that given draw-surface options convert to.
pub open spec fn spec_azure_draw_surface_options(o: DrawSurfaceOptions) -> AzDrawSurfaceOptions {
    AzDrawSurfaceOptions {
        fields: o.filter.spec_code() | (if o.sampling_bounds {
            8
        } else {
            0
        }),
    }
}

impl DrawSurfaceOptions {
    pub fn new(filter: Filter, sampling_bounds: bool) -> (o: DrawSurfaceOptions)
        ensures
            o == (DrawSurfaceOptions { filter, sampling_bounds }),
    {
        DrawSurfaceOptions { filter, sampling_bounds }
    }

    /// The backend's wire layout of these options.
    pub fn as_azure_draw_surface_options(&self) -> (o: AzDrawSurfaceOptions)
        ensures
            o == spec_azure_draw_surface_options(*self),
    {
        AzDrawSurfaceOptions {
            fields: self.filter.as_azure_filter() | (if self.sampling_bounds {
                8
            } else {
                0
            }),
        }
    }
}

/// The rendering backends a draw target can be created over.
#[derive(Clone, Copy, Debug, PartialEq, Eq, Structural)]
pub enum BackendType {
    NoBackend,
    Direct2DBackend,
    CoreGraphicsBackend,
    CoreGraphicsAcceleratedBackend,
    CairoBackend,
    SkiaBackend,
    RecordingBackend,
}

impl BackendType {
    /// The backend's numeric code for this backend type, following
    /// declaration order from zero.
    pub open spec fn spec_code(self) -> u32 {
        match self {
            BackendType::NoBackend => 0,
            BackendType::Direct2DBackend => 1,
            BackendType::CoreGraphicsBackend => 2,
            BackendType::CoreGraphicsAcceleratedBackend => 3,
            BackendType::CairoBackend => 4,
            BackendType::SkiaBackend => 5,
            BackendType::RecordingBackend => 6,
        }
    }

    pub fn as_azure_backend_type(self) -> (code: u32)
        ensures
            code == self.spec_code(),
    {
        match self {
            BackendType::NoBackend => 0,
            BackendType::Direct2DBackend => 1,
            BackendType::CoreGraphicsBackend => 2,
            BackendType::CoreGraphicsAcceleratedBackend => 3,
            BackendType::CairoBackend => 4,
            BackendType::SkiaBackend => 5,
            BackendType::RecordingBackend => 6,
        }
    }
}

} // verus!
