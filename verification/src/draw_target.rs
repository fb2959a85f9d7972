//! The draw target: the central resource drawing operations act upon.
//!
//! A draw target owns one backend draw-target handle and, depending on how
//! it was constructed, a shared GL context handle. Cloning is the one
//! supported form of shared ownership: it retains the backend handles, so
//! every clone carries its own release obligation and the backend destroys
//! each resource exactly once, when the last reference goes away.

use vstd::prelude::*;

use crate::backend::AzGlyphBuffer;
use crate::backend::AzGlyphRenderingOptionsRef;
use crate::backend::AzScaledFontRef;
use crate::backend::Backend;
use crate::backend::BackendModel;
use crate::backend::BackendOp;
use crate::backend::Handle;
use crate::backend::HandleKind;
use crate::backend::blank_slot_model;
use crate::backend::draw_target_data_slot_model;
use crate::backend::draw_target_dims_ok;
use crate::backend::draw_target_slot_model;
use crate::backend::release_ops;
use crate::backend::released;
use crate::backend::retained;
use crate::backend::snapshot_stride;
use crate::backend::surface_data_slot_model;
use crate::backend::with_clip_popped;
use crate::backend::with_clip_pushed;
use crate::backend::with_stolen;
use crate::geometry::AsAzureIntSize;
use crate::geometry::AsAzurePoint;
use crate::geometry::AsAzureRect;
use crate::geometry::AzFloat;
use crate::geometry::AzIntSize;
use crate::geometry::Matrix2D;
use crate::geometry::Point2D;
use crate::geometry::Rect;
use crate::geometry::Size2D;
use crate::geometry::spec_azure_int_size;
use crate::geometry::spec_azure_matrix;
use crate::geometry::spec_azure_point;
use crate::geometry::spec_azure_rect;
use crate::options::AzDrawOptions;
use crate::options::BackendType;
use crate::options::DrawOptions;
use crate::options::DrawSurfaceOptions;
use crate::options::StrokeOptions;
use crate::options::SurfaceFormat;
use crate::options::spec_azure_draw_options;
use crate::options::spec_azure_draw_surface_options;
use crate::options::spec_azure_stroke_options;
use crate::path::Path;
use crate::path::PathBuilder;
use crate::pattern::ColorPattern;
use crate::surface::SourceSurface;

verus! {

/// An opaque platform graphics-context descriptor, produced by the
/// platform's windowing layer and consumed only by the FBO-backed
/// constructor.
pub type NativePaintingGraphicsContext = u64;

/// The GL resources that the backend's shared context was holding and that
/// may be safely extracted: the native surface.
pub struct StolenGLResources {
    pub surface: Handle,
}

/// Owns one backend draw-target handle and, when constructed over a
/// frame-buffer object, a shared GL context handle.
pub struct DrawTarget {
    pub azure_draw_target: Handle,
    pub skia_context: Option<Handle>,
}

impl DrawTarget {
    /// The target's handles are live in the backend and of the right
    /// kinds; the GL context, when present, is a handle of its own.
    pub open spec fn wf(self, b: BackendModel) -> bool {
        &&& b.live_as(self.azure_draw_target, HandleKind::DrawTarget)
        &&& match self.skia_context {
            Option::Some(ctx) => b.live_as(ctx, HandleKind::GlContext) && ctx
                != self.azure_draw_target,
            Option::None => true,
        }
    }

    /// The size recorded for the target's surface.
    pub open spec fn size(self, b: BackendModel) -> AzIntSize {
        b.slot(self.azure_draw_target).size
    }

    /// A draw target over a backend-managed surface of the given size and
    /// format. The size must be non-negative and small enough for the
    /// backend to allocate the surface.
    pub fn new(
        backend_type: BackendType,
        size: Size2D<i32>,
        format: SurfaceFormat,
        backend: &mut Backend,
    ) -> (dt: DrawTarget)
        requires
            old(backend)@.inv(),
            draw_target_dims_ok(spec_azure_int_size(size), format.spec_code()),
        ensures
            final(backend)@.inv(),
            dt.wf(final(backend)@),
            dt.azure_draw_target == old(backend)@.slots.len(),
            dt.skia_context is None,
            final(backend)@.slots == old(backend)@.slots.push(
                draw_target_slot_model(spec_azure_int_size(size), format.spec_code()),
            ),
            final(backend)@.ops == old(backend)@.ops.push(
                BackendOp::CreateDrawTarget {
                    target: dt.azure_draw_target,
                    backend_type: backend_type.spec_code(),
                    size: spec_azure_int_size(size),
                    format: format.spec_code(),
                },
            ),
            dt.size(final(backend)@) == spec_azure_int_size(size),
    {
        let az_size = size.as_azure_int_size();
        let code = format.as_azure_surface_format();
        let bt = backend_type.as_azure_backend_type();
        let h = backend.create_draw_target(bt, az_size, code);
        DrawTarget { azure_draw_target: h, skia_context: None }
    }

    /// A draw target bound over the caller's pixel buffer, starting at
    /// `offset`, with `stride` bytes per row. The buffer must hold at
    /// least `stride * height` bytes past the offset — a shorter buffer is
    /// a caller bug, ruled out by the precondition — and its ownership is
    /// captured for the lifetime of the target and its clones.
    pub fn new_with_data(
        backend_type: BackendType,
        data: Vec<u8>,
        offset: usize,
        size: Size2D<i32>,
        stride: i32,
        format: SurfaceFormat,
        backend: &mut Backend,
    ) -> (dt: DrawTarget)
        requires
            old(backend)@.inv(),
            draw_target_dims_ok(spec_azure_int_size(size), format.spec_code()),
            offset < data@.len(),
            stride * size.height <= data@.len() - offset,
        ensures
            final(backend)@.inv(),
            dt.wf(final(backend)@),
            dt.azure_draw_target == old(backend)@.slots.len(),
            dt.skia_context is None,
            final(backend)@.slots == old(backend)@.slots.push(
                draw_target_data_slot_model(
                    spec_azure_int_size(size),
                    stride,
                    format.spec_code(),
                    data@,
                ),
            ),
            final(backend)@.ops == old(backend)@.ops.push(
                BackendOp::CreateDrawTargetForData {
                    target: dt.azure_draw_target,
                    backend_type: backend_type.spec_code(),
                    size: spec_azure_int_size(size),
                    stride,
                    format: format.spec_code(),
                },
            ),
            dt.size(final(backend)@) == spec_azure_int_size(size),
    {
        let az_size = size.as_azure_int_size();
        let code = format.as_azure_surface_format();
        let bt = backend_type.as_azure_backend_type();
        let h = backend.create_draw_target_for_data(bt, data, offset, az_size, stride, code);
        DrawTarget { azure_draw_target: h, skia_context: None }
    }

    /// A draw target bound to an externally managed frame-buffer object
    /// through a fresh shared GL context. Only the GPU-accelerated backend
    /// variant supports this; any other backend type is a caller bug.
    pub fn new_with_fbo(
        backend_type: BackendType,
        native_graphics_context: NativePaintingGraphicsContext,
        size: Size2D<i32>,
        format: SurfaceFormat,
        backend: &mut Backend,
    ) -> (dt: DrawTarget)
        requires
            old(backend)@.inv(),
            backend_type == BackendType::SkiaBackend,
            draw_target_dims_ok(spec_azure_int_size(size), format.spec_code()),
        ensures
            final(backend)@.inv(),
            dt.wf(final(backend)@),
            dt.skia_context == Option::Some(old(backend)@.slots.len() as Handle),
            dt.azure_draw_target == old(backend)@.slots.len() + 1,
            final(backend)@.slots == old(backend)@.slots.push(
                blank_slot_model(HandleKind::GlContext),
            ).push(draw_target_slot_model(spec_azure_int_size(size), format.spec_code())),
            final(backend)@.ops == old(backend)@.ops.push(
                BackendOp::CreateSkiaSharedGlContext {
                    context: dt.skia_context->Some_0,
                    native_context: native_graphics_context,
                    size: spec_azure_int_size(size),
                },
            ).push(
                BackendOp::CreateSkiaDrawTargetForFbo {
                    target: dt.azure_draw_target,
                    context: dt.skia_context->Some_0,
                    size: spec_azure_int_size(size),
                    format: format.spec_code(),
                },
            ),
            dt.size(final(backend)@) == spec_azure_int_size(size),
    {
        let az_size = size.as_azure_int_size();
        let code = format.as_azure_surface_format();
        let ctx = backend.create_skia_shared_gl_context(native_graphics_context, az_size);
        let h = backend.create_skia_draw_target_for_fbo(ctx, az_size, code);
        DrawTarget { azure_draw_target: h, skia_context: Some(ctx) }
    }

    /// A shallow, reference-counted copy: retains the backend handle and,
    /// when present, the GL context, so the new value denotes the same
    /// surface and carries its own release obligation.
    pub fn clone(&self, backend: &mut Backend) -> (dt: DrawTarget)
        requires
            old(backend)@.inv(),
            self.wf(old(backend)@),
            old(backend)@.slot(self.azure_draw_target).refs < u64::MAX,
            match self.skia_context {
                Option::Some(ctx) => old(backend)@.slot(ctx).refs < u64::MAX,
                Option::None => true,
            },
        ensures
            final(backend)@.inv(),
            dt.azure_draw_target == self.azure_draw_target,
            dt.skia_context == self.skia_context,
            dt.wf(final(backend)@),
            self.wf(final(backend)@),
            match self.skia_context {
                Option::Some(ctx) => {
                    &&& final(backend)@.slots == old(backend)@.slots.update(
                        self.azure_draw_target as int,
                        retained(old(backend)@.slot(self.azure_draw_target)),
                    ).update(ctx as int, retained(old(backend)@.slot(ctx)))
                    &&& final(backend)@.ops == old(backend)@.ops.push(
                        BackendOp::Retain {
                            kind: HandleKind::DrawTarget,
                            handle: self.azure_draw_target,
                        },
                    ).push(BackendOp::Retain { kind: HandleKind::GlContext, handle: ctx })
                },
                Option::None => {
                    &&& final(backend)@.slots == old(backend)@.slots.update(
                        self.azure_draw_target as int,
                        retained(old(backend)@.slot(self.azure_draw_target)),
                    )
                    &&& final(backend)@.ops == old(backend)@.ops.push(
                        BackendOp::Retain {
                            kind: HandleKind::DrawTarget,
                            handle: self.azure_draw_target,
                        },
                    )
                },
            },
    {
        backend.retain(self.azure_draw_target);
        match self.skia_context {
            None => {},
            Some(ctx) => {
                backend.retain(ctx);
            },
        }
        DrawTarget { azure_draw_target: self.azure_draw_target, skia_context: self.skia_context }
    }

    /// Makes the attached GL context current on the calling thread; a
    /// no-op for targets without one.
    pub fn make_current(&self, backend: &mut Backend)
        requires
            old(backend)@.inv(),
            self.wf(old(backend)@),
        ensures
            final(backend)@.inv(),
            self.wf(final(backend)@),
            final(backend)@.slots == old(backend)@.slots,
            final(backend)@.ops == match self.skia_context {
                Option::Some(ctx) => old(backend)@.ops.push(BackendOp::MakeCurrent { context: ctx }),
                Option::None => old(backend)@.ops,
            },
    {
        match self.skia_context {
            None => {},
            Some(ctx) => {
                backend.gl_context_make_current(ctx);
            },
        }
    }

    /// Consumes the draw target. If a GL context is attached, its native
    /// surface is extracted first and handed to the caller, who owns it
    /// from then on; the target's own references are then released as on
    /// any other destruction, and the context no longer releases the stolen
    /// surface. Stealing is one-shot per context.
    pub fn steal_gl_resources(self, backend: &mut Backend) -> (r: Option<StolenGLResources>)
        requires
            old(backend)@.inv(),
            self.wf(old(backend)@),
            match self.skia_context {
                Option::Some(ctx) => !old(backend)@.slot(ctx).stolen,
                Option::None => true,
            },
        ensures
            final(backend)@.inv(),
            match self.skia_context {
                Option::Some(ctx) => {
                    &&& r matches Option::Some(stolen) && stolen.surface == old(
                        backend,
                    )@.slots.len()
                    &&& final(backend)@.slots.len() == old(backend)@.slots.len() + 1
                    &&& final(backend)@.slot(self.azure_draw_target) == released(
                        old(backend)@.slot(self.azure_draw_target),
                    )
                    &&& final(backend)@.slot(ctx) == released(
                        with_stolen(old(backend)@.slot(ctx)),
                    )
                    &&& final(backend)@.live_as(
                        old(backend)@.slots.len() as Handle,
                        HandleKind::GlSurface,
                    )
                    &&& final(backend)@.slot(old(backend)@.slots.len() as Handle)
                        == blank_slot_model(HandleKind::GlSurface)
                    &&& forall|j: int|
                        0 <= j < old(backend)@.slots.len() && j != self.azure_draw_target as int
                            && j != ctx as int ==> (#[trigger] final(backend)@.slots[j]) == old(
                            backend,
                        )@.slots[j]
                    &&& final(backend)@.ops == old(backend)@.ops.push(
                        BackendOp::StealSurface {
                            context: ctx,
                            surface: old(backend)@.slots.len() as Handle,
                        },
                    ) + release_ops(
                        HandleKind::DrawTarget,
                        self.azure_draw_target,
                        old(backend)@.slot(self.azure_draw_target).refs,
                    ) + release_ops(HandleKind::GlContext, ctx, old(backend)@.slot(ctx).refs)
                },
                Option::None => {
                    &&& r is None
                    &&& final(backend)@.slots == old(backend)@.slots.update(
                        self.azure_draw_target as int,
                        released(old(backend)@.slot(self.azure_draw_target)),
                    )
                    &&& final(backend)@.ops == old(backend)@.ops + release_ops(
                        HandleKind::DrawTarget,
                        self.azure_draw_target,
                        old(backend)@.slot(self.azure_draw_target).refs,
                    )
                },
            },
    {
        match self.skia_context {
            None => {
                backend.release(self.azure_draw_target);
                None
            },
            Some(ctx) => {
                let surface = backend.gl_context_steal_surface(ctx);
                backend.release(self.azure_draw_target);
                backend.release(ctx);
                Some(StolenGLResources { surface })
            },
        }
    }

    /// The size the target's surface was created with.
    pub fn get_size(&self, backend: &Backend) -> (s: AzIntSize)
        requires
            backend@.inv(),
            self.wf(backend@),
        ensures
            s == self.size(backend@),
    {
        backend.draw_target_get_size(self.azure_draw_target)
    }

    /// The current depth of the target's clip stack.
    pub fn clip_depth(&self, backend: &Backend) -> (d: u64)
        requires
            backend@.inv(),
            self.wf(backend@),
        ensures
            d == backend@.slot(self.azure_draw_target).clip_depth,
    {
        backend.draw_target_clip_depth(self.azure_draw_target)
    }

    /// Flushes pending drawing work, and the GL context's if one is
    /// attached.
    pub fn flush(&self, backend: &mut Backend)
        requires
            old(backend)@.inv(),
            self.wf(old(backend)@),
        ensures
            final(backend)@.inv(),
            self.wf(final(backend)@),
            final(backend)@.slots == old(backend)@.slots,
            final(backend)@.ops == match self.skia_context {
                Option::Some(ctx) => old(backend)@.ops.push(
                    BackendOp::Flush { target: self.azure_draw_target },
                ).push(BackendOp::ContextFlush { context: ctx }),
                Option::None => old(backend)@.ops.push(
                    BackendOp::Flush { target: self.azure_draw_target },
                ),
            },
    {
        backend.draw_target_flush(self.azure_draw_target);
        match self.skia_context {
            None => {},
            Some(ctx) => {
                backend.gl_context_flush(ctx);
            },
        }
    }

    /// Clears the rectangle to transparent black.
    pub fn clear_rect(&self, rect: &Rect<AzFloat>, backend: &mut Backend)
        requires
            old(backend)@.inv(),
            self.wf(old(backend)@),
        ensures
            final(backend)@.inv(),
            self.wf(final(backend)@),
            final(backend)@.slots == old(backend)@.slots,
            final(backend)@.ops == old(backend)@.ops.push(
                BackendOp::ClearRect {
                    target: self.azure_draw_target,
                    rect: spec_azure_rect(*rect),
                },
            ),
    {
        let az_rect = rect.as_azure_rect();
        backend.draw_target_clear_rect(self.azure_draw_target, az_rect);
    }

    /// Fills a path with a pattern.
    pub fn fill(
        &self,
        path: &Path,
        pattern: &ColorPattern,
        draw_options: &DrawOptions,
        backend: &mut Backend,
    )
        requires
            old(backend)@.inv(),
            self.wf(old(backend)@),
            path.wf(old(backend)@),
            pattern.wf(old(backend)@),
        ensures
            final(backend)@.inv(),
            self.wf(final(backend)@),
            final(backend)@.slots == old(backend)@.slots,
            final(backend)@.ops == old(backend)@.ops.push(
                BackendOp::Fill {
                    target: self.azure_draw_target,
                    path: path.azure_path,
                    pattern: pattern.azure_color_pattern,
                    options: spec_azure_draw_options(*draw_options),
                },
            ),
    {
        let az_options = draw_options.as_azure_draw_options();
        backend.draw_target_fill(
            self.azure_draw_target,
            path.azure_path,
            pattern.azure_color_pattern,
            az_options,
        );
    }

    /// Fills a rectangle with a pattern, with or without explicit draw
    /// options.
    pub fn fill_rect(
        &self,
        rect: &Rect<AzFloat>,
        pattern: &ColorPattern,
        draw_options: Option<&DrawOptions>,
        backend: &mut Backend,
    )
        requires
            old(backend)@.inv(),
            self.wf(old(backend)@),
            pattern.wf(old(backend)@),
        ensures
            final(backend)@.inv(),
            self.wf(final(backend)@),
            final(backend)@.slots == old(backend)@.slots,
            final(backend)@.ops == old(backend)@.ops.push(
                BackendOp::FillRect {
                    target: self.azure_draw_target,
                    rect: spec_azure_rect(*rect),
                    pattern: pattern.azure_color_pattern,
                    options: match draw_options {
                        Option::Some(o) => Option::Some(spec_azure_draw_options(*o)),
                        Option::None => Option::None,
                    },
                },
            ),
    {
        let az_rect = rect.as_azure_rect();
        let az_options = match draw_options {
            None => None,
            Some(o) => Some(o.as_azure_draw_options()),
        };
        backend.draw_target_fill_rect(
            self.azure_draw_target,
            az_rect,
            pattern.azure_color_pattern,
            az_options,
        );
    }

    /// Strokes a line between two points.
    pub fn stroke_line(
        &self,
        start: Point2D<AzFloat>,
        end: Point2D<AzFloat>,
        pattern: &ColorPattern,
        stroke_options: &StrokeOptions,
        draw_options: &DrawOptions,
        backend: &mut Backend,
    )
        requires
            old(backend)@.inv(),
            self.wf(old(backend)@),
            pattern.wf(old(backend)@),
        ensures
            final(backend)@.inv(),
            self.wf(final(backend)@),
            final(backend)@.slots == old(backend)@.slots,
            final(backend)@.ops == old(backend)@.ops.push(
                BackendOp::StrokeLine {
                    target: self.azure_draw_target,
                    start: spec_azure_point(start),
                    end: spec_azure_point(end),
                    pattern: pattern.azure_color_pattern,
                    stroke: spec_azure_stroke_options(*stroke_options),
                    options: spec_azure_draw_options(*draw_options),
                },
            ),
    {
        let az_start = start.as_azure_point();
        let az_end = end.as_azure_point();
        let az_stroke = stroke_options.as_azure_stroke_options();
        let az_options = draw_options.as_azure_draw_options();
        backend.draw_target_stroke_line(
            self.azure_draw_target,
            az_start,
            az_end,
            pattern.azure_color_pattern,
            az_stroke,
            az_options,
        );
    }

    /// Strokes a rectangle's outline.
    pub fn stroke_rect(
        &self,
        rect: &Rect<AzFloat>,
        pattern: &ColorPattern,
        stroke_options: &StrokeOptions,
        draw_options: &DrawOptions,
        backend: &mut Backend,
    )
        requires
            old(backend)@.inv(),
            self.wf(old(backend)@),
            pattern.wf(old(backend)@),
        ensures
            final(backend)@.inv(),
            self.wf(final(backend)@),
            final(backend)@.slots == old(backend)@.slots,
            final(backend)@.ops == old(backend)@.ops.push(
                BackendOp::StrokeRect {
                    target: self.azure_draw_target,
                    rect: spec_azure_rect(*rect),
                    pattern: pattern.azure_color_pattern,
                    stroke: spec_azure_stroke_options(*stroke_options),
                    options: spec_azure_draw_options(*draw_options),
                },
            ),
    {
        let az_rect = rect.as_azure_rect();
        let az_stroke = stroke_options.as_azure_stroke_options();
        let az_options = draw_options.as_azure_draw_options();
        backend.draw_target_stroke_rect(
            self.azure_draw_target,
            az_rect,
            pattern.azure_color_pattern,
            az_stroke,
            az_options,
        );
    }

    /// Draws a region of a source surface into a region of this target.
    /// The surface is consumed: its one reference is released after the
    /// draw.
    pub fn draw_surface(
        &self,
        surface: SourceSurface,
        dest: Rect<AzFloat>,
        source: Rect<AzFloat>,
        surf_options: DrawSurfaceOptions,
        options: DrawOptions,
        backend: &mut Backend,
    )
        requires
            old(backend)@.inv(),
            self.wf(old(backend)@),
            surface.wf(old(backend)@),
        ensures
            final(backend)@.inv(),
            self.wf(final(backend)@),
            final(backend)@.slots == old(backend)@.slots.update(
                surface.azure_source_surface as int,
                released(old(backend)@.slot(surface.azure_source_surface)),
            ),
            final(backend)@.ops == old(backend)@.ops.push(
                BackendOp::DrawSurface {
                    target: self.azure_draw_target,
                    surface: surface.azure_source_surface,
                    dest: spec_azure_rect(dest),
                    source: spec_azure_rect(source),
                    surface_options: spec_azure_draw_surface_options(surf_options),
                    options: spec_azure_draw_options(options),
                },
            ) + release_ops(
                HandleKind::SourceSurface,
                surface.azure_source_surface,
                old(backend)@.slot(surface.azure_source_surface).refs,
            ),
    {
        let az_dest = dest.as_azure_rect();
        let az_source = source.as_azure_rect();
        let az_surf_options = surf_options.as_azure_draw_surface_options();
        let az_options = options.as_azure_draw_options();
        backend.draw_target_draw_surface(
            self.azure_draw_target,
            surface.azure_source_surface,
            az_dest,
            az_source,
            az_surf_options,
            az_options,
        );
        surface.release(backend);
    }

    /// A fresh source surface holding the target's rendered pixels: same
    /// size and format, one pixel row per stride. What the bytes hold is
    /// the rasterizer's business; their count is the contract's.
    pub fn snapshot(&self, backend: &mut Backend) -> (s: SourceSurface)
        requires
            old(backend)@.inv(),
            self.wf(old(backend)@),
        ensures
            final(backend)@.inv(),
            self.wf(final(backend)@),
            s.wf(final(backend)@),
            s.azure_source_surface == old(backend)@.slots.len(),
            final(backend)@.slots.len() == old(backend)@.slots.len() + 1,
            forall|j: int|
                0 <= j < old(backend)@.slots.len() ==> (#[trigger] final(backend)@.slots[j]) == old(
                    backend,
                )@.slots[j],
            final(backend)@.ops == old(backend)@.ops.push(
                BackendOp::Snapshot {
                    target: self.azure_draw_target,
                    surface: s.azure_source_surface,
                },
            ),
            final(backend)@.slot(s.azure_source_surface).refs == 1,
            final(backend)@.slot(s.azure_source_surface).destroys == 0,
            final(backend)@.slot(s.azure_source_surface).size == self.size(old(backend)@),
            final(backend)@.slot(s.azure_source_surface).format == old(backend)@.slot(
                self.azure_draw_target,
            ).format,
            final(backend)@.slot(s.azure_source_surface).stride == snapshot_stride(
                old(backend)@.slot(self.azure_draw_target),
            ),
            final(backend)@.slot(s.azure_source_surface).data.len() == snapshot_stride(
                old(backend)@.slot(self.azure_draw_target),
            ) * self.size(old(backend)@).height,
    {
        let h = backend.draw_target_get_snapshot(self.azure_draw_target);
        SourceSurface::new(h)
    }

    /// A fresh source surface over a copy of the caller's pixel bytes,
    /// which must be exactly `stride * height` of them — anything else is a
    /// caller bug, ruled out by the precondition.
    pub fn create_source_surface_from_data(
        &self,
        data: &[u8],
        size: Size2D<i32>,
        stride: i32,
        format: SurfaceFormat,
        backend: &mut Backend,
    ) -> (s: SourceSurface)
        requires
            old(backend)@.inv(),
            self.wf(old(backend)@),
            0 <= stride,
            0 <= size.width,
            0 <= size.height,
            data@.len() == stride * size.height,
        ensures
            final(backend)@.inv(),
            self.wf(final(backend)@),
            s.wf(final(backend)@),
            s.azure_source_surface == old(backend)@.slots.len(),
            final(backend)@.slots == old(backend)@.slots.push(
                surface_data_slot_model(
                    spec_azure_int_size(size),
                    stride,
                    format.spec_code(),
                    data@,
                ),
            ),
            final(backend)@.ops == old(backend)@.ops.push(
                BackendOp::CreateSourceSurfaceFromData {
                    target: self.azure_draw_target,
                    surface: s.azure_source_surface,
                    size: spec_azure_int_size(size),
                    stride,
                    format: format.spec_code(),
                },
            ),
            final(backend)@.slot(s.azure_source_surface).data == data@,
    {
        let az_size = size.as_azure_int_size();
        let code = format.as_azure_surface_format();
        let bytes = vstd::slice::slice_to_vec(data);
        let h = backend.draw_target_create_source_surface_from_data(
            self.azure_draw_target,
            bytes,
            az_size,
            stride,
            code,
        );
        SourceSurface::new(h)
    }

    /// Replaces the target's transform.
    pub fn set_transform(&self, matrix: &Matrix2D, backend: &mut Backend)
        requires
            old(backend)@.inv(),
            self.wf(old(backend)@),
        ensures
            final(backend)@.inv(),
            self.wf(final(backend)@),
            final(backend)@.slots == old(backend)@.slots,
            final(backend)@.ops == old(backend)@.ops.push(
                BackendOp::SetTransform {
                    target: self.azure_draw_target,
                    matrix: spec_azure_matrix(*matrix),
                },
            ),
    {
        let az_matrix = matrix.as_azure_matrix();
        backend.draw_target_set_transform(self.azure_draw_target, az_matrix);
    }

    /// Fills a glyph run with a pattern. The font, the raw pattern and the
    /// rendering options are references owned by other subsystems and pass
    /// through opaquely.
    pub fn fill_glyphs(
        &self,
        azfontref: AzScaledFontRef,
        glyphbuf: &AzGlyphBuffer,
        azure_pattern: Handle,
        options: AzDrawOptions,
        rendering_options: AzGlyphRenderingOptionsRef,
        backend: &mut Backend,
    )
        requires
            old(backend)@.inv(),
            self.wf(old(backend)@),
            glyphbuf.glyphs@.len() <= u32::MAX,
        ensures
            final(backend)@.inv(),
            self.wf(final(backend)@),
            final(backend)@.slots == old(backend)@.slots,
            final(backend)@.ops == old(backend)@.ops.push(
                BackendOp::FillGlyphs {
                    target: self.azure_draw_target,
                    font: azfontref,
                    glyph_count: glyphbuf.glyphs@.len() as u32,
                    pattern: azure_pattern,
                    options,
                    rendering_options,
                },
            ),
    {
        let count = glyphbuf.glyphs.len() as u32;
        backend.draw_target_fill_glyphs(
            self.azure_draw_target,
            azfontref,
            count,
            azure_pattern,
            options,
            rendering_options,
        );
    }

    /// A fresh path builder tied to this target, with no commands yet.
    pub fn create_path_builder(&self, backend: &mut Backend) -> (b: PathBuilder)
        requires
            old(backend)@.inv(),
            self.wf(old(backend)@),
        ensures
            final(backend)@.inv(),
            self.wf(final(backend)@),
            b.wf(final(backend)@),
            b.azure_path_builder == old(backend)@.slots.len(),
            final(backend)@.slots == old(backend)@.slots.push(
                blank_slot_model(HandleKind::PathBuilder),
            ),
            final(backend)@.ops == old(backend)@.ops.push(
                BackendOp::CreatePathBuilder {
                    target: self.azure_draw_target,
                    builder: b.azure_path_builder,
                },
            ),
            b.cmds(final(backend)@) == Seq::<crate::backend::PathOp>::empty(),
    {
        let h = backend.create_path_builder(self.azure_draw_target);
        PathBuilder { azure_path_builder: h }
    }

    /// Pushes a path onto the target's clip stack.
    pub fn push_clip(&self, path: &Path, backend: &mut Backend)
        requires
            old(backend)@.inv(),
            self.wf(old(backend)@),
            path.wf(old(backend)@),
            old(backend)@.slot(self.azure_draw_target).clip_depth < u64::MAX,
        ensures
            final(backend)@.inv(),
            self.wf(final(backend)@),
            final(backend)@.slots == old(backend)@.slots.update(
                self.azure_draw_target as int,
                with_clip_pushed(old(backend)@.slot(self.azure_draw_target)),
            ),
            final(backend)@.ops == old(backend)@.ops.push(
                BackendOp::PushClip { target: self.azure_draw_target, path: path.azure_path },
            ),
            final(backend)@.slot(self.azure_draw_target).clip_depth == old(backend)@.slot(
                self.azure_draw_target,
            ).clip_depth + 1,
    {
        backend.draw_target_push_clip(self.azure_draw_target, path.azure_path);
    }

    /// Pops the topmost clip. The backend has no underflow guard at this
    /// layer: popping with an empty clip stack is a caller bug, ruled out
    /// by the precondition.
    pub fn pop_clip(&self, backend: &mut Backend)
        requires
            old(backend)@.inv(),
            self.wf(old(backend)@),
            old(backend)@.slot(self.azure_draw_target).clip_depth > 0,
        ensures
            final(backend)@.inv(),
            self.wf(final(backend)@),
            final(backend)@.slots == old(backend)@.slots.update(
                self.azure_draw_target as int,
                with_clip_popped(old(backend)@.slot(self.azure_draw_target)),
            ),
            final(backend)@.ops == old(backend)@.ops.push(
                BackendOp::PopClip { target: self.azure_draw_target },
            ),
            final(backend)@.slot(self.azure_draw_target).clip_depth == old(backend)@.slot(
                self.azure_draw_target,
            ).clip_depth - 1,
    {
        backend.draw_target_pop_clip(self.azure_draw_target);
    }

    /// Consumes the draw target, giving its references back to the
    /// backend: one release for the draw-target handle and, when present,
    /// one for the GL context. The backend destroys each resource when its
    /// last reference goes away.
    pub fn release(self, backend: &mut Backend)
        requires
            old(backend)@.inv(),
            self.wf(old(backend)@),
        ensures
            final(backend)@.inv(),
            match self.skia_context {
                Option::Some(ctx) => {
                    &&& final(backend)@.slots == old(backend)@.slots.update(
                        self.azure_draw_target as int,
                        released(old(backend)@.slot(self.azure_draw_target)),
                    ).update(ctx as int, released(old(backend)@.slot(ctx)))
                    &&& final(backend)@.ops == old(backend)@.ops + release_ops(
                        HandleKind::DrawTarget,
                        self.azure_draw_target,
                        old(backend)@.slot(self.azure_draw_target).refs,
                    ) + release_ops(HandleKind::GlContext, ctx, old(backend)@.slot(ctx).refs)
                },
                Option::None => {
                    &&& final(backend)@.slots == old(backend)@.slots.update(
                        self.azure_draw_target as int,
                        released(old(backend)@.slot(self.azure_draw_target)),
                    )
                    &&& final(backend)@.ops == old(backend)@.ops + release_ops(
                        HandleKind::DrawTarget,
                        self.azure_draw_target,
                        old(backend)@.slot(self.azure_draw_target).refs,
                    )
                },
            },
    {
        backend.release(self.azure_draw_target);
        match self.skia_context {
            None => {},
            Some(ctx) => {
                backend.release(ctx);
            },
        }
    }
}

/// Clones a draw target reached through a mutable reference, leaving it in
/// place, for callers that only hold the target mutably.
pub fn clone_mutable_draw_target(draw_target: &mut DrawTarget, backend: &mut Backend) -> (dt:
    DrawTarget)
    requires
        old(backend)@.inv(),
        old(draw_target).wf(old(backend)@),
        old(backend)@.slot(old(draw_target).azure_draw_target).refs < u64::MAX,
        match old(draw_target).skia_context {
            Option::Some(ctx) => old(backend)@.slot(ctx).refs < u64::MAX,
            Option::None => true,
        },
    ensures
        final(backend)@.inv(),
        *final(draw_target) == *old(draw_target),
        dt.azure_draw_target == old(draw_target).azure_draw_target,
        dt.skia_context == old(draw_target).skia_context,
        dt.wf(final(backend)@),
        (*final(draw_target)).wf(final(backend)@),
        match old(draw_target).skia_context {
            Option::Some(ctx) => {
                &&& final(backend)@.slots == old(backend)@.slots.update(
                    old(draw_target).azure_draw_target as int,
                    retained(old(backend)@.slot(old(draw_target).azure_draw_target)),
                ).update(ctx as int, retained(old(backend)@.slot(ctx)))
                &&& final(backend)@.ops == old(backend)@.ops.push(
                    BackendOp::Retain {
                        kind: HandleKind::DrawTarget,
                        handle: old(draw_target).azure_draw_target,
                    },
                ).push(BackendOp::Retain { kind: HandleKind::GlContext, handle: ctx })
            },
            Option::None => {
                &&& final(backend)@.slots == old(backend)@.slots.update(
                    old(draw_target).azure_draw_target as int,
                    retained(old(backend)@.slot(old(draw_target).azure_draw_target)),
                )
                &&& final(backend)@.ops == old(backend)@.ops.push(
                    BackendOp::Retain {
                        kind: HandleKind::DrawTarget,
                        handle: old(draw_target).azure_draw_target,
                    },
                )
            },
        },
{
    let dt: &DrawTarget = draw_target;
    dt.clone(backend)
}

} // verus!
