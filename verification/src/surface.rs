//! Source surfaces: read-only handles to rendered or loaded pixel content,
//! and data surfaces exposing the raw pixel bytes.

use vstd::prelude::*;

use crate::backend::Backend;
use crate::backend::BackendModel;
use crate::backend::BackendOp;
use crate::backend::Handle;
use crate::backend::HandleKind;
use crate::backend::blank_slot_model;
use crate::backend::release_ops;
use crate::backend::released;
use crate::geometry::Size2D;
use crate::options::SurfaceFormat;

verus! {

/// The read-only capability shared by every surface kind: its handle, its
/// pixel dimensions and its pixel format.
pub trait SourceSurfaceMethods {
    /// The backend handle this surface wraps.
    spec fn azure_surface(&self) -> Handle;

    fn get_azure_source_surface(&self) -> (h: Handle)
        ensures
            h == self.azure_surface(),
    ;

    /// The surface's pixel dimensions, as the backend reports them.
    fn size(&self, backend: &Backend) -> (s: Size2D<i32>)
        requires
            backend@.inv(),
            backend@.live_surface(self.azure_surface()),
        ensures
            s.width == backend@.slot(self.azure_surface()).size.width,
            s.height == backend@.slot(self.azure_surface()).size.height,
    ;

    /// The surface's pixel format. The backend contract guarantees a code
    /// of the closed four-element set, so the mapping is total here.
    fn format(&self, backend: &Backend) -> (f: SurfaceFormat)
        requires
            backend@.inv(),
            backend@.live_surface(self.azure_surface()),
        ensures
            f == SurfaceFormat::spec_of_code(backend@.slot(self.azure_surface()).format),
    ;
}

/// Owns one backend source-surface handle.
pub struct SourceSurface {
    pub azure_source_surface: Handle,
}

impl SourceSurface {
    /// The surface's handle is live in the backend and of the right kind.
    pub open spec fn wf(self, b: BackendModel) -> bool {
        b.live_as(self.azure_source_surface, HandleKind::SourceSurface)
    }

    /// Wraps a backend surface handle, taking over its release obligation.
    pub fn new(azure_source_surface: Handle) -> (s: SourceSurface)
        ensures
            s.azure_source_surface == azure_source_surface,
    {
        SourceSurface { azure_source_surface }
    }

    /// A fresh data surface exposing this surface's pixel bytes. The
    /// conversion is non-destructive: this surface stays live and keeps its
    /// own release obligation.
    pub fn get_data_surface(&self, backend: &mut Backend) -> (d: DataSourceSurface)
        requires
            old(backend)@.inv(),
            self.wf(old(backend)@),
        ensures
            final(backend)@.inv(),
            self.wf(final(backend)@),
            d.wf(final(backend)@),
            d.azure_data_source_surface == old(backend)@.slots.len(),
            final(backend)@.slots == old(backend)@.slots.push(
                crate::backend::SlotModel {
                    size: old(backend)@.slot(self.azure_source_surface).size,
                    format: old(backend)@.slot(self.azure_source_surface).format,
                    stride: old(backend)@.slot(self.azure_source_surface).stride,
                    data: old(backend)@.slot(self.azure_source_surface).data,
                    ..blank_slot_model(HandleKind::DataSourceSurface)
                },
            ),
            final(backend)@.ops == old(backend)@.ops.push(
                BackendOp::GetDataSurface {
                    surface: self.azure_source_surface,
                    data_surface: d.azure_data_source_surface,
                },
            ),
            final(backend)@.slot(d.azure_data_source_surface).data == old(backend)@.slot(
                self.azure_source_surface,
            ).data,
    {
        let h = backend.source_surface_get_data_surface(self.azure_source_surface);
        DataSourceSurface { azure_data_source_surface: h }
    }

    /// Gives the surface's one reference back to the backend, which then
    /// destroys it.
    pub fn release(self, backend: &mut Backend)
        requires
            old(backend)@.inv(),
            self.wf(old(backend)@),
        ensures
            final(backend)@.inv(),
            final(backend)@.slots == old(backend)@.slots.update(
                self.azure_source_surface as int,
                released(old(backend)@.slot(self.azure_source_surface)),
            ),
            final(backend)@.ops == old(backend)@.ops + release_ops(
                HandleKind::SourceSurface,
                self.azure_source_surface,
                old(backend)@.slot(self.azure_source_surface).refs,
            ),
    {
        backend.release(self.azure_source_surface);
    }
}

impl SourceSurfaceMethods for SourceSurface {
    open spec fn azure_surface(&self) -> Handle {
        self.azure_source_surface
    }

    fn get_azure_source_surface(&self) -> Handle {
        self.azure_source_surface
    }

    fn size(&self, backend: &Backend) -> Size2D<i32> {
        let s = backend.source_surface_get_size(self.azure_source_surface);
        Size2D { width: s.width, height: s.height }
    }

    fn format(&self, backend: &Backend) -> SurfaceFormat {
        let code = backend.source_surface_get_format(self.azure_source_surface);
        SurfaceFormat::new(code)
    }
}

/// Owns one backend data-surface handle, exposing direct read access to the
/// underlying pixel bytes.
pub struct DataSourceSurface {
    pub azure_data_source_surface: Handle,
}

impl DataSourceSurface {
    /// The surface's handle is live in the backend and of the right kind.
    pub open spec fn wf(self, b: BackendModel) -> bool {
        b.live_as(self.azure_data_source_surface, HandleKind::DataSourceSurface)
    }

    /// Scoped, read-only access to the raw pixel bytes: exactly
    /// `stride() * height` of them, borrowed for as long as the backend is.
    pub fn with_data<'a>(&self, backend: &'a Backend) -> (data: &'a [u8])
        requires
            backend@.inv(),
            self.wf(backend@),
        ensures
            data@ == backend@.slot(self.azure_data_source_surface).data,
            data@.len() == backend@.slot(self.azure_data_source_surface).stride * backend@.slot(
                self.azure_data_source_surface,
            ).size.height,
    {
        backend.data_surface_get_data(self.azure_data_source_surface)
    }

    /// The byte width of one pixel row.
    pub fn stride(&self, backend: &Backend) -> (stride: i32)
        requires
            backend@.inv(),
            self.wf(backend@),
        ensures
            stride == backend@.slot(self.azure_data_source_surface).stride,
    {
        backend.data_surface_get_stride(self.azure_data_source_surface)
    }

    /// The surface's pixel dimensions.
    pub fn get_size(&self, backend: &Backend) -> (s: Size2D<i32>)
        requires
            backend@.inv(),
            self.wf(backend@),
        ensures
            s.width == backend@.slot(self.azure_data_source_surface).size.width,
            s.height == backend@.slot(self.azure_data_source_surface).size.height,
    {
        self.size(backend)
    }

    /// Gives the surface's one reference back to the backend, which then
    /// destroys it.
    pub fn release(self, backend: &mut Backend)
        requires
            old(backend)@.inv(),
            self.wf(old(backend)@),
        ensures
            final(backend)@.inv(),
            final(backend)@.slots == old(backend)@.slots.update(
                self.azure_data_source_surface as int,
                released(old(backend)@.slot(self.azure_data_source_surface)),
            ),
            final(backend)@.ops == old(backend)@.ops + release_ops(
                HandleKind::DataSourceSurface,
                self.azure_data_source_surface,
                old(backend)@.slot(self.azure_data_source_surface).refs,
            ),
    {
        backend.release(self.azure_data_source_surface);
    }
}

impl SourceSurfaceMethods for DataSourceSurface {
    open spec fn azure_surface(&self) -> Handle {
        self.azure_data_source_surface
    }

    fn get_azure_source_surface(&self) -> Handle {
        self.azure_data_source_surface
    }

    fn size(&self, backend: &Backend) -> Size2D<i32> {
        let s = backend.source_surface_get_size(self.azure_data_source_surface);
        Size2D { width: s.width, height: s.height }
    }

    fn format(&self, backend: &Backend) -> SurfaceFormat {
        let code = backend.source_surface_get_format(self.azure_data_source_surface);
        SurfaceFormat::new(code)
    }
}

} // verus!
