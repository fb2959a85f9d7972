//! High-level, verified bindings to a native 2D rendering backend.
//!
//! The library wraps the backend's opaque handles (draw targets, surfaces,
//! paths, shared GL contexts) in ownership-tracked types, packs user-facing
//! drawing parameters into the bit-field layouts the backend expects, and
//! tracks the backend's reference-counting ledger so that every handle is
//! retained and released in balance.

pub mod backend;
pub mod draw_target;
pub mod geometry;
pub mod options;
pub mod path;
pub mod pattern;
pub mod surface;

pub use backend::AzGlyphBuffer;
pub use backend::AzGlyphRenderingOptionsRef;
pub use backend::AzScaledFontRef;
pub use backend::Backend;
pub use backend::BackendModel;
pub use backend::BackendOp;
pub use backend::Glyph;
pub use backend::Handle;
pub use backend::HandleKind;
pub use backend::PathOp;
pub use backend::SlotModel;
pub use draw_target::DrawTarget;
pub use draw_target::NativePaintingGraphicsContext;
pub use draw_target::StolenGLResources;
pub use draw_target::clone_mutable_draw_target;
pub use path::Path;
pub use path::PathBuilder;
pub use pattern::ColorPattern;
pub use surface::DataSourceSurface;
pub use surface::SourceSurface;
pub use surface::SourceSurfaceMethods;

pub use geometry::AsAzureIntSize;
pub use geometry::AsAzurePoint;
pub use geometry::AsAzureRect;
pub use geometry::AzFloat;
pub use geometry::AzIntSize;
pub use geometry::AzMatrix;
pub use geometry::AzPoint;
pub use geometry::AzRect;
pub use geometry::Matrix2D;
pub use geometry::Point2D;
pub use geometry::Rect;
pub use geometry::Size2D;
pub use options::AzColor;
pub use options::AzDrawOptions;
pub use options::AzDrawSurfaceOptions;
pub use options::AzStrokeOptions;
pub use options::BackendType;
pub use options::Color;
pub use options::CompositionOp;
pub use options::DrawOptions;
pub use options::DrawSurfaceOptions;
pub use options::Filter;
pub use options::StrokeOptions;
pub use options::SurfaceFormat;
pub use options::AZ_CAP_BUTT;
pub use options::AZ_JOIN_MITER_OR_BEVEL;
