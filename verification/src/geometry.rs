//! Engine-native geometry types and their conversion into the wire layout
//! expected by the graphics backend.
//!
//! The backend's scalar type is a 32-bit float. This library never interprets
//! coordinates numerically; it forwards them bit-for-bit. A coordinate is
//! therefore carried as [`AzFloat`], the IEEE 754 single-precision bit
//! pattern, and callers convert with `f32::to_bits` / `f32::from_bits` at the
//! boundary.

use vstd::prelude::*;

verus! {

/// The bit pattern of the backend's 32-bit float scalar, carried opaquely.
pub type AzFloat = u32;

/// A point in the engine's own representation.
#[derive(Clone, Copy, Debug, PartialEq, Eq, Structural)]
pub struct Point2D<T> {
    pub x: T,
    pub y: T,
}

/// A size in the engine's own representation.
#[derive(Clone, Copy, Debug, PartialEq, Eq, Structural)]
pub struct Size2D<T> {
    pub width: T,
    pub height: T,
}

/// An axis-aligned rectangle in the engine's own representation.
#[derive(Clone, Copy, Debug, PartialEq, Eq, Structural)]
pub struct Rect<T> {
    pub origin: Point2D<T>,
    pub size: Size2D<T>,
}

/// A 2D affine transform, row-major, as the engine carries it.
#[derive(Clone, Copy, Debug, PartialEq, Eq, Structural)]
pub struct Matrix2D {
    pub m11: AzFloat,
    pub m12: AzFloat,
    pub m21: AzFloat,
    pub m22: AzFloat,
    pub m31: AzFloat,
    pub m32: AzFloat,
}

/// The backend's wire layout for a point.
#[derive(Clone, Copy, Debug, PartialEq, Eq, Structural)]
pub struct AzPoint {
    pub x: AzFloat,
    pub y: AzFloat,
}

/// The backend's wire layout for a rectangle.
#[derive(Clone, Copy, Debug, PartialEq, Eq, Structural)]
pub struct AzRect {
    pub x: AzFloat,
    pub y: AzFloat,
    pub width: AzFloat,
    pub height: AzFloat,
}

/// The backend's wire layout for an integer size.
#[derive(Clone, Copy, Debug, PartialEq, Eq, Structural)]
pub struct AzIntSize {
    pub width: i32,
    pub height: i32,
}

/// The backend's wire layout for a 2D transform.
#[derive(Clone, Copy, Debug, PartialEq, Eq, Structural)]
pub struct AzMatrix {
    pub m11: AzFloat,
    pub m12: AzFloat,
    pub m21: AzFloat,
    pub m22: AzFloat,
    pub m31: AzFloat,
    pub m32: AzFloat,
}

/// The wire rectangle that a given engine rectangle converts to.
pub open spec fn spec_azure_rect(r: Rect<AzFloat>) -> AzRect {
    AzRect { x: r.origin.x, y: r.origin.y, width: r.size.width, height: r.size.height }
}

/// The wire size that a given engine size converts to.
pub open spec fn spec_azure_int_size(s: Size2D<i32>) -> AzIntSize {
    AzIntSize { width: s.width, height: s.height }
}

/// The wire point that a given engine point converts to.
pub open spec fn spec_azure_point(p: Point2D<AzFloat>) -> AzPoint {
    AzPoint { x: p.x, y: p.y }
}

/// The wire transform that a given engine transform converts to.
pub open spec fn spec_azure_matrix(m: Matrix2D) -> AzMatrix {
    AzMatrix { m11: m.m11, m12: m.m12, m21: m.m21, m22: m.m22, m31: m.m31, m32: m.m32 }
}

/// Conversion of an engine rectangle into the backend's wire layout.
pub trait AsAzureRect {
    /// The wire rectangle this value converts to.
    spec fn azure_rect(&self) -> AzRect;

    fn as_azure_rect(&self) -> (r: AzRect)
        ensures
            r == self.azure_rect(),
    ;
}

impl AsAzureRect for Rect<AzFloat> {
    open spec fn azure_rect(&self) -> AzRect {
        spec_azure_rect(*self)
    }

    fn as_azure_rect(&self) -> AzRect {
        AzRect {
            x: self.origin.x,
            y: self.origin.y,
            width: self.size.width,
            height: self.size.height,
        }
    }
}

/// Conversion of an engine size into the backend's wire layout.
pub trait AsAzureIntSize {
    /// The wire size this value converts to.
    spec fn azure_int_size(&self) -> AzIntSize;

    fn as_azure_int_size(&self) -> (s: AzIntSize)
        ensures
            s == self.azure_int_size(),
    ;
}

impl AsAzureIntSize for Size2D<i32> {
    open spec fn azure_int_size(&self) -> AzIntSize {
        spec_azure_int_size(*self)
    }

    fn as_azure_int_size(&self) -> AzIntSize {
        AzIntSize { width: self.width, height: self.height }
    }
}

/// Conversion of an engine point into the backend's wire layout.
pub trait AsAzurePoint {
    /// The wire point this value converts to.
    spec fn azure_point(&self) -> AzPoint;

    fn as_azure_point(&self) -> (p: AzPoint)
        ensures
            p == self.azure_point(),
    ;
}

impl AsAzurePoint for Point2D<AzFloat> {
    open spec fn azure_point(&self) -> AzPoint {
        spec_azure_point(*self)
    }

    fn as_azure_point(&self) -> AzPoint {
        AzPoint { x: self.x, y: self.y }
    }
}

impl Matrix2D {
    /// The backend's wire layout of this transform.
    pub fn as_azure_matrix(&self) -> (m: AzMatrix)
        ensures
            m == spec_azure_matrix(*self),
    {
        AzMatrix {
            m11: self.m11,
            m12: self.m12,
            m21: self.m21,
            m22: self.m22,
            m31: self.m31,
            m32: self.m32,
        }
    }
}

} // verus!
