//! Paths and the builders that produce them.
//!
//! A path builder starts empty and accumulates an ordered sequence of move
//! and line commands; `finish` freezes exactly the commands issued so far
//! into an immutable path. The builder stays usable afterwards: a second
//! `finish` freezes the backend's then-current accumulated state, including
//! anything added in between, so a producer wanting single-shot semantics
//! must not touch the builder after finishing.

use vstd::prelude::*;

use crate::backend::Backend;
use crate::backend::BackendModel;
use crate::backend::BackendOp;
use crate::backend::Handle;
use crate::backend::HandleKind;
use crate::backend::PathOp;
use crate::backend::path_slot_model;
use crate::backend::release_ops;
use crate::backend::released;
use crate::backend::with_cmd;
use crate::geometry::AsAzurePoint;
use crate::geometry::AzFloat;
use crate::geometry::Point2D;
use crate::geometry::spec_azure_point;

verus! {

/// Owns one immutable backend path handle, produced only by finishing a
/// builder.
pub struct Path {
    pub azure_path: Handle,
}

impl Path {
    /// The path's handle is live in the backend and of the right kind.
    pub open spec fn wf(self, b: BackendModel) -> bool {
        b.live_as(self.azure_path, HandleKind::Path)
    }

    /// The commands the path was frozen from.
    pub open spec fn cmds(self, b: BackendModel) -> Seq<PathOp> {
        b.slot(self.azure_path).cmds
    }

    /// Gives the path's one reference back to the backend, which then
    /// destroys it.
    pub fn release(self, backend: &mut Backend)
        requires
            old(backend)@.inv(),
            self.wf(old(backend)@),
        ensures
            final(backend)@.inv(),
            final(backend)@.slots == old(backend)@.slots.update(
                self.azure_path as int,
                released(old(backend)@.slot(self.azure_path)),
            ),
            final(backend)@.ops == old(backend)@.ops + release_ops(
                HandleKind::Path,
                self.azure_path,
                old(backend)@.slot(self.azure_path).refs,
            ),
    {
        backend.release(self.azure_path);
    }
}

/// Owns one backend path-builder handle, tied to the draw target that
/// created it.
pub struct PathBuilder {
    pub azure_path_builder: Handle,
}

impl PathBuilder {
    /// The builder's handle is live in the backend and of the right kind.
    pub open spec fn wf(self, b: BackendModel) -> bool {
        b.live_as(self.azure_path_builder, HandleKind::PathBuilder)
    }

    /// The commands the builder has accumulated so far, in issue order.
    pub open spec fn cmds(self, b: BackendModel) -> Seq<PathOp> {
        b.slot(self.azure_path_builder).cmds
    }

    /// Appends a move command.
    pub fn move_to(&self, point: Point2D<AzFloat>, backend: &mut Backend)
        requires
            old(backend)@.inv(),
            self.wf(old(backend)@),
        ensures
            final(backend)@.inv(),
            self.wf(final(backend)@),
            final(backend)@.slots == old(backend)@.slots.update(
                self.azure_path_builder as int,
                with_cmd(
                    old(backend)@.slot(self.azure_path_builder),
                    PathOp::MoveTo(spec_azure_point(point)),
                ),
            ),
            final(backend)@.ops == old(backend)@.ops.push(
                BackendOp::PathMoveTo {
                    builder: self.azure_path_builder,
                    point: spec_azure_point(point),
                },
            ),
            self.cmds(final(backend)@) == self.cmds(old(backend)@).push(
                PathOp::MoveTo(spec_azure_point(point)),
            ),
    {
        let az_point = point.as_azure_point();
        backend.path_builder_move_to(self.azure_path_builder, az_point);
    }

    /// Appends a line command.
    pub fn line_to(&self, point: Point2D<AzFloat>, backend: &mut Backend)
        requires
            old(backend)@.inv(),
            self.wf(old(backend)@),
        ensures
            final(backend)@.inv(),
            self.wf(final(backend)@),
            final(backend)@.slots == old(backend)@.slots.update(
                self.azure_path_builder as int,
                with_cmd(
                    old(backend)@.slot(self.azure_path_builder),
                    PathOp::LineTo(spec_azure_point(point)),
                ),
            ),
            final(backend)@.ops == old(backend)@.ops.push(
                BackendOp::PathLineTo {
                    builder: self.azure_path_builder,
                    point: spec_azure_point(point),
                },
            ),
            self.cmds(final(backend)@) == self.cmds(old(backend)@).push(
                PathOp::LineTo(spec_azure_point(point)),
            ),
    {
        let az_point = point.as_azure_point();
        backend.path_builder_line_to(self.azure_path_builder, az_point);
    }

    /// Freezes the commands issued so far into a fresh immutable path. The
    /// builder keeps its handle, its commands and its release obligation.
    pub fn finish(&self, backend: &mut Backend) -> (path: Path)
        requires
            old(backend)@.inv(),
            self.wf(old(backend)@),
        ensures
            final(backend)@.inv(),
            self.wf(final(backend)@),
            path.wf(final(backend)@),
            path.azure_path == old(backend)@.slots.len(),
            final(backend)@.slots == old(backend)@.slots.push(
                path_slot_model(self.cmds(old(backend)@)),
            ),
            final(backend)@.ops == old(backend)@.ops.push(
                BackendOp::PathFinish { builder: self.azure_path_builder, path: path.azure_path },
            ),
            path.cmds(final(backend)@) == self.cmds(old(backend)@),
            self.cmds(final(backend)@) == self.cmds(old(backend)@),
    {
        let h = backend.path_builder_finish(self.azure_path_builder);
        Path { azure_path: h }
    }

    /// Gives the builder's one reference back to the backend, which then
    /// destroys it, whether or not `finish` was ever called.
    pub fn release(self, backend: &mut Backend)
        requires
            old(backend)@.inv(),
            self.wf(old(backend)@),
        ensures
            final(backend)@.inv(),
            final(backend)@.slots == old(backend)@.slots.update(
                self.azure_path_builder as int,
                released(old(backend)@.slot(self.azure_path_builder)),
            ),
            final(backend)@.ops == old(backend)@.ops + release_ops(
                HandleKind::PathBuilder,
                self.azure_path_builder,
                old(backend)@.slot(self.azure_path_builder).refs,
            ),
    {
        backend.release(self.azure_path_builder);
    }
}

} // verus!
