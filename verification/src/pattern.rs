//! The color-pattern resource handle.

use vstd::prelude::*;

use crate::backend::Backend;
use crate::backend::BackendModel;
use crate::backend::BackendOp;
use crate::backend::Handle;
use crate::backend::HandleKind;
use crate::backend::blank_slot_model;
use crate::backend::release_ops;
use crate::backend::released;
use crate::options::Color;
use crate::options::spec_azure_color;

verus! {

/// Owns one backend pattern handle, created from an RGBA color. Not
/// shareable: the sole owner carries the release obligation.
pub struct ColorPattern {
    pub azure_color_pattern: Handle,
}

impl ColorPattern {
    /// The pattern's handle is live in the backend and of the right kind.
    pub open spec fn wf(self, b: BackendModel) -> bool {
        b.live_as(self.azure_color_pattern, HandleKind::ColorPattern)
    }

    /// A fresh pattern over the given color.
    pub fn new(color: Color, backend: &mut Backend) -> (p: ColorPattern)
        requires
            old(backend)@.inv(),
        ensures
            final(backend)@.inv(),
            p.wf(final(backend)@),
            p.azure_color_pattern == old(backend)@.slots.len(),
            final(backend)@.slots == old(backend)@.slots.push(
                blank_slot_model(HandleKind::ColorPattern),
            ),
            final(backend)@.ops == old(backend)@.ops.push(
                BackendOp::CreateColorPattern {
                    pattern: p.azure_color_pattern,
                    color: spec_azure_color(color),
                },
            ),
    {
        let azure_color = color.as_azure_color();
        let h = backend.create_color_pattern(azure_color);
        ColorPattern { azure_color_pattern: h }
    }

    /// Gives the pattern's one reference back to the backend, which then
    /// destroys it: the owner's release obligation, discharged exactly once
    /// because it consumes the pattern.
    pub fn release(self, backend: &mut Backend)
        requires
            old(backend)@.inv(),
            self.wf(old(backend)@),
        ensures
            final(backend)@.inv(),
            final(backend)@.slots == old(backend)@.slots.update(
                self.azure_color_pattern as int,
                released(old(backend)@.slot(self.azure_color_pattern)),
            ),
            final(backend)@.ops == old(backend)@.ops + release_ops(
                HandleKind::ColorPattern,
                self.azure_color_pattern,
                old(backend)@.slot(self.azure_color_pattern).refs,
            ),
    {
        backend.release(self.azure_color_pattern);
    }
}

} // verus!
