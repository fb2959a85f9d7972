//! The graphics backend's call contract, held to by a ledger.
//!
//! The native backend is an external collaborator reached through a fixed
//! set of entry points: it hands out opaque, reference-counted handles and
//! receives geometry, color and option structures in its wire layout. This
//! module states that contract as data. A [`Backend`] value records, for
//! every handle the backend has handed out, its kind, its current reference
//! count and whether it has been destroyed, together with the per-handle
//! state the contract guarantees (a draw target's size and clip-stack depth,
//! a path builder's accumulated commands, a data surface's pixel bytes), and
//! it logs every call as a [`BackendOp`]. Each method of [`Backend`] stands
//! for one backend entry point and states exactly what the call does to the
//! ledger and what it appends to the log.
//!
//! The wrapper types of this library drive a [`Backend`] passed to them
//! explicitly; the foreign-function glue that would forward each logged
//! call to the native library is no part of the verified library.

use vstd::prelude::*;

use crate::geometry::AzIntSize;
use crate::geometry::AzMatrix;
use crate::geometry::AzPoint;
use crate::geometry::AzRect;
use crate::options::AzColor;
use crate::options::AzDrawOptions;
use crate::options::AzDrawSurfaceOptions;
use crate::options::AzStrokeOptions;

verus! {

/// An opaque backend handle.
pub type Handle = u64;

/// An opaque reference to a scaled font owned by another subsystem.
pub type AzScaledFontRef = u64;

/// An opaque reference to glyph-rendering options owned by another
/// subsystem.
pub type AzGlyphRenderingOptionsRef = u64;

/// The kinds of resource the backend hands out handles to.
#[derive(Clone, Copy, Debug, PartialEq, Eq, Structural)]
pub enum HandleKind {
    DrawTarget,
    ColorPattern,
    Path,
    PathBuilder,
    SourceSurface,
    DataSourceSurface,
    GlContext,
    GlSurface,
}

/// One command accumulated by a path builder.
#[derive(Clone, Copy, Debug, PartialEq, Eq, Structural)]
pub enum PathOp {
    MoveTo(AzPoint),
    LineTo(AzPoint),
}

/// One positioned glyph, as handed to the backend.
#[derive(Clone, Copy, Debug, PartialEq, Eq, Structural)]
pub struct Glyph {
    pub index: u32,
    pub position: AzPoint,
}

/// A run of positioned glyphs, as handed to the backend.
#[derive(Clone, Debug, PartialEq, Eq)]
pub struct AzGlyphBuffer {
    pub glyphs: Vec<Glyph>,
}

/// One call into the backend, with the wire-layout values it was passed.
/// `Destroy` records the backend freeing a resource whose reference count
/// reached zero; every other variant is a call this library issued.
#[derive(Clone, Copy, Debug, PartialEq, Eq)]
pub enum BackendOp {
    CreateColorPattern { pattern: Handle, color: AzColor },
    CreateDrawTarget { target: Handle, backend_type: u32, size: AzIntSize, format: u32 },
    CreateDrawTargetForData {
        target: Handle,
        backend_type: u32,
        size: AzIntSize,
        stride: i32,
        format: u32,
    },
    CreateSkiaSharedGlContext { context: Handle, native_context: u64, size: AzIntSize },
    CreateSkiaDrawTargetForFbo { target: Handle, context: Handle, size: AzIntSize, format: u32 },
    Retain { kind: HandleKind, handle: Handle },
    Release { kind: HandleKind, handle: Handle },
    Destroy { kind: HandleKind, handle: Handle },
    MakeCurrent { context: Handle },
    StealSurface { context: Handle, surface: Handle },
    Flush { target: Handle },
    ContextFlush { context: Handle },
    ClearRect { target: Handle, rect: AzRect },
    Fill { target: Handle, path: Handle, pattern: Handle, options: AzDrawOptions },
    FillRect { target: Handle, rect: AzRect, pattern: Handle, options: Option<AzDrawOptions> },
    StrokeLine {
        target: Handle,
        start: AzPoint,
        end: AzPoint,
        pattern: Handle,
        stroke: AzStrokeOptions,
        options: AzDrawOptions,
    },
    StrokeRect {
        target: Handle,
        rect: AzRect,
        pattern: Handle,
        stroke: AzStrokeOptions,
        options: AzDrawOptions,
    },
    DrawSurface {
        target: Handle,
        surface: Handle,
        dest: AzRect,
        source: AzRect,
        surface_options: AzDrawSurfaceOptions,
        options: AzDrawOptions,
    },
    Snapshot { target: Handle, surface: Handle },
    CreateSourceSurfaceFromData {
        target: Handle,
        surface: Handle,
        size: AzIntSize,
        stride: i32,
        format: u32,
    },
    SetTransform { target: Handle, matrix: AzMatrix },
    FillGlyphs {
        target: Handle,
        font: AzScaledFontRef,
        glyph_count: u32,
        pattern: Handle,
        options: AzDrawOptions,
        rendering_options: AzGlyphRenderingOptionsRef,
    },
    CreatePathBuilder { target: Handle, builder: Handle },
    PathMoveTo { builder: Handle, point: AzPoint },
    PathLineTo { builder: Handle, point: AzPoint },
    PathFinish { builder: Handle, path: Handle },
    PushClip { target: Handle, path: Handle },
    PopClip { target: Handle },
    GetDataSurface { surface: Handle, data_surface: Handle },
}

/// The ledger's record of one handle.
struct Slot {
    kind: HandleKind,
    refs: u64,
    destroys: u64,
    size: AzIntSize,
    format: u32,
    stride: i32,
    clip_depth: u64,
    stolen: bool,
    cmds: Vec<PathOp>,
    data: Vec<u8>,
}

/// The mathematical model of one handle's record.
pub ghost struct SlotModel {
    pub kind: HandleKind,
    /// The backend-side reference count; zero once destroyed.
    pub refs: nat,
    /// How many times the backend has destroyed the resource: zero or one.
    pub destroys: nat,
    /// Pixel dimensions of a draw target or surface.
    pub size: AzIntSize,
    /// Pixel-format code of a draw target or surface.
    pub format: u32,
    /// Bytes per pixel row of a surface.
    pub stride: i32,
    /// Depth of a draw target's clip stack.
    pub clip_depth: nat,
    /// Whether a GL context's native surface has been extracted.
    pub stolen: bool,
    /// Commands accumulated by a path builder, or frozen into a path.
    pub cmds: Seq<PathOp>,
    /// Pixel bytes a surface exposes or a draw target was bound over.
    pub data: Seq<u8>,
}

/// The mathematical model of the backend: one record per handle, handles
/// being indices into the sequence, and the log of every call made.
pub ghost struct BackendModel {
    pub slots: Seq<SlotModel>,
    pub ops: Seq<BackendOp>,
}

impl View for Slot {
    type V = SlotModel;

    closed spec fn view(&self) -> SlotModel {
        SlotModel {
            kind: self.kind,
            refs: self.refs as nat,
            destroys: self.destroys as nat,
            size: self.size,
            format: self.format,
            stride: self.stride,
            clip_depth: self.clip_depth as nat,
            stolen: self.stolen,
            cmds: self.cmds@,
            data: self.data@,
        }
    }
}

/// The models of a sequence of ledger records.
spec fn slot_models(s: Seq<Slot>) -> Seq<SlotModel> {
    Seq::new(s.len(), |i: int| s[i]@)
}

/// A fresh record of the given kind: one reference, never destroyed, and
/// every other field at its blank value.
pub open spec fn blank_slot_model(kind: HandleKind) -> SlotModel {
    SlotModel {
        kind,
        refs: 1,
        destroys: 0,
        size: AzIntSize { width: 0, height: 0 },
        format: 0,
        stride: 0,
        clip_depth: 0,
        stolen: false,
        cmds: Seq::empty(),
        data: Seq::empty(),
    }
}

/// A record after one retain: one more reference.
pub open spec fn retained(s: SlotModel) -> SlotModel {
    SlotModel { refs: s.refs + 1, ..s }
}

/// A record after one release: one reference fewer, and if that was the
/// last one, the resource is destroyed.
pub open spec fn released(s: SlotModel) -> SlotModel {
    if s.refs == 1 {
        SlotModel { refs: 0, destroys: s.destroys + 1, ..s }
    } else {
        SlotModel { refs: (s.refs - 1) as nat, ..s }
    }
}

/// What one release appends to the call log: the release itself and, when
/// the last reference went away, the destruction of the resource.
pub open spec fn release_ops(kind: HandleKind, handle: Handle, refs: nat) -> Seq<BackendOp> {
    if refs == 1 {
        seq![
            BackendOp::Release { kind, handle },
            BackendOp::Destroy { kind, handle },
        ]
    } else {
        seq![BackendOp::Release { kind, handle }]
    }
}

/// Bytes per pixel of a surface-format code.
pub open spec fn bytes_per_pixel(format: u32) -> int {
    if format == 2 {
        2
    } else if format == 3 {
        1
    } else {
        4
    }
}

/// Dimensions a draw target can be created with: non-negative, with a pixel
/// row that fits the backend's 32-bit stride and a pixel buffer that fits
/// in memory.
pub open spec fn draw_target_dims_ok(size: AzIntSize, format: u32) -> bool {
    &&& format < 4
    &&& 0 <= size.width
    &&& 0 <= size.height
    &&& size.width * bytes_per_pixel(format) <= i32::MAX
    &&& size.width * bytes_per_pixel(format) * size.height <= usize::MAX
}

/// What the backend contract guarantees of a surface record: a recognized
/// format, non-negative dimensions, and exactly `stride * height` exposed
/// pixel bytes.
pub open spec fn surface_slot_ok(s: SlotModel) -> bool {
    &&& s.format < 4
    &&& 0 <= s.stride
    &&& 0 <= s.size.width
    &&& 0 <= s.size.height
    &&& s.data.len() == s.stride * s.size.height
}

/// The per-record invariant of the ledger: destruction happens exactly when
/// the reference count reaches zero, and at most once; draw targets and
/// surfaces keep the dimension guarantees of the contract.
pub open spec fn slot_inv(s: SlotModel) -> bool {
    &&& s.destroys <= 1
    &&& (s.refs > 0 <==> s.destroys == 0)
    &&& (s.kind == HandleKind::DrawTarget ==> draw_target_dims_ok(s.size, s.format))
    &&& ((s.kind == HandleKind::SourceSurface || s.kind == HandleKind::DataSourceSurface)
        ==> surface_slot_ok(s))
}

impl BackendModel {
    /// Whether `h` is a handle the backend has handed out and not yet
    /// destroyed.
    pub open spec fn live(self, h: Handle) -> bool {
        h < self.slots.len() && self.slots[h as int].refs > 0
    }

    /// The record of handle `h`.
    pub open spec fn slot(self, h: Handle) -> SlotModel {
        self.slots[h as int]
    }

    /// Whether `h` is live and of kind `kind`.
    pub open spec fn live_as(self, h: Handle, kind: HandleKind) -> bool {
        self.live(h) && self.slot(h).kind == kind
    }

    /// Whether `h` is live and a surface of either kind.
    pub open spec fn live_surface(self, h: Handle) -> bool {
        self.live(h) && (self.slot(h).kind == HandleKind::SourceSurface || self.slot(h).kind
            == HandleKind::DataSourceSurface)
    }

    /// The ledger invariant, over every record.
    pub open spec fn inv(self) -> bool {
        forall|i: int| 0 <= i < self.slots.len() ==> slot_inv(#[trigger] self.slots[i])
    }
}

proof fn lemma_slot_models_update(s: Seq<Slot>, i: int, slot: Slot)
    requires
        0 <= i < s.len(),
    ensures
        slot_models(s.update(i, slot)) == slot_models(s).update(i, slot@),
{
    assert(slot_models(s.update(i, slot)) =~= slot_models(s).update(i, slot@));
}

proof fn lemma_slot_models_push(s: Seq<Slot>, slot: Slot)
    ensures
        slot_models(s.push(slot)) == slot_models(s).push(slot@),
{
    assert(slot_models(s.push(slot)) =~= slot_models(s).push(slot@));
}

/// The backend ledger: the authoritative record of every handle's state and
/// of every call made into the backend.
pub struct Backend {
    slots: Vec<Slot>,
    ops: Vec<BackendOp>,
}

impl View for Backend {
    type V = BackendModel;

    closed spec fn view(&self) -> BackendModel {
        BackendModel { slots: slot_models(self.slots@), ops: self.ops@ }
    }
}

impl Backend {
    /// A backend that has handed out no handles and received no calls.
    pub fn new() -> (b: Backend)
        ensures
            b@.slots == Seq::<SlotModel>::empty(),
            b@.ops == Seq::<BackendOp>::empty(),
            b@.inv(),
    {
        let b = Backend { slots: Vec::new(), ops: Vec::new() };
        proof {
            assert(b@.slots =~= Seq::<SlotModel>::empty());
        }
        b
    }

    /// Facts tying a model handle to its index in the ledger's record list.
    proof fn lemma_slot_at(&self, handle: Handle)
        requires
            handle < self@.slots.len(),
        ensures
            self@.slots.len() == self.slots@.len(),
            handle <= usize::MAX,
            self@.slot(handle) == self.slots@[handle as int]@,
    {
        vstd::std_specs::vec::axiom_spec_len(&self.slots);
    }

    /// Hands out the next handle for a fresh record.
    fn add_slot(&mut self, slot: Slot) -> (h: Handle)
        requires
            old(self)@.inv(),
            slot_inv(slot@),
            slot@.refs > 0,
        ensures
            final(self)@.inv(),
            h == old(self)@.slots.len(),
            final(self)@.slots == old(self)@.slots.push(slot@),
            final(self)@.ops == old(self)@.ops,
            final(self)@.live(h),
            final(self)@.slot(h) == slot@,
    {
        let h = self.slots.len() as u64;
        proof {
            vstd::std_specs::vec::axiom_spec_len(&self.slots);
            lemma_slot_models_push(self.slots@, slot);
        }
        self.slots.push(slot);
        proof {
            assert(self@.slots == old(self)@.slots.push(slot@));
            assert forall|j: int| 0 <= j < self@.slots.len() implies slot_inv(
                #[trigger] self@.slots[j],
            ) by {
                if j < old(self)@.slots.len() {
                    assert(self@.slots[j] == old(self)@.slots[j]);
                }
            }
        }
        h
    }

    /// A fresh ledger record of the given kind.
    fn blank_slot(kind: HandleKind) -> (s: Slot)
        ensures
            s@ == blank_slot_model(kind),
    {
        let s = Slot {
            kind,
            refs: 1,
            destroys: 0,
            size: AzIntSize { width: 0, height: 0 },
            format: 0,
            stride: 0,
            clip_depth: 0,
            stolen: false,
            cmds: Vec::new(),
            data: Vec::new(),
        };
        proof {
            assert(s@.cmds =~= Seq::<PathOp>::empty());
            assert(s@.data =~= Seq::<u8>::empty());
        }
        s
    }

    /// One retain call: the handle gains a reference.
    pub fn retain(&mut self, handle: Handle)
        requires
            old(self)@.inv(),
            old(self)@.live(handle),
            old(self)@.slot(handle).refs < u64::MAX,
        ensures
            final(self)@.inv(),
            final(self)@.slots == old(self)@.slots.update(
                handle as int,
                retained(old(self)@.slot(handle)),
            ),
            final(self)@.ops == old(self)@.ops.push(
                BackendOp::Retain { kind: old(self)@.slot(handle).kind, handle },
            ),
    {
        proof {
            self.lemma_slot_at(handle);
        }
        let i = handle as usize;
        let kind = self.slots[i].kind;
        let r = self.slots[i].refs;
        self.slots[i].refs = r + 1;
        proof {
            lemma_slot_models_update(old(self).slots@, i as int, self.slots@[i as int]);
            assert(self.slots@[i as int]@ == retained(old(self)@.slot(handle)));
            assert(self@.slots == old(self)@.slots.update(
                handle as int,
                retained(old(self)@.slot(handle)),
            ));
            assert(slot_inv(old(self)@.slots[handle as int]));
            assert forall|j: int| 0 <= j < self@.slots.len() implies slot_inv(
                #[trigger] self@.slots[j],
            ) by {
                if j != handle as int {
                    assert(self@.slots[j] == old(self)@.slots[j]);
                }
            }
        }
        self.ops.push(BackendOp::Retain { kind, handle });
    }

    /// One release call: the handle loses a reference, and the backend
    /// destroys the resource when the last reference goes away.
    pub fn release(&mut self, handle: Handle)
        requires
            old(self)@.inv(),
            old(self)@.live(handle),
        ensures
            final(self)@.inv(),
            final(self)@.slots == old(self)@.slots.update(
                handle as int,
                released(old(self)@.slot(handle)),
            ),
            final(self)@.ops == old(self)@.ops + release_ops(
                old(self)@.slot(handle).kind,
                handle,
                old(self)@.slot(handle).refs,
            ),
    {
        proof {
            self.lemma_slot_at(handle);
            assert(slot_inv(old(self)@.slots[handle as int]));
        }
        let i = handle as usize;
        let kind = self.slots[i].kind;
        let r = self.slots[i].refs;
        self.ops.push(BackendOp::Release { kind, handle });
        if r == 1 {
            let d = self.slots[i].destroys;
            self.slots[i].refs = 0;
            self.slots[i].destroys = d + 1;
            self.ops.push(BackendOp::Destroy { kind, handle });
        } else {
            self.slots[i].refs = r - 1;
        }
        proof {
            lemma_slot_models_update(old(self).slots@, i as int, self.slots@[i as int]);
            assert(self.slots@[i as int]@ == released(old(self)@.slot(handle)));
            assert(self@.slots == old(self)@.slots.update(
                handle as int,
                released(old(self)@.slot(handle)),
            ));
            assert(self@.ops =~= old(self)@.ops + release_ops(
                old(self)@.slot(handle).kind,
                handle,
                old(self)@.slot(handle).refs,
            ));
            assert(slot_inv(released(old(self)@.slot(handle))));
            assert forall|j: int| 0 <= j < self@.slots.len() implies slot_inv(
                #[trigger] self@.slots[j],
            ) by {
                if j != handle as int {
                    assert(self@.slots[j] == old(self)@.slots[j]);
                }
            }
        }
    }

    /// How many handles the backend has handed out.
    pub fn num_handles(&self) -> (n: u64)
        ensures
            n == self@.slots.len(),
    {
        self.slots.len() as u64
    }

    /// Whether a handle is live: handed out and not yet destroyed.
    pub fn is_live(&self, handle: Handle) -> (b: bool)
        ensures
            b == self@.live(handle),
    {
        proof {
            vstd::std_specs::vec::axiom_spec_len(&self.slots);
        }
        if handle < self.slots.len() as u64 {
            proof {
                self.lemma_slot_at(handle);
            }
            self.slots[handle as usize].refs > 0
        } else {
            false
        }
    }

    /// The current reference count of a handle.
    pub fn refcount(&self, handle: Handle) -> (r: u64)
        requires
            handle < self@.slots.len(),
        ensures
            r == self@.slot(handle).refs,
    {
        proof {
            self.lemma_slot_at(handle);
        }
        self.slots[handle as usize].refs
    }

    /// How many times the backend has destroyed the resource behind a
    /// handle: zero or one.
    pub fn destroy_count(&self, handle: Handle) -> (d: u64)
        requires
            handle < self@.slots.len(),
        ensures
            d == self@.slot(handle).destroys,
    {
        proof {
            self.lemma_slot_at(handle);
        }
        self.slots[handle as usize].destroys
    }

    /// How many commands a path or path builder holds.
    pub fn cmd_count(&self, handle: Handle) -> (n: usize)
        requires
            handle < self@.slots.len(),
        ensures
            n == self@.slot(handle).cmds.len(),
    {
        proof {
            self.lemma_slot_at(handle);
        }
        self.slots[handle as usize].cmds.len()
    }

    /// The `i`-th command of a path or path builder.
    pub fn cmd_at(&self, handle: Handle, i: usize) -> (cmd: PathOp)
        requires
            handle < self@.slots.len(),
            i < self@.slot(handle).cmds.len(),
        ensures
            cmd == self@.slot(handle).cmds[i as int],
    {
        proof {
            self.lemma_slot_at(handle);
        }
        self.slots[handle as usize].cmds[i]
    }

    /// How many calls the backend has received.
    pub fn ops_len(&self) -> (n: usize)
        ensures
            n == self@.ops.len(),
    {
        self.ops.len()
    }

    /// The `i`-th call the backend received.
    pub fn op_at(&self, i: usize) -> (op: BackendOp)
        requires
            i < self@.ops.len(),
        ensures
            op == self@.ops[i as int],
    {
        self.ops[i]
    }
}

/// The record of a blank draw target of the given size and format.
pub open spec fn draw_target_slot_model(size: AzIntSize, format: u32) -> SlotModel {
    SlotModel { size, format, ..blank_slot_model(HandleKind::DrawTarget) }
}

/// The record of a draw target bound over a caller-supplied pixel buffer:
/// the backend may read the buffer for as long as the target lives, so the
/// record captures it.
pub open spec fn draw_target_data_slot_model(
    size: AzIntSize,
    stride: i32,
    format: u32,
    data: Seq<u8>,
) -> SlotModel {
    SlotModel { size, format, stride, data, ..blank_slot_model(HandleKind::DrawTarget) }
}

/// The record of a source surface created over caller-supplied pixel bytes.
pub open spec fn surface_data_slot_model(
    size: AzIntSize,
    stride: i32,
    format: u32,
    data: Seq<u8>,
) -> SlotModel {
    SlotModel { size, format, stride, data, ..blank_slot_model(HandleKind::SourceSurface) }
}

/// The pixel row width, in bytes, the backend gives a snapshot of a draw
/// target: the target's width times the format's bytes per pixel.
pub open spec fn snapshot_stride(s: SlotModel) -> int {
    s.size.width * bytes_per_pixel(s.format)
}

/// The record of an immutable path frozen from the given commands.
pub open spec fn path_slot_model(cmds: Seq<PathOp>) -> SlotModel {
    SlotModel { cmds, ..blank_slot_model(HandleKind::Path) }
}

/// A path builder's record after one more command.
pub open spec fn with_cmd(s: SlotModel, op: PathOp) -> SlotModel {
    SlotModel { cmds: s.cmds.push(op), ..s }
}

/// A draw target's record after a clip is pushed.
pub open spec fn with_clip_pushed(s: SlotModel) -> SlotModel {
    SlotModel { clip_depth: s.clip_depth + 1, ..s }
}

/// A draw target's record after a clip is popped.
pub open spec fn with_clip_popped(s: SlotModel) -> SlotModel {
    SlotModel { clip_depth: (s.clip_depth - 1) as nat, ..s }
}

/// A GL context's record after its native surface is extracted.
pub open spec fn with_stolen(s: SlotModel) -> SlotModel {
    SlotModel { stolen: true, ..s }
}

impl Backend {
    /// Appends one call to the log, leaving every record unchanged.
    fn log_op(&mut self, op: BackendOp)
        requires
            old(self)@.inv(),
        ensures
            final(self)@.inv(),
            final(self)@.slots == old(self)@.slots,
            final(self)@.ops == old(self)@.ops.push(op),
    {
        self.ops.push(op);
        proof {
            assert(self@.slots == old(self)@.slots);
            assert forall|j: int| 0 <= j < self@.slots.len() implies slot_inv(
                #[trigger] self@.slots[j],
            ) by {
                assert(self@.slots[j] == old(self)@.slots[j]);
            }
        }
    }

    /// `AzCreateColorPattern`: a fresh color-pattern handle. The color
    /// passed is recorded in the call log.
    pub fn create_color_pattern(&mut self, color: AzColor) -> (h: Handle)
        requires
            old(self)@.inv(),
        ensures
            final(self)@.inv(),
            h == old(self)@.slots.len(),
            final(self)@.slots == old(self)@.slots.push(
                blank_slot_model(HandleKind::ColorPattern),
            ),
            final(self)@.ops == old(self)@.ops.push(
                BackendOp::CreateColorPattern { pattern: h, color },
            ),
            final(self)@.live_as(h, HandleKind::ColorPattern),
    {
        let slot = Self::blank_slot(HandleKind::ColorPattern);
        let h = self.add_slot(slot);
        self.log_op(BackendOp::CreateColorPattern { pattern: h, color });
        h
    }

    /// `AzCreateDrawTarget`: a fresh draw target over a backend-managed
    /// surface of the given size and format.
    pub fn create_draw_target(&mut self, backend_type: u32, size: AzIntSize, format: u32) -> (h:
        Handle)
        requires
            old(self)@.inv(),
            draw_target_dims_ok(size, format),
        ensures
            final(self)@.inv(),
            h == old(self)@.slots.len(),
            final(self)@.slots == old(self)@.slots.push(draw_target_slot_model(size, format)),
            final(self)@.ops == old(self)@.ops.push(
                BackendOp::CreateDrawTarget { target: h, backend_type, size, format },
            ),
            final(self)@.live_as(h, HandleKind::DrawTarget),
            final(self)@.slot(h).size == size,
    {
        let mut slot = Self::blank_slot(HandleKind::DrawTarget);
        slot.size = size;
        slot.format = format;
        let h = self.add_slot(slot);
        self.log_op(BackendOp::CreateDrawTarget { target: h, backend_type, size, format });
        h
    }

    /// `AzCreateDrawTargetForData`: a fresh draw target bound over the
    /// caller's pixel buffer, which the record captures so the backend may
    /// read it for as long as the target lives.
    pub fn create_draw_target_for_data(
        &mut self,
        backend_type: u32,
        data: Vec<u8>,
        offset: usize,
        size: AzIntSize,
        stride: i32,
        format: u32,
    ) -> (h: Handle)
        requires
            old(self)@.inv(),
            draw_target_dims_ok(size, format),
            offset < data@.len(),
            stride * size.height <= data@.len() - offset,
        ensures
            final(self)@.inv(),
            h == old(self)@.slots.len(),
            final(self)@.slots == old(self)@.slots.push(
                draw_target_data_slot_model(size, stride, format, data@),
            ),
            final(self)@.ops == old(self)@.ops.push(
                BackendOp::CreateDrawTargetForData { target: h, backend_type, size, stride, format },
            ),
            final(self)@.live_as(h, HandleKind::DrawTarget),
            final(self)@.slot(h).size == size,
    {
        let mut slot = Self::blank_slot(HandleKind::DrawTarget);
        slot.size = size;
        slot.format = format;
        slot.stride = stride;
        slot.data = data;
        let h = self.add_slot(slot);
        self.log_op(
            BackendOp::CreateDrawTargetForData { target: h, backend_type, size, stride, format },
        );
        h
    }

    /// `AzCreateSkiaSharedGLContext`: a fresh shared GL context over the
    /// platform's graphics-context descriptor, for a surface of the given
    /// size.
    pub fn create_skia_shared_gl_context(&mut self, native_context: u64, size: AzIntSize) -> (h:
        Handle)
        requires
            old(self)@.inv(),
        ensures
            final(self)@.inv(),
            h == old(self)@.slots.len(),
            final(self)@.slots == old(self)@.slots.push(blank_slot_model(HandleKind::GlContext)),
            final(self)@.ops == old(self)@.ops.push(
                BackendOp::CreateSkiaSharedGlContext { context: h, native_context, size },
            ),
            final(self)@.live_as(h, HandleKind::GlContext),
            !final(self)@.slot(h).stolen,
    {
        let slot = Self::blank_slot(HandleKind::GlContext);
        let h = self.add_slot(slot);
        self.log_op(BackendOp::CreateSkiaSharedGlContext { context: h, native_context, size });
        h
    }

    /// `AzCreateSkiaDrawTargetForFBO`: a fresh draw target bound to the
    /// frame-buffer object of a shared GL context.
    pub fn create_skia_draw_target_for_fbo(
        &mut self,
        context: Handle,
        size: AzIntSize,
        format: u32,
    ) -> (h: Handle)
        requires
            old(self)@.inv(),
            old(self)@.live_as(context, HandleKind::GlContext),
            draw_target_dims_ok(size, format),
        ensures
            final(self)@.inv(),
            h == old(self)@.slots.len(),
            final(self)@.slots == old(self)@.slots.push(draw_target_slot_model(size, format)),
            final(self)@.ops == old(self)@.ops.push(
                BackendOp::CreateSkiaDrawTargetForFbo { target: h, context, size, format },
            ),
            final(self)@.live_as(h, HandleKind::DrawTarget),
            final(self)@.slot(h).size == size,
            final(self)@.live_as(context, HandleKind::GlContext),
            final(self)@.slot(context) == old(self)@.slot(context),
    {
        let mut slot = Self::blank_slot(HandleKind::DrawTarget);
        slot.size = size;
        slot.format = format;
        let h = self.add_slot(slot);
        self.log_op(BackendOp::CreateSkiaDrawTargetForFbo { target: h, context, size, format });
        h
    }
}

impl Backend {
    /// `AzSkiaSharedGLContextMakeCurrent`: makes the context current on the
    /// calling thread. Pure call, recorded in the log.
    pub fn gl_context_make_current(&mut self, context: Handle)
        requires
            old(self)@.inv(),
            old(self)@.live_as(context, HandleKind::GlContext),
        ensures
            final(self)@.inv(),
            final(self)@.slots == old(self)@.slots,
            final(self)@.ops == old(self)@.ops.push(BackendOp::MakeCurrent { context }),
    {
        self.log_op(BackendOp::MakeCurrent { context });
    }

    /// `AzSkiaSharedGLContextFlush`: flushes the context's pending GL work.
    pub fn gl_context_flush(&mut self, context: Handle)
        requires
            old(self)@.inv(),
            old(self)@.live_as(context, HandleKind::GlContext),
        ensures
            final(self)@.inv(),
            final(self)@.slots == old(self)@.slots,
            final(self)@.ops == old(self)@.ops.push(BackendOp::ContextFlush { context }),
    {
        self.log_op(BackendOp::ContextFlush { context });
    }

    /// `AzSkiaSharedGLContextStealSurface`: extracts the context's native
    /// surface, handing its ownership to the caller; the context no longer
    /// releases it. One-shot per context.
    pub fn gl_context_steal_surface(&mut self, context: Handle) -> (h: Handle)
        requires
            old(self)@.inv(),
            old(self)@.live_as(context, HandleKind::GlContext),
            !old(self)@.slot(context).stolen,
        ensures
            final(self)@.inv(),
            h == old(self)@.slots.len(),
            final(self)@.slots == old(self)@.slots.update(
                context as int,
                with_stolen(old(self)@.slot(context)),
            ).push(blank_slot_model(HandleKind::GlSurface)),
            final(self)@.ops == old(self)@.ops.push(BackendOp::StealSurface { context, surface: h }),
            final(self)@.live_as(h, HandleKind::GlSurface),
            final(self)@.live_as(context, HandleKind::GlContext),
    {
        proof {
            self.lemma_slot_at(context);
        }
        let i = context as usize;
        self.slots[i].stolen = true;
        proof {
            lemma_slot_models_update(old(self).slots@, i as int, self.slots@[i as int]);
            assert(self.slots@[i as int]@ == with_stolen(old(self)@.slot(context)));
            assert(self@.slots == old(self)@.slots.update(
                context as int,
                with_stolen(old(self)@.slot(context)),
            ));
            assert(slot_inv(old(self)@.slots[context as int]));
            assert forall|j: int| 0 <= j < self@.slots.len() implies slot_inv(
                #[trigger] self@.slots[j],
            ) by {
                if j != context as int {
                    assert(self@.slots[j] == old(self)@.slots[j]);
                }
            }
        }
        let slot = Self::blank_slot(HandleKind::GlSurface);
        let h = self.add_slot(slot);
        self.log_op(BackendOp::StealSurface { context, surface: h });
        h
    }

    /// `AzDrawTargetGetSize`: the size the draw target was created with.
    pub fn draw_target_get_size(&self, target: Handle) -> (s: AzIntSize)
        requires
            self@.inv(),
            self@.live_as(target, HandleKind::DrawTarget),
        ensures
            s == self@.slot(target).size,
    {
        proof {
            self.lemma_slot_at(target);
        }
        self.slots[target as usize].size
    }

    /// The current depth of a draw target's clip stack.
    pub fn draw_target_clip_depth(&self, target: Handle) -> (d: u64)
        requires
            self@.inv(),
            self@.live_as(target, HandleKind::DrawTarget),
        ensures
            d == self@.slot(target).clip_depth,
    {
        proof {
            self.lemma_slot_at(target);
        }
        self.slots[target as usize].clip_depth
    }

    /// `AzDrawTargetFlush`: flushes the target's pending drawing work.
    pub fn draw_target_flush(&mut self, target: Handle)
        requires
            old(self)@.inv(),
            old(self)@.live_as(target, HandleKind::DrawTarget),
        ensures
            final(self)@.inv(),
            final(self)@.slots == old(self)@.slots,
            final(self)@.ops == old(self)@.ops.push(BackendOp::Flush { target }),
    {
        self.log_op(BackendOp::Flush { target });
    }

    /// `AzDrawTargetClearRect`: clears the rectangle to transparent black.
    pub fn draw_target_clear_rect(&mut self, target: Handle, rect: AzRect)
        requires
            old(self)@.inv(),
            old(self)@.live_as(target, HandleKind::DrawTarget),
        ensures
            final(self)@.inv(),
            final(self)@.slots == old(self)@.slots,
            final(self)@.ops == old(self)@.ops.push(BackendOp::ClearRect { target, rect }),
    {
        self.log_op(BackendOp::ClearRect { target, rect });
    }

    /// `AzDrawTargetFill`: fills a path with a pattern.
    pub fn draw_target_fill(
        &mut self,
        target: Handle,
        path: Handle,
        pattern: Handle,
        options: AzDrawOptions,
    )
        requires
            old(self)@.inv(),
            old(self)@.live_as(target, HandleKind::DrawTarget),
            old(self)@.live_as(path, HandleKind::Path),
            old(self)@.live_as(pattern, HandleKind::ColorPattern),
        ensures
            final(self)@.inv(),
            final(self)@.slots == old(self)@.slots,
            final(self)@.ops == old(self)@.ops.push(
                BackendOp::Fill { target, path, pattern, options },
            ),
    {
        self.log_op(BackendOp::Fill { target, path, pattern, options });
    }

    /// `AzDrawTargetFillRect`: fills a rectangle with a pattern, with or
    /// without explicit draw options.
    pub fn draw_target_fill_rect(
        &mut self,
        target: Handle,
        rect: AzRect,
        pattern: Handle,
        options: Option<AzDrawOptions>,
    )
        requires
            old(self)@.inv(),
            old(self)@.live_as(target, HandleKind::DrawTarget),
            old(self)@.live_as(pattern, HandleKind::ColorPattern),
        ensures
            final(self)@.inv(),
            final(self)@.slots == old(self)@.slots,
            final(self)@.ops == old(self)@.ops.push(
                BackendOp::FillRect { target, rect, pattern, options },
            ),
    {
        self.log_op(BackendOp::FillRect { target, rect, pattern, options });
    }

    /// `AzDrawTargetStrokeLine`: strokes a line with a pattern.
    pub fn draw_target_stroke_line(
        &mut self,
        target: Handle,
        start: AzPoint,
        end: AzPoint,
        pattern: Handle,
        stroke: AzStrokeOptions,
        options: AzDrawOptions,
    )
        requires
            old(self)@.inv(),
            old(self)@.live_as(target, HandleKind::DrawTarget),
            old(self)@.live_as(pattern, HandleKind::ColorPattern),
        ensures
            final(self)@.inv(),
            final(self)@.slots == old(self)@.slots,
            final(self)@.ops == old(self)@.ops.push(
                BackendOp::StrokeLine { target, start, end, pattern, stroke, options },
            ),
    {
        self.log_op(BackendOp::StrokeLine { target, start, end, pattern, stroke, options });
    }

    /// `AzDrawTargetStrokeRect`: strokes a rectangle's outline.
    pub fn draw_target_stroke_rect(
        &mut self,
        target: Handle,
        rect: AzRect,
        pattern: Handle,
        stroke: AzStrokeOptions,
        options: AzDrawOptions,
    )
        requires
            old(self)@.inv(),
            old(self)@.live_as(target, HandleKind::DrawTarget),
            old(self)@.live_as(pattern, HandleKind::ColorPattern),
        ensures
            final(self)@.inv(),
            final(self)@.slots == old(self)@.slots,
            final(self)@.ops == old(self)@.ops.push(
                BackendOp::StrokeRect { target, rect, pattern, stroke, options },
            ),
    {
        self.log_op(BackendOp::StrokeRect { target, rect, pattern, stroke, options });
    }

    /// `AzDrawTargetDrawSurface`: draws a region of a source surface into a
    /// region of the target.
    pub fn draw_target_draw_surface(
        &mut self,
        target: Handle,
        surface: Handle,
        dest: AzRect,
        source: AzRect,
        surface_options: AzDrawSurfaceOptions,
        options: AzDrawOptions,
    )
        requires
            old(self)@.inv(),
            old(self)@.live_as(target, HandleKind::DrawTarget),
            old(self)@.live_as(surface, HandleKind::SourceSurface),
        ensures
            final(self)@.inv(),
            final(self)@.slots == old(self)@.slots,
            final(self)@.ops == old(self)@.ops.push(
                BackendOp::DrawSurface { target, surface, dest, source, surface_options, options },
            ),
    {
        self.log_op(
            BackendOp::DrawSurface { target, surface, dest, source, surface_options, options },
        );
    }

    /// `AzDrawTargetSetTransform`: replaces the target's transform.
    pub fn draw_target_set_transform(&mut self, target: Handle, matrix: AzMatrix)
        requires
            old(self)@.inv(),
            old(self)@.live_as(target, HandleKind::DrawTarget),
        ensures
            final(self)@.inv(),
            final(self)@.slots == old(self)@.slots,
            final(self)@.ops == old(self)@.ops.push(BackendOp::SetTransform { target, matrix }),
    {
        self.log_op(BackendOp::SetTransform { target, matrix });
    }

    /// `AzDrawTargetFillGlyphs`: fills a glyph run with a pattern. The font,
    /// raw pattern and rendering options are references owned by other
    /// subsystems and pass through opaquely.
    pub fn draw_target_fill_glyphs(
        &mut self,
        target: Handle,
        font: AzScaledFontRef,
        glyph_count: u32,
        pattern: Handle,
        options: AzDrawOptions,
        rendering_options: AzGlyphRenderingOptionsRef,
    )
        requires
            old(self)@.inv(),
            old(self)@.live_as(target, HandleKind::DrawTarget),
        ensures
            final(self)@.inv(),
            final(self)@.slots == old(self)@.slots,
            final(self)@.ops == old(self)@.ops.push(
                BackendOp::FillGlyphs {
                    target,
                    font,
                    glyph_count,
                    pattern,
                    options,
                    rendering_options,
                },
            ),
    {
        self.log_op(
            BackendOp::FillGlyphs { target, font, glyph_count, pattern, options, rendering_options },
        );
    }

    /// `AzDrawTargetPushClip`: pushes a path onto the target's clip stack.
    pub fn draw_target_push_clip(&mut self, target: Handle, path: Handle)
        requires
            old(self)@.inv(),
            old(self)@.live_as(target, HandleKind::DrawTarget),
            old(self)@.live_as(path, HandleKind::Path),
            old(self)@.slot(target).clip_depth < u64::MAX,
        ensures
            final(self)@.inv(),
            final(self)@.slots == old(self)@.slots.update(
                target as int,
                with_clip_pushed(old(self)@.slot(target)),
            ),
            final(self)@.ops == old(self)@.ops.push(BackendOp::PushClip { target, path }),
    {
        proof {
            self.lemma_slot_at(target);
            assert(slot_inv(old(self)@.slots[target as int]));
        }
        let i = target as usize;
        let d = self.slots[i].clip_depth;
        self.slots[i].clip_depth = d + 1;
        proof {
            lemma_slot_models_update(old(self).slots@, i as int, self.slots@[i as int]);
            assert(self.slots@[i as int]@ == with_clip_pushed(old(self)@.slot(target)));
            assert(self@.slots == old(self)@.slots.update(
                target as int,
                with_clip_pushed(old(self)@.slot(target)),
            ));
            assert forall|j: int| 0 <= j < self@.slots.len() implies slot_inv(
                #[trigger] self@.slots[j],
            ) by {
                if j != target as int {
                    assert(self@.slots[j] == old(self)@.slots[j]);
                }
            }
        }
        self.log_op(BackendOp::PushClip { target, path });
    }

    /// `AzDrawTargetPopClip`: pops the topmost clip. The backend has no
    /// underflow guard at this layer, so an empty clip stack is ruled out by
    /// the precondition.
    pub fn draw_target_pop_clip(&mut self, target: Handle)
        requires
            old(self)@.inv(),
            old(self)@.live_as(target, HandleKind::DrawTarget),
            old(self)@.slot(target).clip_depth > 0,
        ensures
            final(self)@.inv(),
            final(self)@.slots == old(self)@.slots.update(
                target as int,
                with_clip_popped(old(self)@.slot(target)),
            ),
            final(self)@.ops == old(self)@.ops.push(BackendOp::PopClip { target }),
    {
        proof {
            self.lemma_slot_at(target);
            assert(slot_inv(old(self)@.slots[target as int]));
        }
        let i = target as usize;
        let d = self.slots[i].clip_depth;
        self.slots[i].clip_depth = d - 1;
        proof {
            lemma_slot_models_update(old(self).slots@, i as int, self.slots@[i as int]);
            assert(self.slots@[i as int]@ == with_clip_popped(old(self)@.slot(target)));
            assert(self@.slots == old(self)@.slots.update(
                target as int,
                with_clip_popped(old(self)@.slot(target)),
            ));
            assert forall|j: int| 0 <= j < self@.slots.len() implies slot_inv(
                #[trigger] self@.slots[j],
            ) by {
                if j != target as int {
                    assert(self@.slots[j] == old(self)@.slots[j]);
                }
            }
        }
        self.log_op(BackendOp::PopClip { target });
    }
}

impl Backend {
    /// `AzDrawTargetGetSnapshot`: a fresh source surface holding the
    /// target's rendered pixels. Its size and format are the target's, its
    /// stride is one pixel row, and its byte content is whatever the
    /// backend rendered — the contract fixes only the byte count.
    pub fn draw_target_get_snapshot(&mut self, target: Handle) -> (h: Handle)
        requires
            old(self)@.inv(),
            old(self)@.live_as(target, HandleKind::DrawTarget),
        ensures
            final(self)@.inv(),
            h == old(self)@.slots.len(),
            final(self)@.slots.len() == old(self)@.slots.len() + 1,
            forall|j: int|
                0 <= j < old(self)@.slots.len() ==> (#[trigger] final(self)@.slots[j])
                    == old(self)@.slots[j],
            final(self)@.ops == old(self)@.ops.push(BackendOp::Snapshot { target, surface: h }),
            final(self)@.live_as(h, HandleKind::SourceSurface),
            final(self)@.slot(h).refs == 1,
            final(self)@.slot(h).destroys == 0,
            final(self)@.slot(h).size == old(self)@.slot(target).size,
            final(self)@.slot(h).format == old(self)@.slot(target).format,
            final(self)@.slot(h).stride == snapshot_stride(old(self)@.slot(target)),
            final(self)@.slot(h).data.len() == snapshot_stride(old(self)@.slot(target)) * old(
                self,
            )@.slot(target).size.height,
    {
        proof {
            self.lemma_slot_at(target);
            assert(slot_inv(old(self)@.slots[target as int]));
        }
        let i = target as usize;
        let size = self.slots[i].size;
        let format = self.slots[i].format;
        let bpp: i32 = if format == 2 {
            2
        } else if format == 3 {
            1
        } else {
            4
        };
        let stride: i32 = size.width * bpp;
        let total: usize = (stride as usize) * (size.height as usize);
        let data = vec![0u8; total];
        proof {
            vstd::std_specs::vec::axiom_spec_len(&data);
        }
        let mut slot = Self::blank_slot(HandleKind::SourceSurface);
        slot.size = size;
        slot.format = format;
        slot.stride = stride;
        slot.data = data;
        let h = self.add_slot(slot);
        self.log_op(BackendOp::Snapshot { target, surface: h });
        h
    }

    /// `AzDrawTargetCreateSourceSurfaceFromData`: a fresh source surface
    /// over a copy of the caller's pixel bytes, which must be exactly
    /// `stride * height` of them.
    pub fn draw_target_create_source_surface_from_data(
        &mut self,
        target: Handle,
        data: Vec<u8>,
        size: AzIntSize,
        stride: i32,
        format: u32,
    ) -> (h: Handle)
        requires
            old(self)@.inv(),
            old(self)@.live_as(target, HandleKind::DrawTarget),
            format < 4,
            0 <= stride,
            0 <= size.width,
            0 <= size.height,
            data@.len() == stride * size.height,
        ensures
            final(self)@.inv(),
            h == old(self)@.slots.len(),
            final(self)@.slots == old(self)@.slots.push(
                surface_data_slot_model(size, stride, format, data@),
            ),
            final(self)@.ops == old(self)@.ops.push(
                BackendOp::CreateSourceSurfaceFromData { target, surface: h, size, stride, format },
            ),
            final(self)@.live_as(h, HandleKind::SourceSurface),
    {
        let mut slot = Self::blank_slot(HandleKind::SourceSurface);
        slot.size = size;
        slot.format = format;
        slot.stride = stride;
        slot.data = data;
        let h = self.add_slot(slot);
        self.log_op(
            BackendOp::CreateSourceSurfaceFromData { target, surface: h, size, stride, format },
        );
        h
    }

    /// `AzSourceSurfaceGetSize`: the pixel dimensions of a surface.
    pub fn source_surface_get_size(&self, surface: Handle) -> (s: AzIntSize)
        requires
            self@.inv(),
            self@.live_surface(surface),
        ensures
            s == self@.slot(surface).size,
    {
        proof {
            self.lemma_slot_at(surface);
        }
        self.slots[surface as usize].size
    }

    /// `AzSourceSurfaceGetFormat`: the pixel-format code of a surface. The
    /// backend contract guarantees one of the four codes of the closed set.
    pub fn source_surface_get_format(&self, surface: Handle) -> (format: u32)
        requires
            self@.inv(),
            self@.live_surface(surface),
        ensures
            format == self@.slot(surface).format,
            format < 4,
    {
        proof {
            self.lemma_slot_at(surface);
            assert(slot_inv(self@.slots[surface as int]));
        }
        self.slots[surface as usize].format
    }

    /// `AzSourceSurfaceGetDataSurface`: a fresh data surface exposing the
    /// pixel bytes of a source surface.
    pub fn source_surface_get_data_surface(&mut self, surface: Handle) -> (h: Handle)
        requires
            old(self)@.inv(),
            old(self)@.live_as(surface, HandleKind::SourceSurface),
        ensures
            final(self)@.inv(),
            h == old(self)@.slots.len(),
            final(self)@.slots == old(self)@.slots.push(
                SlotModel {
                    size: old(self)@.slot(surface).size,
                    format: old(self)@.slot(surface).format,
                    stride: old(self)@.slot(surface).stride,
                    data: old(self)@.slot(surface).data,
                    ..blank_slot_model(HandleKind::DataSourceSurface)
                },
            ),
            final(self)@.ops == old(self)@.ops.push(
                BackendOp::GetDataSurface { surface, data_surface: h },
            ),
            final(self)@.live_as(h, HandleKind::DataSourceSurface),
    {
        proof {
            self.lemma_slot_at(surface);
            assert(slot_inv(old(self)@.slots[surface as int]));
        }
        let i = surface as usize;
        let size = self.slots[i].size;
        let format = self.slots[i].format;
        let stride = self.slots[i].stride;
        let data = vstd::slice::slice_to_vec(self.slots[i].data.as_slice());
        let mut slot = Self::blank_slot(HandleKind::DataSourceSurface);
        slot.size = size;
        slot.format = format;
        slot.stride = stride;
        slot.data = data;
        let h = self.add_slot(slot);
        self.log_op(BackendOp::GetDataSurface { surface, data_surface: h });
        h
    }

    /// `AzDataSourceSurfaceGetStride`: the byte width of one pixel row of a
    /// data surface.
    pub fn data_surface_get_stride(&self, surface: Handle) -> (stride: i32)
        requires
            self@.inv(),
            self@.live_as(surface, HandleKind::DataSourceSurface),
        ensures
            stride == self@.slot(surface).stride,
    {
        proof {
            self.lemma_slot_at(surface);
        }
        self.slots[surface as usize].stride
    }

    /// `AzDataSourceSurfaceGetData`: read access to the pixel bytes of a
    /// data surface, `stride * height` of them, for as long as the backend
    /// is borrowed.
    pub fn data_surface_get_data(&self, surface: Handle) -> (data: &[u8])
        requires
            self@.inv(),
            self@.live_as(surface, HandleKind::DataSourceSurface),
        ensures
            data@ == self@.slot(surface).data,
            data@.len() == self@.slot(surface).stride * self@.slot(surface).size.height,
    {
        proof {
            self.lemma_slot_at(surface);
            assert(slot_inv(self@.slots[surface as int]));
        }
        self.slots[surface as usize].data.as_slice()
    }

    /// `AzCreatePathBuilder`: a fresh path builder tied to a draw target,
    /// with no commands yet.
    pub fn create_path_builder(&mut self, target: Handle) -> (h: Handle)
        requires
            old(self)@.inv(),
            old(self)@.live_as(target, HandleKind::DrawTarget),
        ensures
            final(self)@.inv(),
            h == old(self)@.slots.len(),
            final(self)@.slots == old(self)@.slots.push(blank_slot_model(HandleKind::PathBuilder)),
            final(self)@.ops == old(self)@.ops.push(
                BackendOp::CreatePathBuilder { target, builder: h },
            ),
            final(self)@.live_as(h, HandleKind::PathBuilder),
            final(self)@.slot(h).cmds == Seq::<PathOp>::empty(),
    {
        let slot = Self::blank_slot(HandleKind::PathBuilder);
        let h = self.add_slot(slot);
        self.log_op(BackendOp::CreatePathBuilder { target, builder: h });
        h
    }

    /// `AzPathBuilderMoveTo`: appends a move command to the builder.
    pub fn path_builder_move_to(&mut self, builder: Handle, point: AzPoint)
        requires
            old(self)@.inv(),
            old(self)@.live_as(builder, HandleKind::PathBuilder),
        ensures
            final(self)@.inv(),
            final(self)@.slots == old(self)@.slots.update(
                builder as int,
                with_cmd(old(self)@.slot(builder), PathOp::MoveTo(point)),
            ),
            final(self)@.ops == old(self)@.ops.push(BackendOp::PathMoveTo { builder, point }),
    {
        self.path_builder_push_cmd(builder, PathOp::MoveTo(point));
        self.log_op(BackendOp::PathMoveTo { builder, point });
    }

    /// `AzPathBuilderLineTo`: appends a line command to the builder.
    pub fn path_builder_line_to(&mut self, builder: Handle, point: AzPoint)
        requires
            old(self)@.inv(),
            old(self)@.live_as(builder, HandleKind::PathBuilder),
        ensures
            final(self)@.inv(),
            final(self)@.slots == old(self)@.slots.update(
                builder as int,
                with_cmd(old(self)@.slot(builder), PathOp::LineTo(point)),
            ),
            final(self)@.ops == old(self)@.ops.push(BackendOp::PathLineTo { builder, point }),
    {
        self.path_builder_push_cmd(builder, PathOp::LineTo(point));
        self.log_op(BackendOp::PathLineTo { builder, point });
    }

    /// Appends one command to a builder's record.
    fn path_builder_push_cmd(&mut self, builder: Handle, cmd: PathOp)
        requires
            old(self)@.inv(),
            old(self)@.live_as(builder, HandleKind::PathBuilder),
        ensures
            final(self)@.inv(),
            final(self)@.slots == old(self)@.slots.update(
                builder as int,
                with_cmd(old(self)@.slot(builder), cmd),
            ),
            final(self)@.ops == old(self)@.ops,
    {
        proof {
            self.lemma_slot_at(builder);
            assert(slot_inv(old(self)@.slots[builder as int]));
        }
        let i = builder as usize;
        self.slots[i].cmds.push(cmd);
        proof {
            lemma_slot_models_update(old(self).slots@, i as int, self.slots@[i as int]);
            assert(self.slots@[i as int]@ == with_cmd(old(self)@.slot(builder), cmd));
            assert(self@.slots == old(self)@.slots.update(
                builder as int,
                with_cmd(old(self)@.slot(builder), cmd),
            ));
            assert forall|j: int| 0 <= j < self@.slots.len() implies slot_inv(
                #[trigger] self@.slots[j],
            ) by {
                if j != builder as int {
                    assert(self@.slots[j] == old(self)@.slots[j]);
                }
            }
        }
    }

    /// `AzPathBuilderFinish`: a fresh immutable path frozen from exactly
    /// the commands the builder has accumulated so far. The builder keeps
    /// its commands and stays usable.
    pub fn path_builder_finish(&mut self, builder: Handle) -> (h: Handle)
        requires
            old(self)@.inv(),
            old(self)@.live_as(builder, HandleKind::PathBuilder),
        ensures
            final(self)@.inv(),
            h == old(self)@.slots.len(),
            final(self)@.slots == old(self)@.slots.push(
                path_slot_model(old(self)@.slot(builder).cmds),
            ),
            final(self)@.ops == old(self)@.ops.push(BackendOp::PathFinish { builder, path: h }),
            final(self)@.live_as(h, HandleKind::Path),
            final(self)@.slot(h).cmds == old(self)@.slot(builder).cmds,
    {
        proof {
            self.lemma_slot_at(builder);
        }
        let i = builder as usize;
        let cmds = vstd::slice::slice_to_vec(self.slots[i].cmds.as_slice());
        let mut slot = Self::blank_slot(HandleKind::Path);
        slot.cmds = cmds;
        let h = self.add_slot(slot);
        self.log_op(BackendOp::PathFinish { builder, path: h });
        h
    }
}

/// A record after `n` retains.
pub open spec fn retained_n(s: SlotModel, n: nat) -> SlotModel
    decreases n,
{
    if n == 0 {
        s
    } else {
        retained(retained_n(s, (n - 1) as nat))
    }
}

/// A record after `n` releases.
pub open spec fn released_n(s: SlotModel, n: nat) -> SlotModel
    decreases n,
{
    if n == 0 {
        s
    } else {
        released(released_n(s, (n - 1) as nat))
    }
}

proof fn lemma_retained_n_shape(s: SlotModel, n: nat)
    ensures
        retained_n(s, n).refs == s.refs + n,
        retained_n(s, n).destroys == s.destroys,
    decreases n,
{
    if n > 0 {
        lemma_retained_n_shape(s, (n - 1) as nat);
    }
}

/// No early destruction: as long as fewer releases have happened than there
/// are references, the resource is still live and nothing was destroyed.
pub proof fn lemma_release_keeps_live(s: SlotModel, j: nat)
    requires
        s.destroys == 0,
        j < s.refs,
    ensures
        released_n(s, j).refs == s.refs - j,
        released_n(s, j).destroys == 0,
    decreases j,
{
    if j > 0 {
        lemma_release_keeps_live(s, (j - 1) as nat);
    }
}

/// A retain followed by a release leaves a live record exactly as it was:
/// cloning and then dropping the clone is invisible to the ledger.
pub proof fn lemma_retain_release_cancel(s: SlotModel)
    requires
        s.refs > 0,
    ensures
        released(retained(s)) == s,
{
}

/// A clip push followed by a pop restores the record, clip-stack depth
/// included.
pub proof fn lemma_clip_push_pop_cancel(s: SlotModel)
    ensures
        with_clip_popped(with_clip_pushed(s)) == s,
{
}

/// Reference-count symmetry: a handle born with one reference, retained
/// `n` more times and then released `n + 1` times, ends with no references
/// and exactly one destruction — performed by the final release and by no
/// earlier one.
pub proof fn lemma_clone_release_symmetry(s: SlotModel, n: nat)
    requires
        s.refs == 1,
        s.destroys == 0,
    ensures
        released_n(retained_n(s, n), n + 1).refs == 0,
        released_n(retained_n(s, n), n + 1).destroys == 1,
{
    let t = retained_n(s, n);
    lemma_retained_n_shape(s, n);
    lemma_release_keeps_live(t, n);
    assert(released_n(t, n + 1) == released(released_n(t, n)));
}

} // verus!
