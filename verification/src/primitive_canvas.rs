//! The decisions behind every draw call: how the stencil buffer and the
//! scissor rectangle shape the draw parameters, and when queued vertices
//! can join the current batch.

use vstd::prelude::*;

verus! {

/// The type used for vertex indices in batched draw calls.
pub type Idx = u16;

/// When modifying a stencil or clearing the stencil buffer,
/// operations require a StencilType.
#[derive(Clone, Copy, PartialEq, Eq, Debug, Structural)]
pub enum StencilType {
    /// Blacklists pixels on the screen when drawing.
    Deny,
    /// Whitelists pixels on the screen when drawing.
    Allow,
}

/// Signifies what state we are in with regards to drawing with stencils.
#[derive(Clone, Copy, PartialEq, Eq, Debug, Structural)]
pub enum StencilState {
    /// We are currently drawing into the stencil buffer.
    DrawingStencil(StencilType),
    /// We are currently drawing a shape that will be occluded by the stencil.
    DrawingWithStencil,
    /// We aren't doing anything with regards to stencils
    Inactive,
}

/// The scissor rectangle and the stencil state that modify every draw call
/// issued to a canvas.
#[derive(Clone, Copy, PartialEq, Eq, Debug)]
pub struct DrawParamModifier {
    /// The scissor rectangle `(left, bottom, width, height)`, if any.
    pub scissor: Option<(u32, u32, u32, u32)>,
    /// The current stencil state.
    pub stencil_state: StencilState,
}

/// How the stencil test treats a fragment.
#[derive(Clone, Copy, PartialEq, Eq, Debug, Structural)]
pub enum StencilTest {
    /// Every fragment passes.
    AlwaysPass,
    /// No fragment passes.
    AlwaysFail,
    /// A fragment passes when the masked stencil value equals the masked
    /// reference value.
    IfEqual { mask: u32 },
}

/// What happens to the stencil buffer at a fragment.
#[derive(Clone, Copy, PartialEq, Eq, Debug, Structural)]
pub enum StencilOperation {
    /// The stencil value is kept.
    Keep,
    /// The stencil value is replaced by the reference value.
    Replace,
}

/// A rectangle of the render target, in pixels, measured from the bottom left.
#[derive(Clone, Copy, PartialEq, Eq, Debug, Structural)]
pub struct Rect {
    pub left: u32,
    pub bottom: u32,
    pub width: u32,
    pub height: u32,
}

/// The part of the draw parameters that depends on the canvas state.
///
/// Depth testing, blending, culling and multisampling are the same for every
/// draw call and are not part of this description.
#[derive(Clone, Copy, PartialEq, Eq, Debug)]
pub struct DrawParams {
    /// Which of the red, green, blue and alpha channels are written.
    pub color_mask: (bool, bool, bool, bool),
    /// The stencil test, for both faces.
    pub stencil_test: StencilTest,
    /// The stencil reference value, for both faces.
    pub stencil_reference_value: i32,
    /// What happens when the stencil test fails.
    pub stencil_fail_operation: StencilOperation,
    /// What happens when the stencil test passes and the depth test fails.
    pub depth_fail_operation: StencilOperation,
    /// What happens when both the stencil and the depth test pass.
    pub depth_pass_operation: StencilOperation,
    /// The write mask of the stencil buffer, for both faces.
    pub stencil_write_mask: u32,
    /// The scissor rectangle, if any.
    pub scissor: Option<Rect>,
}

/// The stencil reference value used while in the given stencil state.
pub open spec fn stencil_reference(state: StencilState) -> i32 {
    match state {
        StencilState::DrawingStencil(StencilType::Allow) => 1,
        StencilState::DrawingStencil(StencilType::Deny) => 0,
        StencilState::DrawingWithStencil => 1,
        StencilState::Inactive => 0,
    }
}

/// The stencil test used while in the given stencil state.
pub open spec fn stencil_test_for(state: StencilState) -> StencilTest {
    match state {
        StencilState::DrawingStencil(_) => StencilTest::AlwaysFail,
        StencilState::DrawingWithStencil => StencilTest::IfEqual { mask: 0xFF },
        StencilState::Inactive => StencilTest::AlwaysPass,
    }
}

/// True when colors are written while in the given stencil state: they are
/// not while a stencil is being drawn.
pub open spec fn writes_colors(state: StencilState) -> bool {
    !(state is DrawingStencil)
}

/// The stencil operation applied to fragments that fail the stencil test.
pub open spec fn stencil_fail_op_for(state: StencilState) -> StencilOperation {
    if state is DrawingStencil {
        StencilOperation::Replace
    } else {
        StencilOperation::Keep
    }
}

/// The draw parameters that a canvas with the given modifier uses.
pub open spec fn spec_draw_params(m: DrawParamModifier) -> DrawParams {
    let w = writes_colors(m.stencil_state);
    DrawParams {
        color_mask: (w, w, w, w),
        stencil_test: stencil_test_for(m.stencil_state),
        stencil_reference_value: stencil_reference(m.stencil_state),
        stencil_fail_operation: stencil_fail_op_for(m.stencil_state),
        depth_fail_operation: StencilOperation::Keep,
        depth_pass_operation: StencilOperation::Keep,
        stencil_write_mask: 0xffff_ffff,
        scissor: match m.scissor {
            Some((l, b, w, h)) => Some(Rect { left: l, bottom: b, width: w, height: h }),
            None => None,
        },
    }
}

/// Whether a fragment whose stencil value is `stored` passes the stencil
/// test used in the given stencil state.
pub open spec fn stencil_passes(state: StencilState, stored: i32) -> bool {
    match stencil_test_for(state) {
        StencilTest::AlwaysPass => true,
        StencilTest::AlwaysFail => false,
        StencilTest::IfEqual { mask } => (stored & 0xFF) == (stencil_reference(state) & 0xFF),
    }
}

/// Computes the parameters for a draw call from the canvas's scissor and
/// stencil state.
pub fn draw_params(m: &DrawParamModifier) -> (r: DrawParams)
    ensures
        r == spec_draw_params(*m),
{
    let color_mask = match m.stencil_state {
        StencilState::DrawingStencil(_) => (false, false, false, false),
        StencilState::DrawingWithStencil | StencilState::Inactive => (true, true, true, true),
    };

    let stencil_test = match m.stencil_state {
        StencilState::DrawingStencil(_) => StencilTest::AlwaysFail,
        StencilState::DrawingWithStencil => StencilTest::IfEqual { mask: 0xFF },
        StencilState::Inactive => StencilTest::AlwaysPass,
    };

    let stencil_ref_value: i32 = match m.stencil_state {
        StencilState::DrawingStencil(StencilType::Allow) => 1,
        StencilState::DrawingStencil(StencilType::Deny) => 0,
        StencilState::DrawingWithStencil => 1,
        StencilState::Inactive => 0,
    };

    let (s_fail, dp_fail, dp_pass) = match m.stencil_state {
        StencilState::DrawingStencil(_) => {
            (StencilOperation::Replace, StencilOperation::Keep, StencilOperation::Keep)
        },
        StencilState::DrawingWithStencil => {
            (StencilOperation::Keep, StencilOperation::Keep, StencilOperation::Keep)
        },
        StencilState::Inactive => {
            (StencilOperation::Keep, StencilOperation::Keep, StencilOperation::Keep)
        },
    };

    let scissor = match m.scissor {
        Some((l, b, w, h)) => Some(Rect { left: l, bottom: b, width: w, height: h }),
        None => None,
    };

    DrawParams {
        color_mask,
        stencil_test,
        stencil_reference_value: stencil_ref_value,
        stencil_fail_operation: s_fail,
        depth_fail_operation: dp_fail,
        depth_pass_operation: dp_pass,
        stencil_write_mask: 0xffff_ffff,
        scissor,
    }
}

impl DrawParamModifier {
    /// A modifier with no scissor and no stencil.
    pub fn new() -> (r: DrawParamModifier)
        ensures
            r.scissor is None,
            r.stencil_state == StencilState::Inactive,
    {
        DrawParamModifier { scissor: None, stencil_state: StencilState::Inactive }
    }

    /// Removes the scissor rectangle and returns it.
    pub fn take_scissor(&mut self) -> (r: Option<(u32, u32, u32, u32)>)
        ensures
            r == old(self).scissor,
            final(self).scissor is None,
            final(self).stencil_state == old(self).stencil_state,
    {
        let r = self.scissor;
        self.scissor = None;
        r
    }

    /// Replaces the scissor rectangle.
    pub fn set_scissor(&mut self, scissor: Option<(u32, u32, u32, u32)>)
        ensures
            final(self).scissor == scissor,
            final(self).stencil_state == old(self).stencil_state,
    {
        self.scissor = scissor;
    }

    /// Replaces the stencil state.
    pub fn set_stencil_state(&mut self, stencil_state: StencilState)
        ensures
            final(self).stencil_state == stencil_state,
            final(self).scissor == old(self).scissor,
    {
        self.stencil_state = stencil_state;
    }

    /// Installs the scissor rectangle of `Canvas::with_scissor`: the
    /// rectangle `x, y, w, h` is given from the top left of a view `view_height`
    /// pixels high, and stored from the bottom left.  Returns the scissor that
    /// was in place before, which the caller restores with `set_scissor` once
    /// the scissored drawing is done.
    pub fn enter_scissor(&mut self, x: u32, y: u32, w: u32, h: u32, view_height: u32) -> (r:
        Option<(u32, u32, u32, u32)>)
        requires
            h + y <= view_height,
        ensures
            r == old(self).scissor,
            final(self).scissor == Some((x, (view_height - h - y) as u32, w, h)),
            final(self).stencil_state == old(self).stencil_state,
    {
        let old = self.take_scissor();
        self.set_scissor(Some((x, view_height - h - y, w, h)));
        old
    }

    /// Starts drawing into the stencil buffer, as `Canvas::draw_to_stencil`
    /// does before it runs its drawing function.
    pub fn begin_stencil(&mut self, typ: StencilType)
        ensures
            final(self).stencil_state == StencilState::DrawingStencil(typ),
            final(self).scissor == old(self).scissor,
    {
        self.set_stencil_state(StencilState::DrawingStencil(typ));
    }

    /// Stops drawing into the stencil buffer: later draws are occluded by the
    /// stencil, as after `Canvas::draw_to_stencil`.
    pub fn end_stencil(&mut self)
        ensures
            final(self).stencil_state == StencilState::DrawingWithStencil,
            final(self).scissor == old(self).scissor,
    {
        self.set_stencil_state(StencilState::DrawingWithStencil);
    }

    /// The state change of `Canvas::clear_stencil`.  Returns the value that
    /// the stencil buffer is to be cleared with.
    ///
    /// With `Allow` the buffer is cleared to 1 and the stencil is no longer
    /// used; with `Deny` it is cleared to 0 and later draws are tested
    /// against it.
    pub fn clear_stencil(&mut self, typ: StencilType) -> (value: i32)
        ensures
            value == (if typ == StencilType::Allow { 1i32 } else { 0i32 }),
            final(self).stencil_state == (if typ == StencilType::Allow {
                StencilState::Inactive
            } else {
                StencilState::DrawingWithStencil
            }),
            final(self).scissor == old(self).scissor,
    {
        match typ {
            StencilType::Allow => {
                self.set_stencil_state(StencilState::Inactive);
                1
            },
            StencilType::Deny => {
                self.set_stencil_state(StencilState::DrawingWithStencil);
                0
            },
        }
    }
}

/// The opposite of a stencil type.
pub open spec fn spec_inverse(t: StencilType) -> StencilType {
    match t {
        StencilType::Allow => StencilType::Deny,
        StencilType::Deny => StencilType::Allow,
    }
}

impl StencilType {
    /// Returns the opposite of this stencil type.
    pub fn inverse(&self) -> (r: StencilType)
        ensures
            r == spec_inverse(*self),
    {
        match *self {
            StencilType::Allow => StencilType::Deny,
            StencilType::Deny => StencilType::Allow,
        }
    }
}

/// The ways in which vertices are assembled into primitives.
#[derive(Clone, Copy, PartialEq, Eq, Debug, Structural)]
pub enum PrimitiveType {
    Points,
    LinesList,
    LinesListAdjacency,
    LineStrip,
    LineStripAdjacency,
    LineLoop,
    TrianglesList,
    TrianglesListAdjacency,
    TriangleStrip,
    TriangleStripAdjacency,
    TriangleFan,
    Patches { vertices_per_patch: u16 },
}

/// Primitives of these types are independent of each other, so two groups of
/// them can be drawn in one call.
pub open spec fn spec_is_coherent_group(typ: PrimitiveType) -> bool {
    typ is Points || typ is LinesList || typ is TrianglesList
}

/// True when primitives of type `typ` can be appended to an existing batch:
/// lists of points, lines and triangles can be concatenated; strips, loops
/// and fans cannot.
pub fn is_coherent_group(typ: PrimitiveType) -> (r: bool)
    ensures
        r == spec_is_coherent_group(typ),
{
    match typ {
        PrimitiveType::Points | PrimitiveType::LinesList | PrimitiveType::TrianglesList => true,
        _ => false,
    }
}

/// What a batched draw call does before queueing its vertices.
#[derive(Clone, Copy, PartialEq, Eq, Debug, Structural)]
pub struct BatchPlan {
    /// All queued draw calls are flushed to the screen first.
    pub flush: bool,
    /// A new, empty batch is started for the vertices.
    pub start_new: bool,
}

/// The plan of a batched draw when `other_batch` tells whether a batch of the
/// other kind (textured for a colored draw, colored for a textured draw) is
/// queued, `batch` is the type of the queued batch of the same kind, and
/// `compatible` tells whether that batch can take the new vertices apart from
/// their primitive type.
pub open spec fn spec_batch_plan(
    other_batch: bool,
    batch: Option<PrimitiveType>,
    typ: PrimitiveType,
    compatible: bool,
) -> BatchPlan {
    let joins = batch == Some(typ) && spec_is_coherent_group(typ) && compatible;
    let flush = other_batch || (batch is Some && !joins);
    BatchPlan { flush, start_new: flush || batch is None }
}

/// The plan of `PrimitiveCanvas::draw_colored` for vertices of type `typ`.
///
/// `has_tex_batch` tells whether textured vertices are queued, `color_batch`
/// is the primitive type of the queued colored vertices, if any.  Flushing
/// draws and empties both queues.
pub fn plan_colored_draw(has_tex_batch: bool, color_batch: Option<PrimitiveType>, typ: PrimitiveType) -> (r:
    BatchPlan)
    ensures
        r == spec_batch_plan(has_tex_batch, color_batch, typ, true),
{
    let mut flush = false;
    let mut cached = color_batch;
    if has_tex_batch {
        flush = true;
        cached = None;
    }
    let start_new = match cached {
        Some(cached_typ) => {
            let same_type = cached_typ == typ;
            let coherant_group = is_coherent_group(typ);
            if !same_type || !coherant_group {
                flush = true;
                true
            } else {
                false
            }
        },
        None => true,
    };
    BatchPlan { flush, start_new }
}

/// The plan of `PrimitiveCanvas::draw_tex` for vertices of type `typ`.
///
/// `has_color_batch` tells whether colored vertices are queued, `tex_batch`
/// is the primitive type of the queued textured vertices, if any.
/// `same_color_mult` and `same_texture` tell whether those queued vertices
/// use the same color multiplier and the same texture as the new ones; they
/// matter only when textured vertices are queued.
pub fn plan_textured_draw(
    has_color_batch: bool,
    tex_batch: Option<PrimitiveType>,
    typ: PrimitiveType,
    same_color_mult: bool,
    same_texture: bool,
) -> (r: BatchPlan)
    ensures
        r == spec_batch_plan(has_color_batch, tex_batch, typ, same_color_mult && same_texture),
{
    let mut flush = false;
    let mut cached = tex_batch;
    if has_color_batch {
        flush = true;
        cached = None;
    }
    let start_new = match cached {
        Some(cached_typ) => {
            let same_type = cached_typ == typ;
            let coherant_group = is_coherent_group(typ);
            if !same_type || !coherant_group || !same_color_mult || !same_texture {
                flush = true;
                true
            } else {
                false
            }
        },
        None => true,
    };
    BatchPlan { flush, start_new }
}

/// The indices that a batched draw appends to the batch: `already_in` vertices
/// are in the batch, `adding` vertices join it, and `given` holds the indices
/// of the new vertices among themselves, if the caller gave any.
pub open spec fn appended_indices(already_in: Idx, adding: Idx, given: Option<Seq<Idx>>) -> Seq<Idx> {
    match given {
        None => Seq::new(adding as nat, |i: int| (already_in + i) as Idx),
        Some(g) => Seq::new(g.len(), |i: int| (already_in + g[i]) as Idx),
    }
}

/// Appends the indices of newly queued vertices to a batch's index list.
///
/// The new vertices are numbered from `already_in`, the number of vertices
/// already in the batch.  Without `given`, the `adding` new vertices are used
/// in order; with it, the given indices are shifted by `already_in`.
/// Given indices must come in triples, and no shifted index may exceed the
/// index type.
pub fn extend_indices(idxs: &mut Vec<Idx>, already_in: Idx, adding: Idx, given: Option<&[Idx]>)
    requires
        match given {
            None => already_in + adding <= Idx::MAX + 1,
            Some(g) => {
                &&& g@.len() % 3 == 0
                &&& forall|i: int| 0 <= i < g@.len() ==> already_in + #[trigger] g@[i] <= Idx::MAX
            },
        },
    ensures
        final(idxs)@ == old(idxs)@ + appended_indices(
            already_in,
            adding,
            match given {
                Some(g) => Some(g@),
                None => None,
            },
        ),
{
    let ghost start = idxs@;
    match given {
        None => {
            let mut i: Idx = 0;
            while i < adding
                invariant
                    i <= adding,
                    already_in + adding <= Idx::MAX + 1,
                    idxs@ == start + Seq::new(i as nat, |k: int| (already_in + k) as Idx),
                decreases adding - i,
            {
                idxs.push(already_in + i);
                i = i + 1;
                assert(idxs@ =~= start + Seq::new(i as nat, |k: int| (already_in + k) as Idx));
            }
            assert(appended_indices(already_in, adding, None) =~= Seq::new(
                adding as nat,
                |k: int| (already_in + k) as Idx,
            ));
        },
        Some(l_idxs) => {
            let n = l_idxs.len();
            let mut j: usize = 0;
            while j < n
                invariant
                    j <= n,
                    n == l_idxs@.len(),
                    forall|i: int| 0 <= i < l_idxs@.len() ==> already_in + #[trigger] l_idxs@[i] <= Idx::MAX,
                    idxs@ == start + Seq::new(j as nat, |k: int| (already_in + l_idxs@[k]) as Idx),
                decreases n - j,
            {
                let i = l_idxs[j];
                assert(already_in + l_idxs@[j as int] <= Idx::MAX);
                idxs.push(already_in + i);
                j = j + 1;
                assert(idxs@ =~= start + Seq::new(
                    j as nat,
                    |k: int| (already_in + l_idxs@[k]) as Idx,
                ));
            }
            assert(appended_indices(already_in, adding, Some(l_idxs@)) =~= Seq::new(
                n as nat,
                |k: int| (already_in + l_idxs@[k]) as Idx,
            ));
        },
    }
}

/// The outcome of flushing both batches, given the outcomes of drawing the
/// colored batch and the textured batch (`None` where there was nothing to
/// draw): the first error, if any.
pub open spec fn spec_flush_outcome<E>(first: Option<Result<(), E>>, second: Option<Result<(), E>>) -> Result<(), E> {
    match (first, second) {
        (Some(Err(e)), _) => Err(e),
        (_, Some(Err(e))) => Err(e),
        _ => Ok(()),
    }
}

/// Combines the outcomes of drawing the two batches in
/// `PrimitiveCanvas::flush_draw`.  The first error is assumed to be the
/// cause of, or the same as, the second one, so it is the one returned.
pub fn combine_flush_results<E>(first: Option<Result<(), E>>, second: Option<Result<(), E>>) -> (r:
    Result<(), E>)
    ensures
        r == spec_flush_outcome(first, second),
{
    match (first, second) {
        (Some(Err(e)), _) => Err(e),
        (_, Some(Err(e))) => Err(e),
        _ => Ok(()),
    }
}

/// Inverting a stencil type gives the other type, and inverting twice gives
/// the type back.
pub proof fn lemma_inverse_involution(t: StencilType)
    ensures
        spec_inverse(t) != t,
        spec_inverse(spec_inverse(t)) == t,
{
}

/// While a stencil is being drawn no color is written, every fragment fails
/// the stencil test, and each failing fragment replaces its stencil value by
/// the reference value: 1 for an `Allow` stencil, 0 for a `Deny` one.
pub proof fn lemma_drawing_stencil_writes_reference(m: DrawParamModifier, t: StencilType)
    requires
        m.stencil_state == StencilState::DrawingStencil(t),
    ensures
        spec_draw_params(m).color_mask == (false, false, false, false),
        spec_draw_params(m).stencil_test == StencilTest::AlwaysFail,
        spec_draw_params(m).stencil_fail_operation == StencilOperation::Replace,
        spec_draw_params(m).stencil_reference_value == (if t == StencilType::Allow { 1i32 } else { 0i32 }),
{
}

/// Once a stencil is drawn, later draws pass exactly where an `Allow` stencil
/// was drawn and fail where a `Deny` stencil was drawn; regions drawn with
/// inverse stencil types are treated oppositely.
pub proof fn lemma_stencil_lets_through_allowed_regions(t: StencilType)
    ensures
        stencil_passes(StencilState::DrawingWithStencil, stencil_reference(StencilState::DrawingStencil(t)))
            <==> t == StencilType::Allow,
        stencil_passes(StencilState::DrawingWithStencil, stencil_reference(StencilState::DrawingStencil(t)))
            != stencil_passes(
            StencilState::DrawingWithStencil,
            stencil_reference(StencilState::DrawingStencil(spec_inverse(t))),
        ),
{
    assert((1i32 & 0xFF) == 1i32) by (bit_vector);
    assert((0i32 & 0xFF) == 0i32) by (bit_vector);
}

/// After `clear_stencil(Allow)` every draw passes the stencil test and writes
/// colors; after `clear_stencil(Deny)` no draw passes until a stencil is
/// drawn, since the buffer is cleared to a value that the test rejects.
pub proof fn lemma_cleared_stencil(t: StencilType, value: i32, after: StencilState, stored: i32)
    requires
        value == (if t == StencilType::Allow { 1i32 } else { 0i32 }),
        after == (if t == StencilType::Allow { StencilState::Inactive } else { StencilState::DrawingWithStencil }),
    ensures
        t == StencilType::Allow ==> stencil_passes(after, stored) && writes_colors(after),
        t == StencilType::Deny ==> !stencil_passes(after, value),
{
    assert((1i32 & 0xFF) == 1i32) by (bit_vector);
    assert((0i32 & 0xFF) == 0i32) by (bit_vector);
}

/// Putting back the scissor that `enter_scissor` returned restores the
/// modifier that was in place before.
pub proof fn lemma_scissor_restored(before: DrawParamModifier, during: DrawParamModifier, returned: Option<(u32, u32, u32, u32)>)
    requires
        returned == before.scissor,
        during.stencil_state == before.stencil_state,
    ensures
        (DrawParamModifier { scissor: returned, ..during }) == before,
{
}

/// A draw joins the queued batch of its kind exactly when nothing of the
/// other kind is queued, the queued batch has the same primitive type, that
/// type is a list of points, lines or triangles, and the batch is otherwise
/// compatible; whenever the queues are flushed a new batch is started.
pub proof fn lemma_batch_joins(other_batch: bool, batch: Option<PrimitiveType>, typ: PrimitiveType, compatible: bool)
    ensures
        !spec_batch_plan(other_batch, batch, typ, compatible).start_new <==> (!other_batch && batch
            == Some(typ) && spec_is_coherent_group(typ) && compatible),
        spec_batch_plan(other_batch, batch, typ, compatible).flush ==> spec_batch_plan(
            other_batch,
            batch,
            typ,
            compatible,
        ).start_new,
        !spec_batch_plan(other_batch, batch, typ, compatible).start_new ==> !spec_batch_plan(
            other_batch,
            batch,
            typ,
            compatible,
        ).flush,
{
}

/// The batches queued on a canvas: the primitive type of the queued colored
/// vertices and of the queued textured vertices, if any.
pub struct QueuedBatches {
    pub colored: Option<PrimitiveType>,
    pub textured: Option<PrimitiveType>,
}

/// The batches queued after a batched draw that follows `plan`: flushing
/// empties both queues, and the draw's own kind then holds a batch of its
/// type, new or joined.
pub open spec fn after_draw(q: QueuedBatches, colored: bool, typ: PrimitiveType, plan: BatchPlan) -> QueuedBatches {
    let kept = if plan.flush {
        QueuedBatches { colored: None, textured: None }
    } else {
        q
    };
    if colored {
        QueuedBatches {
            colored: if plan.start_new {
                Some(typ)
            } else {
                kept.colored
            },
            ..kept
        }
    } else {
        QueuedBatches {
            textured: if plan.start_new {
                Some(typ)
            } else {
                kept.textured
            },
            ..kept
        }
    }
}

/// The batches queued after a colored draw of type `typ`, planned by
/// `plan_colored_draw`.
pub open spec fn after_colored_draw(q: QueuedBatches, typ: PrimitiveType) -> QueuedBatches {
    after_draw(q, true, typ, spec_batch_plan(q.textured is Some, q.colored, typ, true))
}

/// The batches queued after a textured draw of type `typ`, planned by
/// `plan_textured_draw`; `compatible` tells whether the queued textured
/// batch has the same texture and color multiplier.
pub open spec fn after_textured_draw(q: QueuedBatches, typ: PrimitiveType, compatible: bool) -> QueuedBatches {
    after_draw(q, false, typ, spec_batch_plan(q.colored is Some, q.textured, typ, compatible))
}

/// Whatever was queued before, a batched draw leaves exactly one batch
/// queued: one of its own kind and type.  Vertices of the other kind that
/// were queued are flushed to the screen first, so batches reach the screen
/// in the order they were drawn.
pub proof fn lemma_one_batch_at_a_time(q: QueuedBatches, typ: PrimitiveType, compatible: bool)
    ensures
        after_colored_draw(q, typ) == (QueuedBatches { colored: Some(typ), textured: None }),
        after_textured_draw(q, typ, compatible) == (QueuedBatches { colored: None, textured: Some(typ) }),
        q.textured is Some ==> spec_batch_plan(q.textured is Some, q.colored, typ, true).flush,
        q.colored is Some ==> spec_batch_plan(q.colored is Some, q.textured, typ, compatible).flush,
{
}

/// Of the two outcomes combined by `combine_flush_results`, the first error
/// wins, and the result is `Ok` only when neither drawing failed.
pub proof fn lemma_first_flush_error_wins<E>(first: Option<Result<(), E>>, second: Option<Result<(), E>>)
    ensures
        first matches Some(Err(e)) ==> spec_flush_outcome(first, second) == Err::<(), E>(e),
        spec_flush_outcome(first, second) is Ok <==> !(first matches Some(Err(_))) && !(second matches Some(
            Err(_),
        )),
{
}

/// The scissor rectangle of every draw call is the canvas's scissor, as a
/// rectangle, whatever the stencil state: drawing inside a scissor is clipped
/// whether or not a stencil is in use.
pub proof fn lemma_scissor_passes_through(m: DrawParamModifier, other: StencilState)
    ensures
        m.scissor is None ==> spec_draw_params(m).scissor is None,
        m.scissor matches Some((l, b, w, h)) ==> spec_draw_params(m).scissor == Some(
            Rect { left: l, bottom: b, width: w, height: h },
        ),
        spec_draw_params(DrawParamModifier { stencil_state: other, ..m }).scissor == spec_draw_params(
            m,
        ).scissor,
{
}

/// No queued vertices are ever dropped: a draw that starts a new batch while
/// a batch of its kind is queued flushes the queues first, and so does any
/// draw while a batch of the other kind is queued.
pub proof fn lemma_no_queued_vertices_dropped(
    other_batch: bool,
    batch: Option<PrimitiveType>,
    typ: PrimitiveType,
    compatible: bool,
)
    ensures
        batch is Some && spec_batch_plan(other_batch, batch, typ, compatible).start_new
            ==> spec_batch_plan(other_batch, batch, typ, compatible).flush,
        other_batch ==> spec_batch_plan(other_batch, batch, typ, compatible).flush,
        batch is None ==> spec_batch_plan(other_batch, batch, typ, compatible).start_new,
{
}

/// The indices appended for given indices are those indices shifted by the
/// number of vertices already in the batch, one for one and whatever the
/// number of vertices being added; without given indices, the new vertices
/// are numbered in order from the number already in the batch.
pub proof fn lemma_indices_shifted_by_batch(already_in: Idx, adding: Idx, other_adding: Idx, g: Seq<Idx>)
    ensures
        appended_indices(already_in, adding, Some(g)).len() == g.len(),
        forall|i: int|
            0 <= i < g.len() && already_in + g[i] <= Idx::MAX ==> #[trigger] appended_indices(
                already_in,
                adding,
                Some(g),
            )[i] == already_in + g[i],
        appended_indices(already_in, adding, Some(g)) == appended_indices(already_in, other_adding, Some(g)),
        appended_indices(already_in, adding, None).len() == adding,
        forall|k: int|
            0 <= k < adding && already_in + k <= Idx::MAX ==> #[trigger] appended_indices(
                already_in,
                adding,
                None,
            )[k] == already_in + k,
{
    assert(appended_indices(already_in, adding, Some(g)) =~= appended_indices(already_in, other_adding, Some(g)));
}

} // verus!
