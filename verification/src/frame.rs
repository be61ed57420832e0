//! Per-tick composition.
//!
//! Each tick while the window is open, the renderer drains the tick's
//! input events and applies their side effects, clears the color and depth
//! buffers, recomputes the orthographic projection from the current
//! framebuffer dimensions, and draws every object in fixed order, each
//! draw preceded by the upload of that object's combined transform.
//! [`frame_ops`] decides the whole tick as one operation sequence; the
//! unverified shell executes it and swaps the presented framebuffer.
//!
//! The projection matrix itself is floating point and is computed by the
//! shell; verified code fixes its parameters: the orthographic box spans
//! the framebuffer from the origin, between the fixed near and far planes.

use vstd::prelude::*;

use crate::events::{
    event_ops, event_requests_close, handle_window_event, lemma_apply_single, WindowEvent,
};
use crate::gfx::{
    apply_all, changes_viewport, lemma_apply_all_append, lemma_viewport_preserved, ContextState,
    GfxOp,
};
use crate::object::{draw_ops, Object};

verus! {

/// Near plane distance of the orthographic projection.
pub const NEAR_PLANE: i32 = 90;

/// Far plane distance of the orthographic projection.
pub const FAR_PLANE: i32 = 2000;

/// The parameters of one frame's orthographic projection; the shell turns
/// them into the float matrix.
#[derive(Clone, Copy, Debug, PartialEq, Eq, Structural)]
pub struct OrthoParams {
    pub left: i32,
    pub right: i32,
    pub bottom: i32,
    pub top: i32,
    pub near: i32,
    pub far: i32,
}

/// The projection parameters for a framebuffer of the given dimensions.
pub open spec fn ortho_of(width: i32, height: i32) -> OrthoParams {
    OrthoParams { left: 0, right: width, bottom: 0, top: height, near: NEAR_PLANE, far: FAR_PLANE }
}

/// Computes the projection parameters of a frame: the orthographic box
/// spans the framebuffer from the origin, between the fixed near and far
/// planes.
pub fn projection_params(width: i32, height: i32) -> (p: OrthoParams)
    ensures
        p == ortho_of(width, height),
{
    OrthoParams { left: 0, right: width, bottom: 0, top: height, near: NEAR_PLANE, far: FAR_PLANE }
}

/// The context operations of a tick's events, in delivery order.
pub open spec fn events_ops(evs: Seq<WindowEvent>) -> Seq<GfxOp>
    decreases evs.len(),
{
    if evs.len() == 0 {
        Seq::empty()
    } else {
        event_ops(evs[0]) + events_ops(evs.skip(1))
    }
}

/// True when some event of the tick requests that the window close.
pub open spec fn any_close(evs: Seq<WindowEvent>) -> bool
    decreases evs.len(),
{
    if evs.len() == 0 {
        false
    } else {
        event_requests_close(evs[0]) || any_close(evs.skip(1))
    }
}

/// True when some event of the tick is a framebuffer resize.
pub open spec fn has_resize(evs: Seq<WindowEvent>) -> bool
    decreases evs.len(),
{
    if evs.len() == 0 {
        false
    } else {
        evs[0] is FramebufferResize || has_resize(evs.skip(1))
    }
}

/// The framebuffer dimensions a frame renders with: those of the last
/// resize event of the tick, or the current dimensions if none arrived.
pub open spec fn effective_size(width: i32, height: i32, evs: Seq<WindowEvent>) -> (i32, i32)
    decreases evs.len(),
{
    if evs.len() == 0 {
        (width, height)
    } else {
        match evs[0] {
            WindowEvent::FramebufferResize { width: w, height: h } => effective_size(
                w,
                h,
                evs.skip(1),
            ),
            _ => effective_size(width, height, evs.skip(1)),
        }
    }
}

/// The operations of one object's pass: re-activate its program, upload
/// its combined transform, then its draw sequence.
pub open spec fn object_pass_ops(o: Object, i: usize) -> Seq<GfxOp> {
    seq![
        GfxOp::UseProgram { program: o.shader.spec_id() },
        GfxOp::UploadTransform { object_index: i, program: o.shader.spec_id() },
    ] + draw_ops(o)
}

/// The draw passes of the first `upto` objects, in fixed order.
pub open spec fn pass_ops(objects: Seq<Object>, upto: int) -> Seq<GfxOp>
    decreases upto,
{
    if upto <= 0 {
        Seq::empty()
    } else {
        pass_ops(objects, upto - 1) + object_pass_ops(objects[upto - 1], (upto - 1) as usize)
    }
}

/// One tick's decisions: whether the window must close, the projection
/// parameters of the frame, and the operation sequence to execute.
pub struct FramePlan {
    pub close_requested: bool,
    pub projection: OrthoParams,
    pub ops: Vec<GfxOp>,
}

/// Decides one tick: the events' operations in delivery order, then the
/// clear, then every object's pass in fixed order.  The frame's projection
/// uses the dimensions of the last resize event of the tick, or the
/// current dimensions if none arrived; close is requested exactly when
/// some event requests it.
pub fn frame_ops(width: i32, height: i32, events: &Vec<WindowEvent>, objects: &Vec<Object>) -> (r:
    FramePlan)
    ensures
        r.close_requested == any_close(events@),
        r.projection == ortho_of(
            effective_size(width, height, events@).0,
            effective_size(width, height, events@).1,
        ),
        r.ops@ == events_ops(events@) + seq![GfxOp::ClearColorAndDepth] + pass_ops(
            objects@,
            objects@.len() as int,
        ),
{
    let mut ops: Vec<GfxOp> = Vec::new();
    let mut close: bool = false;
    let mut ew: i32 = width;
    let mut eh: i32 = height;
    let mut i: usize = 0;
    proof {
        assert(events@.skip(0) =~= events@);
        assert(ops@ + events_ops(events@) =~= events_ops(events@));
    }
    while i < events.len()
        invariant
            i <= events@.len(),
            events_ops(events@) == ops@ + events_ops(events@.skip(i as int)),
            any_close(events@) == (close || any_close(events@.skip(i as int))),
            effective_size(width, height, events@) == effective_size(
                ew,
                eh,
                events@.skip(i as int),
            ),
        decreases events@.len() - i,
    {
        let ghost rest = events@.skip(i as int);
        proof {
            assert(rest.len() > 0);
            assert(rest[0] == events@[i as int]);
            assert(rest.skip(1) =~= events@.skip(i as int + 1));
        }
        let e = &events[i];
        let effect = handle_window_event(e);
        close = close || effect.close_requested;
        let mut eops = effect.ops;
        ops.append(&mut eops);
        match e {
            WindowEvent::FramebufferResize { width: rw, height: rh } => {
                ew = *rw;
                eh = *rh;
            },
            _ => {},
        }
        proof {
            assert(events_ops(rest) == event_ops(events@[i as int]) + events_ops(
                events@.skip(i as int + 1),
            ));
            assert(ops@ + events_ops(events@.skip(i as int + 1)) =~= events_ops(events@));
        }
        i = i + 1;
    }
    proof {
        assert(events@.skip(i as int) =~= Seq::<WindowEvent>::empty());
    }
    let projection = projection_params(ew, eh);
    ops.push(GfxOp::ClearColorAndDepth);
    let ghost pre_pass = ops@;
    let mut j: usize = 0;
    while j < objects.len()
        invariant
            j <= objects@.len(),
            ops@ == pre_pass + pass_ops(objects@, j as int),
        decreases objects@.len() - j,
    {
        let o = &objects[j];
        ops.push(GfxOp::UseProgram { program: o.shader.program_id() });
        ops.push(GfxOp::UploadTransform { object_index: j, program: o.shader.program_id() });
        let mut d = o.draw();
        ops.append(&mut d);
        proof {
            assert(pass_ops(objects@, j as int + 1) == pass_ops(objects@, j as int)
                + object_pass_ops(objects@[j as int], j));
            assert(ops@ =~= pre_pass + pass_ops(objects@, j as int + 1));
        }
        j = j + 1;
    }
    proof {
        assert(ops@ =~= events_ops(events@) + seq![GfxOp::ClearColorAndDepth] + pass_ops(
            objects@,
            objects@.len() as int,
        ));
    }
    FramePlan { close_requested: close, projection, ops }
}

/// Events that hold no resize leave the modeled viewport as it was.
proof fn lemma_no_resize_preserves_viewport(s: ContextState, evs: Seq<WindowEvent>)
    requires
        !has_resize(evs),
    ensures
        apply_all(s, events_ops(evs)).viewport_width == s.viewport_width,
        apply_all(s, events_ops(evs)).viewport_height == s.viewport_height,
    decreases evs.len(),
{
    if evs.len() == 0 {
        assert(events_ops(evs) =~= Seq::<GfxOp>::empty());
    } else {
        let head = event_ops(evs[0]);
        let tail = events_ops(evs.skip(1));
        lemma_apply_all_append(s, head, tail);
        assert(forall|k: int| 0 <= k < head.len() ==> !changes_viewport(#[trigger] head[k]));
        lemma_viewport_preserved(s, head);
        lemma_no_resize_preserves_viewport(apply_all(s, head), evs.skip(1));
    }
}

/// Without a resize event, the effective dimensions are the current ones.
proof fn lemma_effective_without_resize(width: i32, height: i32, evs: Seq<WindowEvent>)
    requires
        !has_resize(evs),
    ensures
        effective_size(width, height, evs) == (width, height),
    decreases evs.len(),
{
    if evs.len() > 0 {
        match evs[0] {
            WindowEvent::FramebufferResize { .. } => {
                assert(false);
            },
            _ => {
                lemma_effective_without_resize(width, height, evs.skip(1));
            },
        }
    }
}

/// With a resize event present, the effective dimensions do not depend on
/// the current ones.
proof fn lemma_effective_ignores_defaults(
    w1: i32,
    h1: i32,
    w2: i32,
    h2: i32,
    evs: Seq<WindowEvent>,
)
    requires
        has_resize(evs),
    ensures
        effective_size(w1, h1, evs) == effective_size(w2, h2, evs),
    decreases evs.len(),
{
    match evs[0] {
        WindowEvent::FramebufferResize { .. } => {
        },
        _ => {
            lemma_effective_ignores_defaults(w1, h1, w2, h2, evs.skip(1));
        },
    }
}

/// Applying a tick's event operations that include a resize leaves the
/// viewport at the effective dimensions of the tick.
proof fn lemma_events_set_viewport(
    s: ContextState,
    width: i32,
    height: i32,
    evs: Seq<WindowEvent>,
)
    requires
        has_resize(evs),
    ensures
        apply_all(s, events_ops(evs)).viewport_width == effective_size(width, height, evs).0,
        apply_all(s, events_ops(evs)).viewport_height == effective_size(width, height, evs).1,
    decreases evs.len(),
{
    let head = event_ops(evs[0]);
    let rest = evs.skip(1);
    lemma_apply_all_append(s, head, events_ops(rest));
    let s1 = apply_all(s, head);
    match evs[0] {
        WindowEvent::FramebufferResize { width: rw, height: rh } => {
            lemma_apply_single(s, GfxOp::SetViewport { width: rw, height: rh }, head);
            if has_resize(rest) {
                lemma_events_set_viewport(s1, rw, rh, rest);
            } else {
                lemma_no_resize_preserves_viewport(s1, rest);
                lemma_effective_without_resize(rw, rh, rest);
            }
        },
        _ => {
            assert(has_resize(rest));
            assert(forall|k: int| 0 <= k < head.len() ==> !changes_viewport(#[trigger] head[k]));
            lemma_viewport_preserved(s, head);
            lemma_events_set_viewport(s1, width, height, rest);
        },
    }
}

/// No operation of the draw passes changes the viewport.
proof fn lemma_pass_ops_keep_viewport(objects: Seq<Object>, upto: int)
    ensures
        forall|k: int|
            0 <= k < pass_ops(objects, upto).len() ==> !changes_viewport(
                #[trigger] pass_ops(objects, upto)[k],
            ),
    decreases upto,
{
    if upto > 0 {
        lemma_pass_ops_keep_viewport(objects, upto - 1);
        let prefix = pass_ops(objects, upto - 1);
        let tail = object_pass_ops(objects[upto - 1], (upto - 1) as usize);
        assert(forall|k: int| 0 <= k < tail.len() ==> !changes_viewport(#[trigger] tail[k]));
        assert forall|k: int| 0 <= k < pass_ops(objects, upto).len() implies !changes_viewport(
            #[trigger] pass_ops(objects, upto)[k],
        ) by {
            if k < prefix.len() {
                assert(pass_ops(objects, upto)[k] == prefix[k]);
            } else {
                assert(pass_ops(objects, upto)[k] == tail[k - prefix.len()]);
            }
        }
    }
}

/// Law: in a tick whose events include a framebuffer resize, the viewport
/// already holds the dimensions of the last resize when the event phase
/// ends — before the clear and before every draw of the frame — and it
/// still holds them after the whole frame; the frame's projection
/// parameters, by [`frame_ops`], are computed from those same dimensions.
pub proof fn resize_updates_viewport_before_draws(
    s: ContextState,
    width: i32,
    height: i32,
    evs: Seq<WindowEvent>,
    objects: Seq<Object>,
)
    requires
        has_resize(evs),
    ensures
        ({
            let eff = effective_size(width, height, evs);
            let frame = events_ops(evs) + seq![GfxOp::ClearColorAndDepth] + pass_ops(
                objects,
                objects.len() as int,
            );
            &&& apply_all(s, events_ops(evs)).viewport_width == eff.0
            &&& apply_all(s, events_ops(evs)).viewport_height == eff.1
            &&& apply_all(s, frame).viewport_width == eff.0
            &&& apply_all(s, frame).viewport_height == eff.1
        }),
{
    let eff = effective_size(width, height, evs);
    let tail = seq![GfxOp::ClearColorAndDepth] + pass_ops(objects, objects.len() as int);
    lemma_events_set_viewport(s, width, height, evs);
    lemma_apply_all_append(s, events_ops(evs), tail);
    let mid = apply_all(s, events_ops(evs));
    lemma_pass_ops_keep_viewport(objects, objects.len() as int);
    assert(forall|k: int| 0 <= k < tail.len() ==> !changes_viewport(#[trigger] tail[k]));
    lemma_viewport_preserved(mid, tail);
    assert(events_ops(evs) + seq![GfxOp::ClearColorAndDepth] + pass_ops(
        objects,
        objects.len() as int,
    ) =~= events_ops(evs) + tail);
}

} // verus!
