//! Window input handling.
//!
//! The windowing backend delivers a finite batch of events each tick.  The
//! renderer reacts to exactly three of them: the escape key requests that
//! the window close, a designated toggle key switches the rasterizer
//! between wireframe (while held) and filled (on release), and a
//! framebuffer resize moves the render viewport to the new dimensions.
//! Everything else is ignored.

use vstd::prelude::*;

use crate::gfx::{apply, apply_all, ContextState, GfxOp, PolygonMode};

verus! {

/// Key identity, reduced to the keys the renderer reacts to.
#[derive(Clone, Copy, Debug, PartialEq, Eq, Structural)]
pub enum Key {
    /// Requests window close when pressed.
    Escape,
    /// Holds the rasterizer in wireframe mode while down.
    WireframeToggle,
    /// Any other key.
    Other,
}

/// What happened to a key.
#[derive(Clone, Copy, Debug, PartialEq, Eq, Structural)]
pub enum KeyAction {
    Press,
    Release,
    Repeat,
}

/// One event delivered by the windowing backend.
#[derive(Clone, Copy, Debug, PartialEq, Eq, Structural)]
pub enum WindowEvent {
    Key { key: Key, action: KeyAction },
    FramebufferResize { width: i32, height: i32 },
    Other,
}

/// What one event does to the rest of the tick: whether it requests that
/// the window close, and which context operations it demands.
pub struct EventEffect {
    pub close_requested: bool,
    pub ops: Vec<GfxOp>,
}

/// The context operations one event demands.
pub open spec fn event_ops(e: WindowEvent) -> Seq<GfxOp> {
    match e {
        WindowEvent::Key { key: Key::WireframeToggle, action: KeyAction::Press } => seq![
            GfxOp::SetPolygonMode { mode: PolygonMode::Wireframe },
        ],
        WindowEvent::Key { key: Key::WireframeToggle, action: KeyAction::Release } => seq![
            GfxOp::SetPolygonMode { mode: PolygonMode::Filled },
        ],
        WindowEvent::FramebufferResize { width, height } => seq![
            GfxOp::SetViewport { width, height },
        ],
        _ => seq![],
    }
}

/// True exactly when the event requests that the window close.
pub open spec fn event_requests_close(e: WindowEvent) -> bool {
    e == (WindowEvent::Key { key: Key::Escape, action: KeyAction::Press })
}

/// Reacts to one window event.
///
/// Escape pressed requests close and demands nothing of the context; the
/// wireframe toggle switches the polygon mode to wireframe on press and
/// back to filled on release; a framebuffer resize moves the viewport to
/// the new dimensions; every other event does nothing.
pub fn handle_window_event(event: &WindowEvent) -> (r: EventEffect)
    ensures
        r.close_requested == event_requests_close(*event),
        r.ops@ == event_ops(*event),
{
    let mut ops: Vec<GfxOp> = Vec::new();
    let mut close_requested = false;
    match event {
        WindowEvent::Key { key: Key::Escape, action: KeyAction::Press } => {
            close_requested = true;
        },
        WindowEvent::Key { key: Key::WireframeToggle, action: KeyAction::Press } => {
            ops.push(GfxOp::SetPolygonMode { mode: PolygonMode::Wireframe });
        },
        WindowEvent::Key { key: Key::WireframeToggle, action: KeyAction::Release } => {
            ops.push(GfxOp::SetPolygonMode { mode: PolygonMode::Filled });
        },
        WindowEvent::FramebufferResize { width, height } => {
            ops.push(GfxOp::SetViewport { width: *width, height: *height });
        },
        _ => {},
    }
    proof {
        assert(ops@ =~= event_ops(*event));
    }
    EventEffect { close_requested, ops }
}

/// Law: taking the wireframe toggle down and then up puts the rasterizer
/// in wireframe mode in between and leaves it filled afterwards, whatever
/// mode it started in, and touches nothing else in the context.
pub proof fn wireframe_toggle_restores_filled(s: ContextState)
    ensures
        ({
            let down = apply_all(
                s,
                event_ops(WindowEvent::Key { key: Key::WireframeToggle, action: KeyAction::Press }),
            );
            let up = apply_all(
                down,
                event_ops(
                    WindowEvent::Key { key: Key::WireframeToggle, action: KeyAction::Release },
                ),
            );
            &&& down.polygon_mode == PolygonMode::Wireframe
            &&& up.polygon_mode == PolygonMode::Filled
            &&& up == ContextState { polygon_mode: PolygonMode::Filled, ..s }
        }),
{
    lemma_apply_single(
        s,
        GfxOp::SetPolygonMode { mode: PolygonMode::Wireframe },
        event_ops(WindowEvent::Key { key: Key::WireframeToggle, action: KeyAction::Press }),
    );
    lemma_apply_single(
        apply(s, GfxOp::SetPolygonMode { mode: PolygonMode::Wireframe }),
        GfxOp::SetPolygonMode { mode: PolygonMode::Filled },
        event_ops(WindowEvent::Key { key: Key::WireframeToggle, action: KeyAction::Release }),
    );
}

/// Law: a framebuffer resize event moves the viewport to exactly the new
/// dimensions and changes nothing else in the context.
pub proof fn resize_sets_viewport(s: ContextState, width: i32, height: i32)
    ensures
        apply_all(s, event_ops(WindowEvent::FramebufferResize { width, height }))
            == (ContextState { viewport_width: width, viewport_height: height, ..s }),
{
    lemma_apply_single(
        s,
        GfxOp::SetViewport { width, height },
        event_ops(WindowEvent::FramebufferResize { width, height }),
    );
}

/// Folding a one-operation sequence is one application.
pub proof fn lemma_apply_single(s: ContextState, op: GfxOp, ops: Seq<GfxOp>)
    requires
        ops == seq![op],
    ensures
        apply_all(s, ops) == apply(s, op),
{
    assert(ops.len() == 1);
    assert(ops[0] == op);
    assert(ops.skip(1) =~= Seq::<GfxOp>::empty());
    assert(apply_all(s, ops) == apply_all(apply(s, op), ops.skip(1)));
    assert(apply_all(apply(s, op), Seq::<GfxOp>::empty()) == apply(s, op));
}

} // verus!
