//! The graphics-context model.
//!
//! The native API keeps one global, mutable context: the active program,
//! the bound buffers and texture, the polygon fill rule and the viewport.
//! [`ContextState`] mirrors exactly the parts of that context the renderer
//! depends on, and [`apply`] says how each operation changes it.  The
//! unverified shell owns the real context and must execute every [`GfxOp`]
//! it is handed, in order, on a single thread.

use vstd::prelude::*;

verus! {

/// Rasterizer fill rule for all subsequent draws (global context state,
/// not per-object).
#[derive(Clone, Copy, Debug, PartialEq, Eq, Structural)]
pub enum PolygonMode {
    Filled,
    Wireframe,
}

/// One operation on the graphics context.
///
/// Handles are the opaque integer names the native API hands out for
/// programs, buffers, vertex-array configurations and textures.  Stride and
/// offset of `VertexAttrib` are in bytes: the conversion from component
/// units happens in verified code before an operation is emitted.
#[derive(Clone, Copy, Debug, PartialEq, Eq, Structural)]
pub enum GfxOp {
    /// Make a linked program the active one for draws and uniform uploads.
    UseProgram { program: u32 },
    /// Bind a vertex-array configuration.
    BindVertexArray { vao: u32 },
    /// Bind a vertex buffer.
    BindArrayBuffer { vbo: u32 },
    /// Bind an index buffer.
    BindElementBuffer { ebo: u32 },
    /// Bind a 2D texture.
    BindTexture { tex: u32 },
    /// Declare one interleaved attribute slot on the bound vertex array.
    VertexAttrib { location: u32, components: i32, byte_stride: i32, byte_offset: usize },
    /// Enable an attribute location on the bound vertex array.
    EnableVertexAttrib { location: u32 },
    /// Issue one indexed triangle-list draw of `element_count` elements,
    /// starting at the beginning of the bound index buffer.
    DrawTriangles { element_count: i32 },
    /// Resize the render viewport.
    SetViewport { width: i32, height: i32 },
    /// Switch the rasterizer between filled and wireframe rendering.
    SetPolygonMode { mode: PolygonMode },
    /// Clear the color and depth buffers to their fixed clear values.
    ClearColorAndDepth,
    /// Recompute the combined transform of the object at `object_index`
    /// and upload it as that program's transform uniform.
    UploadTransform { object_index: usize, program: u32 },
    /// Release a texture handle.
    DeleteTexture { tex: u32 },
    /// Release a vertex-array handle.
    DeleteVertexArray { vao: u32 },
    /// Release a buffer handle.
    DeleteBuffer { buf: u32 },
    /// Release a linked program handle.
    DeleteProgram { program: u32 },
}

/// The modeled part of the global graphics context.
///
/// Handle value 0 stands for "nothing bound", as in the native API.
pub struct ContextState {
    pub active_program: u32,
    pub bound_vertex_array: u32,
    pub bound_array_buffer: u32,
    pub bound_element_buffer: u32,
    pub bound_texture: u32,
    pub polygon_mode: PolygonMode,
    pub viewport_width: i32,
    pub viewport_height: i32,
}

/// How one operation changes the modeled context.  Draws, clears, attribute
/// declarations, uniform uploads and handle releases leave every modeled
/// field unchanged.
pub open spec fn apply(s: ContextState, op: GfxOp) -> ContextState {
    match op {
        GfxOp::UseProgram { program } => ContextState { active_program: program, ..s },
        GfxOp::BindVertexArray { vao } => ContextState { bound_vertex_array: vao, ..s },
        GfxOp::BindArrayBuffer { vbo } => ContextState { bound_array_buffer: vbo, ..s },
        GfxOp::BindElementBuffer { ebo } => ContextState { bound_element_buffer: ebo, ..s },
        GfxOp::BindTexture { tex } => ContextState { bound_texture: tex, ..s },
        GfxOp::SetViewport { width, height } => (ContextState {
            viewport_width: width,
            viewport_height: height,
            ..s
        }),
        GfxOp::SetPolygonMode { mode } => ContextState { polygon_mode: mode, ..s },
        _ => s,
    }
}

/// Folds [`apply`] over a sequence of operations, in order.
pub open spec fn apply_all(s: ContextState, ops: Seq<GfxOp>) -> ContextState
    decreases ops.len(),
{
    if ops.len() == 0 {
        s
    } else {
        apply_all(apply(s, ops[0]), ops.skip(1))
    }
}

/// True of the one operation that rasterizes geometry.
pub open spec fn is_draw(op: GfxOp) -> bool {
    op is DrawTriangles
}

/// True of the operations that change the modeled viewport.
pub open spec fn changes_viewport(op: GfxOp) -> bool {
    op is SetViewport
}

/// Appending operations folds through [`apply_all`].
pub proof fn lemma_apply_all_append(s: ContextState, a: Seq<GfxOp>, b: Seq<GfxOp>)
    ensures
        apply_all(s, a + b) == apply_all(apply_all(s, a), b),
    decreases a.len(),
{
    if a.len() == 0 {
        assert(a + b =~= b);
    } else {
        assert((a + b).skip(1) =~= a.skip(1) + b);
        lemma_apply_all_append(apply(s, a[0]), a.skip(1), b);
    }
}

/// A sequence without viewport changes leaves the viewport as it was.
pub proof fn lemma_viewport_preserved(s: ContextState, ops: Seq<GfxOp>)
    requires
        forall|i: int| 0 <= i < ops.len() ==> !changes_viewport(#[trigger] ops[i]),
    ensures
        apply_all(s, ops).viewport_width == s.viewport_width,
        apply_all(s, ops).viewport_height == s.viewport_height,
    decreases ops.len(),
{
    if ops.len() > 0 {
        assert(!changes_viewport(ops[0]));
        lemma_viewport_preserved(apply(s, ops[0]), ops.skip(1));
    }
}

} // verus!
