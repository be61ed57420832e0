//! A verified core for a small isometric cube renderer.
//!
//! The library models the graphics context as explicit state and describes
//! every operation the renderer performs on it as a value of [`gfx::GfxOp`].
//! Construction of GPU resources (shader programs, buffers, textures) is
//! driven by verified state machines whose events are the outcomes of the
//! native calls; an unverified shell executes the requested operations
//! against the native API and feeds the results back.

use vstd::prelude::*;

pub mod events;
pub mod frame;
pub mod gfx;
pub mod object;
pub mod shader;


verus! {

/// Number of float components per interleaved vertex: three position
/// components followed by two texture coordinates.
pub const VERTEX_COMPONENTS: usize = 5;

/// Number of vertices in the unindexed cube mesh (6 faces, 2 triangles
/// each, 3 vertices per triangle).
pub const CUBE_VERTEX_COUNT: usize = 36;

/// Builds the identity index list `0, 1, ..., n - 1` used to draw an
/// unindexed mesh through the indexed draw path.
pub fn sequential_indices(n: u32) -> (v: Vec<u32>)
    ensures
        v@.len() == n,
        forall|i: int| 0 <= i < n ==> v@[i] == i,
{
    let mut v: Vec<u32> = Vec::new();
    let mut k: u32 = 0;
    while k < n
        invariant
            k <= n,
            v@.len() == k,
            forall|i: int| 0 <= i < k ==> v@[i] == i,
        decreases n - k,
    {
        v.push(k);
        k = k + 1;
    }
    v
}

} // verus!
