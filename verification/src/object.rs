//! Drawable objects.
//!
//! An object owns one vertex buffer, one index buffer, one texture, one
//! vertex-array configuration and one shader program.  Construction
//! acquires those five resources in a fixed order, each step a potential
//! failure point; the native calls are performed by an unverified shell
//! and their outcomes drive the verified [`ObjectBuilder`] machine.
//! A mid-sequence failure is rolled back: before the error is reported,
//! the machine requests the release of every handle acquired before the
//! failing step, so a failed build leaks nothing.
//!
//! Attribute declarations and draws are emitted as operation sequences;
//! stride and offset of an attribute are given in float components and
//! converted to bytes here, in verified code.

use vstd::prelude::*;
use vstd::string::StringExecFns;

use crate::gfx::GfxOp;
use crate::shader::{Shader, ShaderError};

verus! {

/// Size in bytes of one float component, and of one index entry.
pub const COMPONENT_BYTES: usize = 4;

/// Why an object could not be built.
#[derive(Clone, Debug, PartialEq, Eq)]
pub enum ObjectError {
    /// The texture file was missing or could not be decoded; carries the
    /// underlying message.
    Texture { message: String },
    /// The owned shader program could not be built.
    Shader { error: ShaderError },
}

/// A decoded texture: dimensions in pixels and the 8-bit RGBA samples,
/// row-major, four bytes per pixel.
#[derive(Debug, PartialEq, Eq)]
pub struct TextureImage {
    pub width: u32,
    pub height: u32,
    pub pixels: Vec<u8>,
}

/// What an encoded image decodes to as 8-bit RGBA — width, height and
/// samples — or `None` where the bytes are not a decodable image.
pub uninterp spec fn rgba_decoding(bytes: Seq<u8>) -> Option<(u32, u32, Seq<u8>)>;

/// Relies on image::load_from_memory and DynamicImage::into_rgba8:
/// decoding is a function of the encoded bytes alone, and an RGBA8 buffer
/// holds exactly four bytes per pixel.
#[verifier::external_body]
fn decode_rgba(bytes: &Vec<u8>) -> (r: Option<TextureImage>)
    ensures
        r is Some <==> rgba_decoding(bytes@) is Some,
        r matches Some(img) ==> rgba_decoding(bytes@) == Some(
            (img.width, img.height, img.pixels@),
        ) && img.pixels@.len() == 4 * img.width * img.height,
{
    match image::load_from_memory(bytes) {
        Ok(decoded) => {
            let rgba = decoded.into_rgba8();
            let width: u32 = rgba.width();
            let height: u32 = rgba.height();
            Some(TextureImage { width, height, pixels: rgba.into_raw() })
        },
        Err(_) => None,
    }
}

/// Decodes an encoded image file's bytes to the texture data an object
/// uploads: `Ok` exactly when the bytes decode as an image, else the
/// object error for a missing or corrupt texture.
pub fn decode_texture(bytes: &Vec<u8>) -> (r: Result<TextureImage, ObjectError>)
    ensures
        r is Ok <==> rgba_decoding(bytes@) is Some,
        r matches Ok(img) ==> rgba_decoding(bytes@) == Some(
            (img.width, img.height, img.pixels@),
        ) && img.pixels@.len() == 4 * img.width * img.height,
        r matches Err(e) ==> e matches ObjectError::Texture { message } && message@
            == "failed to open image"@,
{
    match decode_rgba(bytes) {
        Some(img) => Ok(img),
        None => Err(
            ObjectError::Texture { message: String::from_str("failed to open image") },
        ),
    }
}

/// One drawable object: five GPU handles and the element count of its
/// index list.
#[derive(Debug, PartialEq, Eq)]
pub struct Object {
    /// The owned shader program.
    pub shader: Shader,
    /// Element count of the index list the object was built with.
    pub vert_count: i32,
    /// The texture handle.
    pub tex: u32,
    /// The vertex-buffer handle.
    pub vbo: u32,
    /// The vertex-array handle.
    pub vao: u32,
    /// The index-buffer handle.
    pub ebo: u32,
}

/// The operation sequence of one draw: re-activate the shader, rebind the
/// vertex-array configuration, both buffers and the texture, then issue a
/// single indexed triangle-list draw of the stored element count.  No
/// state diffing: every draw rebinds everything.
pub open spec fn draw_ops(o: Object) -> Seq<GfxOp> {
    seq![
        GfxOp::UseProgram { program: o.shader.spec_id() },
        GfxOp::BindVertexArray { vao: o.vao },
        GfxOp::BindArrayBuffer { vbo: o.vbo },
        GfxOp::BindElementBuffer { ebo: o.ebo },
        GfxOp::BindTexture { tex: o.tex },
        GfxOp::DrawTriangles { element_count: o.vert_count },
    ]
}

impl Object {
    /// Assembles an object from its five acquired resources and the
    /// element count of its index list.
    pub fn new(shader: Shader, vert_count: i32, tex: u32, vbo: u32, vao: u32, ebo: u32) -> (o:
        Object)
        ensures
            o == (Object { shader, vert_count, tex, vbo, vao, ebo }),
    {
        Object { shader, vert_count, tex, vbo, vao, ebo }
    }

    /// Declares one interleaved attribute slot.
    ///
    /// `stride` and `offset` are in float components and are converted to
    /// bytes here: the emitted operation carries `stride * 4` and
    /// `offset * 4`.  No validation against the actual vertex layout is
    /// performed; a wrong stride or offset silently produces garbage
    /// geometry.
    pub fn vertex_attrib(&self, location: u32, size: i32, stride: usize, offset: usize) -> (ops:
        Vec<GfxOp>)
        requires
            stride * COMPONENT_BYTES <= i32::MAX,
            offset * COMPONENT_BYTES <= usize::MAX,
        ensures
            ops@ == seq![
                GfxOp::BindVertexArray { vao: self.vao },
                GfxOp::VertexAttrib {
                    location,
                    components: size,
                    byte_stride: (stride * COMPONENT_BYTES) as i32,
                    byte_offset: (offset * COMPONENT_BYTES) as usize,
                },
                GfxOp::EnableVertexAttrib { location },
            ],
    {
        let byte_stride: usize = stride * COMPONENT_BYTES;
        let byte_offset: usize = offset * COMPONENT_BYTES;
        let mut ops: Vec<GfxOp> = Vec::new();
        ops.push(GfxOp::BindVertexArray { vao: self.vao });
        ops.push(
            GfxOp::VertexAttrib {
                location,
                components: size,
                byte_stride: byte_stride as i32,
                byte_offset,
            },
        );
        ops.push(GfxOp::EnableVertexAttrib { location });
        proof {
            assert(ops@ =~= seq![
                GfxOp::BindVertexArray { vao: self.vao },
                GfxOp::VertexAttrib {
                    location,
                    components: size,
                    byte_stride: (stride * COMPONENT_BYTES) as i32,
                    byte_offset: (offset * COMPONENT_BYTES) as usize,
                },
                GfxOp::EnableVertexAttrib { location },
            ]);
        }
        ops
    }

    /// The operations of one draw of this object; see [`draw_ops`].
    ///
    /// Exactly one of them rasterizes: the last operation is the single
    /// indexed draw of the frame for this object, with the stored element
    /// count, and no earlier operation draws.
    pub fn draw(&self) -> (ops: Vec<GfxOp>)
        ensures
            ops@ == draw_ops(*self),
            ops@.len() == 6,
            ops@[5] == (GfxOp::DrawTriangles { element_count: self.vert_count }),
            forall|i: int| 0 <= i < 5 ==> !crate::gfx::is_draw(#[trigger] ops@[i]),
    {
        let mut ops: Vec<GfxOp> = Vec::new();
        ops.push(GfxOp::UseProgram { program: self.shader.program_id() });
        ops.push(GfxOp::BindVertexArray { vao: self.vao });
        ops.push(GfxOp::BindArrayBuffer { vbo: self.vbo });
        ops.push(GfxOp::BindElementBuffer { ebo: self.ebo });
        ops.push(GfxOp::BindTexture { tex: self.tex });
        ops.push(GfxOp::DrawTriangles { element_count: self.vert_count });
        proof {
            assert(ops@ =~= draw_ops(*self));
        }
        ops
    }

    /// The operations that release the object's own handles, in the fixed
    /// order texture, vertex array, vertex buffer, index buffer.  The
    /// owned shader program releases itself separately.
    pub fn release_ops(&self) -> (ops: Vec<GfxOp>)
        ensures
            ops@ == seq![
                GfxOp::DeleteTexture { tex: self.tex },
                GfxOp::DeleteVertexArray { vao: self.vao },
                GfxOp::DeleteBuffer { buf: self.vbo },
                GfxOp::DeleteBuffer { buf: self.ebo },
            ],
    {
        let mut ops: Vec<GfxOp> = Vec::new();
        ops.push(GfxOp::DeleteTexture { tex: self.tex });
        ops.push(GfxOp::DeleteVertexArray { vao: self.vao });
        ops.push(GfxOp::DeleteBuffer { buf: self.vbo });
        ops.push(GfxOp::DeleteBuffer { buf: self.ebo });
        proof {
            assert(ops@ =~= seq![
                GfxOp::DeleteTexture { tex: self.tex },
                GfxOp::DeleteVertexArray { vao: self.vao },
                GfxOp::DeleteBuffer { buf: self.vbo },
                GfxOp::DeleteBuffer { buf: self.ebo },
            ]);
        }
        ops
    }
}

/// Where an object build stands; each phase carries the handles acquired
/// so far.
#[derive(Debug, PartialEq, Eq)]
pub enum ObjectPhase {
    /// The vertex buffer still has to be created and filled.
    VertexBuffer,
    /// The vertex-array configuration still has to be created.
    VertexArray { vbo: u32 },
    /// The index buffer still has to be created and filled.
    IndexBuffer { vbo: u32, vao: u32 },
    /// The texture still has to be decoded and uploaded.
    Texture { vbo: u32, vao: u32, ebo: u32 },
    /// The owned shader program still has to be built.
    ShaderProgram { vbo: u32, vao: u32, ebo: u32, tex: u32 },
    /// The build succeeded.
    Done { object: Object },
    /// A step failed; every handle acquired before it still has to be
    /// released before the failure is reported.
    RollBack { error: ObjectError, vbo: u32, vao: u32, ebo: u32, tex: Option<u32> },
    /// The build failed; everything it had acquired was released.
    Failed { error: ObjectError },
}

/// What the unverified shell must do next for the build.
#[derive(Clone, Copy, Debug, PartialEq, Eq)]
pub enum ObjectRequest {
    /// Create a vertex buffer and fill it with the vertex floats
    /// (`byte_size` bytes, static usage).
    CreateVertexBuffer { byte_size: usize },
    /// Create a vertex-array configuration.
    CreateVertexArray,
    /// Create an index buffer and fill it with the index list
    /// (`byte_size` bytes, static usage).
    CreateIndexBuffer { byte_size: usize },
    /// Open and decode the texture file to 8-bit RGBA, upload it and
    /// generate mipmaps.
    LoadTexture,
    /// Build the owned shader program.
    BuildShader,
    /// Release the handles a failed build acquired: the texture if one was
    /// created, then the vertex array, vertex buffer and index buffer.
    ReleaseHandles { vbo: u32, vao: u32, ebo: u32, tex: Option<u32> },
}

/// The outcome of one native step, handed back to the build machine.
#[derive(Debug, PartialEq, Eq)]
pub enum ObjectEvent {
    VertexBufferCreated { handle: u32 },
    VertexArrayCreated { handle: u32 },
    IndexBufferCreated { handle: u32 },
    TextureCreated { handle: u32 },
    /// The texture file was missing or could not be decoded.
    TextureFailed { message: String },
    ShaderBuilt { shader: Shader },
    ShaderFailed { error: ShaderError },
    /// The handles of a failed build were released.
    HandlesReleased,
}

/// Which events answer the request pending in a phase.
pub open spec fn object_phase_accepts(p: ObjectPhase, ev: ObjectEvent) -> bool {
    match p {
        ObjectPhase::VertexBuffer => ev is VertexBufferCreated,
        ObjectPhase::VertexArray { .. } => ev is VertexArrayCreated,
        ObjectPhase::IndexBuffer { .. } => ev is IndexBufferCreated,
        ObjectPhase::Texture { .. } => ev is TextureCreated || ev is TextureFailed,
        ObjectPhase::ShaderProgram { .. } => ev is ShaderBuilt || ev is ShaderFailed,
        ObjectPhase::RollBack { .. } => ev is HandlesReleased,
        ObjectPhase::Done { .. } => false,
        ObjectPhase::Failed { .. } => false,
    }
}

/// The transition relation of the build machine: from phase `p`, outcome
/// `ev` leads to phase `q`, for an object whose index list has
/// `index_count` entries.
pub open spec fn object_step_rel(
    p: ObjectPhase,
    ev: ObjectEvent,
    q: ObjectPhase,
    index_count: usize,
) -> bool {
    match p {
        ObjectPhase::VertexBuffer => match ev {
            ObjectEvent::VertexBufferCreated { handle } => q == (ObjectPhase::VertexArray {
                vbo: handle,
            }),
            _ => false,
        },
        ObjectPhase::VertexArray { vbo } => match ev {
            ObjectEvent::VertexArrayCreated { handle } => q == (ObjectPhase::IndexBuffer {
                vbo,
                vao: handle,
            }),
            _ => false,
        },
        ObjectPhase::IndexBuffer { vbo, vao } => match ev {
            ObjectEvent::IndexBufferCreated { handle } => q == (ObjectPhase::Texture {
                vbo,
                vao,
                ebo: handle,
            }),
            _ => false,
        },
        ObjectPhase::Texture { vbo, vao, ebo } => match ev {
            ObjectEvent::TextureCreated { handle } => q == (ObjectPhase::ShaderProgram {
                vbo,
                vao,
                ebo,
                tex: handle,
            }),
            ObjectEvent::TextureFailed { message } => q == (ObjectPhase::RollBack {
                error: ObjectError::Texture { message },
                vbo,
                vao,
                ebo,
                tex: None,
            }),
            _ => false,
        },
        ObjectPhase::ShaderProgram { vbo, vao, ebo, tex } => match ev {
            ObjectEvent::ShaderBuilt { shader } => {
                &&& q matches ObjectPhase::Done { object }
                &&& object.shader == shader
                &&& object.vert_count == index_count as i32
                &&& object.tex == tex
                &&& object.vbo == vbo
                &&& object.vao == vao
                &&& object.ebo == ebo
            },
            ObjectEvent::ShaderFailed { error } => q == (ObjectPhase::RollBack {
                error: ObjectError::Shader { error },
                vbo,
                vao,
                ebo,
                tex: Some(tex),
            }),
            _ => false,
        },
        ObjectPhase::RollBack { error, .. } => match ev {
            ObjectEvent::HandlesReleased => q == (ObjectPhase::Failed { error }),
            _ => false,
        },
        ObjectPhase::Done { .. } => false,
        ObjectPhase::Failed { .. } => false,
    }
}

/// The handles a build holds and has neither handed to a finished object
/// nor released.
pub open spec fn held_handles(p: ObjectPhase) -> Seq<u32> {
    match p {
        ObjectPhase::VertexBuffer => seq![],
        ObjectPhase::VertexArray { vbo } => seq![vbo],
        ObjectPhase::IndexBuffer { vbo, vao } => seq![vbo, vao],
        ObjectPhase::Texture { vbo, vao, ebo } => seq![vbo, vao, ebo],
        ObjectPhase::ShaderProgram { vbo, vao, ebo, tex } => seq![vbo, vao, ebo, tex],
        ObjectPhase::RollBack { vbo, vao, ebo, tex, .. } => match tex {
            Some(t) => seq![vbo, vao, ebo, t],
            None => seq![vbo, vao, ebo],
        },
        // Ownership passed to the finished object.
        ObjectPhase::Done { .. } => seq![],
        // Everything acquired was released during the rollback.
        ObjectPhase::Failed { .. } => seq![],
    }
}

/// The verified build machine for one drawable object.
///
/// The shell repeats: ask [`ObjectBuilder::request`] what to do, perform
/// it, and hand the outcome to [`ObjectBuilder::step`]; when no request is
/// left, [`ObjectBuilder::into_result`] yields the object or the error.
pub struct ObjectBuilder {
    /// Number of float components in the vertex data.
    pub float_count: usize,
    /// Number of entries in the index list; becomes the element count of
    /// every draw of the finished object.
    pub index_count: usize,
    /// Where the build stands.
    pub phase: ObjectPhase,
}

/// The native work pending for a builder, if any.
pub open spec fn object_request_spec(b: ObjectBuilder) -> Option<ObjectRequest> {
    match b.phase {
        ObjectPhase::VertexBuffer => Some(
            ObjectRequest::CreateVertexBuffer {
                byte_size: (b.float_count * COMPONENT_BYTES) as usize,
            },
        ),
        ObjectPhase::VertexArray { .. } => Some(ObjectRequest::CreateVertexArray),
        ObjectPhase::IndexBuffer { .. } => Some(
            ObjectRequest::CreateIndexBuffer {
                byte_size: (b.index_count * COMPONENT_BYTES) as usize,
            },
        ),
        ObjectPhase::Texture { .. } => Some(ObjectRequest::LoadTexture),
        ObjectPhase::ShaderProgram { .. } => Some(ObjectRequest::BuildShader),
        ObjectPhase::RollBack { vbo, vao, ebo, tex, .. } => Some(
            ObjectRequest::ReleaseHandles { vbo, vao, ebo, tex },
        ),
        ObjectPhase::Done { .. } => None,
        ObjectPhase::Failed { .. } => None,
    }
}

impl ObjectBuilder {
    /// True while the machine keeps the counts it was started with.
    pub open spec fn counts_are(&self, float_count: usize, index_count: usize) -> bool {
        self.float_count == float_count && self.index_count == index_count
    }

    /// Starts a build for `float_count` vertex floats and `index_count`
    /// index entries.  The bounds keep every byte size and the element
    /// count representable.
    pub fn new(float_count: usize, index_count: usize) -> (b: ObjectBuilder)
        requires
            float_count * COMPONENT_BYTES <= usize::MAX,
            index_count * COMPONENT_BYTES <= usize::MAX,
            index_count <= i32::MAX,
        ensures
            b.phase == ObjectPhase::VertexBuffer,
            b.counts_are(float_count, index_count),
    {
        ObjectBuilder { float_count, index_count, phase: ObjectPhase::VertexBuffer }
    }

    /// The native work the shell must perform next, or `None` when the
    /// build is over.
    pub fn request(&self) -> (r: Option<ObjectRequest>)
        requires
            self.float_count * COMPONENT_BYTES <= usize::MAX,
            self.index_count * COMPONENT_BYTES <= usize::MAX,
        ensures
            r == object_request_spec(*self),
    {
        match &self.phase {
            ObjectPhase::VertexBuffer => Some(
                ObjectRequest::CreateVertexBuffer { byte_size: self.float_count * COMPONENT_BYTES },
            ),
            ObjectPhase::VertexArray { .. } => Some(ObjectRequest::CreateVertexArray),
            ObjectPhase::IndexBuffer { .. } => Some(
                ObjectRequest::CreateIndexBuffer { byte_size: self.index_count * COMPONENT_BYTES },
            ),
            ObjectPhase::Texture { .. } => Some(ObjectRequest::LoadTexture),
            ObjectPhase::ShaderProgram { .. } => Some(ObjectRequest::BuildShader),
            ObjectPhase::RollBack { vbo, vao, ebo, tex, .. } => Some(
                ObjectRequest::ReleaseHandles { vbo: *vbo, vao: *vao, ebo: *ebo, tex: *tex },
            ),
            ObjectPhase::Done { .. } => None,
            ObjectPhase::Failed { .. } => None,
        }
    }

    /// True when the build is over, one way or the other.
    pub fn finished(&self) -> (r: bool)
        ensures
            r == (self.phase is Done || self.phase is Failed),
    {
        match &self.phase {
            ObjectPhase::Done { .. } => true,
            ObjectPhase::Failed { .. } => true,
            _ => false,
        }
    }

    /// Feeds the outcome of the pending native step into the machine.
    pub fn step(self, ev: ObjectEvent) -> (r: ObjectBuilder)
        requires
            object_phase_accepts(self.phase, ev),
            self.index_count <= i32::MAX,
        ensures
            object_step_rel(self.phase, ev, r.phase, self.index_count),
            r.counts_are(self.float_count, self.index_count),
    {
        let ObjectBuilder { float_count, index_count, phase } = self;
        let next: ObjectPhase = match (phase, ev) {
            (ObjectPhase::VertexBuffer, ObjectEvent::VertexBufferCreated { handle }) => (
            ObjectPhase::VertexArray { vbo: handle }),
            (ObjectPhase::VertexArray { vbo }, ObjectEvent::VertexArrayCreated { handle }) => (
            ObjectPhase::IndexBuffer { vbo, vao: handle }),
            (
                ObjectPhase::IndexBuffer { vbo, vao },
                ObjectEvent::IndexBufferCreated { handle },
            ) => ObjectPhase::Texture { vbo, vao, ebo: handle },
            (ObjectPhase::Texture { vbo, vao, ebo }, ObjectEvent::TextureCreated { handle }) => (
            ObjectPhase::ShaderProgram { vbo, vao, ebo, tex: handle }),
            (ObjectPhase::Texture { vbo, vao, ebo }, ObjectEvent::TextureFailed { message }) => (
            ObjectPhase::RollBack {
                error: ObjectError::Texture { message },
                vbo,
                vao,
                ebo,
                tex: None,
            }),
            (
                ObjectPhase::ShaderProgram { vbo, vao, ebo, tex },
                ObjectEvent::ShaderBuilt { shader },
            ) => {
                let object = Object::new(shader, index_count as i32, tex, vbo, vao, ebo);
                ObjectPhase::Done { object }
            },
            (
                ObjectPhase::ShaderProgram { vbo, vao, ebo, tex },
                ObjectEvent::ShaderFailed { error },
            ) => ObjectPhase::RollBack {
                error: ObjectError::Shader { error },
                vbo,
                vao,
                ebo,
                tex: Some(tex),
            },
            (ObjectPhase::RollBack { error, .. }, ObjectEvent::HandlesReleased) => (
            ObjectPhase::Failed { error }),
            // Excluded by the precondition: no other event answers a
            // pending request.
            _ => ObjectPhase::VertexBuffer,
        };
        ObjectBuilder { float_count, index_count, phase: next }
    }

    /// The finished build's outcome: the object, or why there is none.
    pub fn into_result(self) -> (r: Result<Object, ObjectError>)
        requires
            self.phase is Done || self.phase is Failed,
        ensures
            self.phase matches ObjectPhase::Done { object } ==> r == Ok::<Object, ObjectError>(
                object,
            ),
            self.phase matches ObjectPhase::Failed { error } ==> r == Err::<
                Object,
                ObjectError,
            >(error),
    {
        match self.phase {
            ObjectPhase::Done { object } => Ok(object),
            ObjectPhase::Failed { error } => Err(error),
            // Excluded by the precondition: the build is over.
            _ => Err(ObjectError::Texture { message: String::new() }),
        }
    }
}

/// Law: a missing or corrupt texture fails the build with the texture
/// error kind and does not leak: the machine first requests the release of
/// exactly the vertex buffer, vertex-array configuration and index buffer
/// acquired before the texture step, and only then reports the failure,
/// holding no handle.
pub proof fn texture_failure_reports_object_error(
    p: ObjectPhase,
    ev: ObjectEvent,
    q: ObjectPhase,
    r: ObjectPhase,
    index_count: usize,
)
    requires
        p is Texture,
        ev is TextureFailed,
        object_step_rel(p, ev, q, index_count),
        object_step_rel(q, ObjectEvent::HandlesReleased, r, index_count),
    ensures
        q matches ObjectPhase::RollBack { vbo, vao, ebo, tex, .. } && vbo == p->Texture_vbo
            && vao == p->Texture_vao && ebo == p->Texture_ebo && tex is None,
        forall|b: ObjectBuilder|
            b.phase == q ==> #[trigger] object_request_spec(b) == Some(
                ObjectRequest::ReleaseHandles {
                    vbo: p->Texture_vbo,
                    vao: p->Texture_vao,
                    ebo: p->Texture_ebo,
                    tex: None,
                },
            ),
        r matches ObjectPhase::Failed { error } && error is Texture,
        held_handles(r).len() == 0,
{
}

/// Law: a build reports failure only after releasing what it acquired —
/// the one transition into `Failed` comes from the rollback phase, on the
/// event that the handles were released — and a build that ended, either
/// way, holds no handle.
pub proof fn failed_build_leaves_no_handle(
    p: ObjectPhase,
    ev: ObjectEvent,
    q: ObjectPhase,
    index_count: usize,
)
    requires
        object_step_rel(p, ev, q, index_count),
    ensures
        q is Failed ==> p is RollBack && ev is HandlesReleased,
        q is Failed || q is Done ==> held_handles(q).len() == 0,
{
}

/// Law: an object built from an index list of `index_count` entries draws
/// with exactly one indexed draw, the last operation of its draw sequence,
/// of exactly `index_count` elements.
pub proof fn built_object_draws_index_count(
    p: ObjectPhase,
    ev: ObjectEvent,
    q: ObjectPhase,
    index_count: usize,
)
    requires
        p is ShaderProgram,
        ev is ShaderBuilt,
        object_step_rel(p, ev, q, index_count),
    ensures
        q matches ObjectPhase::Done { object } && draw_ops(object).len() == 6 && draw_ops(
            object,
        )[5] == (GfxOp::DrawTriangles { element_count: index_count as i32 }) && (forall|i: int|
            0 <= i < 5 ==> !crate::gfx::is_draw(#[trigger] draw_ops(object)[i])),
{
}

/// Law: a build in which every native step succeeds ends in `Done`, and
/// the finished object carries exactly the handles the steps produced and
/// the element count of the index list it was started with.
pub proof fn successful_build_yields_object(
    ev_handles: (u32, u32, u32, u32),
    shader: Shader,
    q1: ObjectPhase,
    q2: ObjectPhase,
    q3: ObjectPhase,
    q4: ObjectPhase,
    q5: ObjectPhase,
    index_count: usize,
)
    requires
        object_step_rel(
            ObjectPhase::VertexBuffer,
            ObjectEvent::VertexBufferCreated { handle: ev_handles.0 },
            q1,
            index_count,
        ),
        object_step_rel(
            q1,
            ObjectEvent::VertexArrayCreated { handle: ev_handles.1 },
            q2,
            index_count,
        ),
        object_step_rel(
            q2,
            ObjectEvent::IndexBufferCreated { handle: ev_handles.2 },
            q3,
            index_count,
        ),
        object_step_rel(q3, ObjectEvent::TextureCreated { handle: ev_handles.3 }, q4, index_count),
        object_step_rel(q4, ObjectEvent::ShaderBuilt { shader }, q5, index_count),
    ensures
        q5 matches ObjectPhase::Done { object } && object.shader == shader
            && object.vert_count == index_count as i32 && object.vbo == ev_handles.0
            && object.vao == ev_handles.1 && object.ebo == ev_handles.2
            && object.tex == ev_handles.3,
{
}

} // verus!
