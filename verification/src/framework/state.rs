//! The pipeline state: the explicit device-context object every pass
//! draws through.
//!
//! It keeps a cached copy of the device state (bound program, blend,
//! scissor, stencil and write masks) and records every call it actually
//! issues in an ordered command log. A setter compares the requested
//! value against the cached one and appends a command only on change, so
//! repeated identical sets are recorded no-ops. An unverified backend
//! replays the log against the real graphics context.

use vstd::prelude::*;
use crate::fixed::Fx;
use crate::math::{Color, FxVec2, FxVec3, FxVec4, Mat4, Rect};

verus! {

/// Blend factors of the fixed-function blend equation.
#[derive(Clone, Copy, Debug, PartialEq, Eq, Structural)]
pub enum BlendFactor {
    Zero,
    One,
    SrcColor,
    OneMinusSrcColor,
    SrcAlpha,
    OneMinusSrcAlpha,
    DstAlpha,
    OneMinusDstAlpha,
    DstColor,
    OneMinusDstColor,
}

/// Comparison functions for stencil and depth tests.
#[derive(Clone, Copy, Debug, PartialEq, Eq, Structural)]
pub enum CompareFunc {
    Never,
    Less,
    Equal,
    LessOrEqual,
    Greater,
    NotEqual,
    GreaterOrEqual,
    Always,
}

/// Actions applied to the stencil buffer.
#[derive(Clone, Copy, Debug, PartialEq, Eq, Structural)]
pub enum StencilAction {
    Keep,
    Zero,
    Replace,
    Incr,
    IncrWrap,
    Decr,
    DecrWrap,
    Invert,
}

/// The stencil test function with its reference value and read mask.
#[derive(Clone, Copy, Debug, PartialEq, Eq, Structural)]
pub struct StencilFunc {
    pub func: CompareFunc,
    pub ref_value: u32,
    pub mask: u32,
}

impl StencilFunc {
    /// The device default: always pass, reference 0, full mask.
    pub fn default_value() -> (r: StencilFunc)
        ensures
            r == (StencilFunc { func: CompareFunc::Always, ref_value: 0, mask: 0xFFFF_FFFF }),
    {
        StencilFunc { func: CompareFunc::Always, ref_value: 0, mask: 0xFFFF_FFFF }
    }
}

/// The three stencil buffer operations (stencil fail, depth fail, pass).
#[derive(Clone, Copy, Debug, PartialEq, Eq, Structural)]
pub struct StencilOp {
    pub fail: StencilAction,
    pub zfail: StencilAction,
    pub zpass: StencilAction,
}

impl StencilOp {
    /// The device default: keep on every outcome.
    pub fn default_value() -> (r: StencilOp)
        ensures
            r == (StencilOp {
                fail: StencilAction::Keep,
                zfail: StencilAction::Keep,
                zpass: StencilAction::Keep,
            }),
    {
        StencilOp { fail: StencilAction::Keep, zfail: StencilAction::Keep, zpass: StencilAction::Keep }
    }
}

/// Per-channel colour write mask.
#[derive(Clone, Copy, Debug, PartialEq, Eq, Structural)]
pub struct ColorMask {
    pub red: bool,
    pub green: bool,
    pub blue: bool,
    pub alpha: bool,
}

impl ColorMask {
    /// All four channels set to the given value.
    pub fn all(v: bool) -> (r: ColorMask)
        ensures
            r == (ColorMask { red: v, green: v, blue: v, alpha: v }),
    {
        ColorMask { red: v, green: v, blue: v, alpha: v }
    }
}

/// Which faces are culled when culling is enabled.
#[derive(Clone, Copy, Debug, PartialEq, Eq, Structural)]
pub enum CullFace {
    Back,
    Front,
}

/// The fixed-function state one draw call runs under.
#[derive(Clone, Copy, Debug, PartialEq, Eq, Structural)]
pub struct DrawParameters {
    pub cull_face: CullFace,
    pub culling: bool,
    pub color_write: ColorMask,
    pub depth_write: bool,
    pub stencil_test: bool,
    pub depth_test: bool,
    pub blend: bool,
}

/// A value bound to a shader uniform. Fixed-point values are converted
/// to floating point by the unverified backend when the log is replayed.
#[derive(Clone, Debug, PartialEq)]
pub enum UniformValue {
    Bool(bool),
    Int(i32),
    UInt(u32),
    Scalar(Fx),
    Vec2(FxVec2),
    Vec3(FxVec3),
    Vec4(FxVec4),
    IntArray(Vec<i32>),
    UIntArray(Vec<u32>),
    ScalarArray(Vec<Fx>),
    Vec2Array(Vec<FxVec2>),
    Vec3Array(Vec<FxVec3>),
    Vec4Array(Vec<FxVec4>),
    Matrix2(Mat2),
    Matrix3(Mat3),
    Matrix4(Mat4),
    Matrix2Array(Vec<Mat2>),
    Matrix3Array(Vec<Mat3>),
    Matrix4Array(Vec<Mat4>),
    /// A colour handed to the shader in linear space (converted from
    /// sRGB by the backend).
    LinearColor(Color),
    /// A colour handed to the shader as its plain normalised sRGB value.
    SrgbColor(Color),
    /// A texture bound to a sampler unit.
    Sampler { unit: u32, texture: u32 },
}

/// A 2x2 fixed-point matrix, column-major.
#[derive(Clone, Copy, Debug, PartialEq, Eq)]
pub struct Mat2 {
    pub m: [Fx; 4],
}

/// A 3x3 fixed-point matrix, column-major.
#[derive(Clone, Copy, Debug, PartialEq, Eq)]
pub struct Mat3 {
    pub m: [Fx; 9],
}

/// One call issued to the graphics device. The log of these is the whole
/// observable output of the renderer besides its statistics.
#[derive(Clone, Debug, PartialEq)]
pub enum DeviceCommand {
    UseProgram(Option<u32>),
    SetBlendFunc(BlendFactor, BlendFactor),
    SetScissorTest(bool),
    SetScissorBox(Rect),
    SetStencilFunc(StencilFunc),
    SetStencilOp(StencilOp),
    SetStencilMask(u32),
    SetColorWrite(ColorMask),
    SetDepthWrite(bool),
    SetDepthTest(bool),
    SetBlend(bool),
    SetStencilTest(bool),
    SetCullFace(CullFace),
    SetCulling(bool),
    BindFramebuffer(u32),
    SetViewport(Rect),
    /// Clears the given parts of the bound framebuffer inside `viewport`.
    ClearTarget { framebuffer: u32, viewport: Rect, color: Option<Color>, depth: Option<Fx>, stencil: Option<u32> },
    /// Allocates a texture object on the device.
    CreateTexture {
        id: u32,
        kind: crate::framework::gpu_texture::GpuTextureKind,
        pixel_kind: crate::framework::gpu_texture::PixelKind,
        minification_filter: crate::framework::gpu_texture::MinificationFilter,
        magnification_filter: crate::framework::gpu_texture::MagnificationFilter,
        mip_count: usize,
        with_data: bool,
    },
    SetTextureWrap {
        texture: u32,
        coordinate: crate::framework::gpu_texture::Coordinate,
        wrap: crate::framework::gpu_texture::WrapMode,
    },
    SetTextureMinificationFilter {
        texture: u32,
        filter: crate::framework::gpu_texture::MinificationFilter,
    },
    SetTextureMagnificationFilter {
        texture: u32,
        filter: crate::framework::gpu_texture::MagnificationFilter,
    },
    /// Points a framebuffer's cube-map colour attachment at one face.
    SetCubeMapFace { framebuffer: u32, face: crate::framework::gpu_texture::CubeMapFace },
    /// Creates and links a program from prepared shader sources.
    CreateProgram { id: u32, vertex_source: Vec<u8>, fragment_source: Vec<u8> },
    SetUniform { program: u32, slot: usize, value: UniformValue },
    /// Allocates a geometry buffer object.
    CreateGeometryBuffer { id: u32 },
    /// Allocates a framebuffer object and attaches the given textures.
    CreateFrameBuffer { id: u32, depth_texture: Option<u32>, color_textures: Vec<u32> },
    /// Re-uploads the whole vertex buffer of a geometry buffer.
    UploadVertices { buffer: u32, count: usize },
    /// Re-uploads the triangle index list of a geometry buffer.
    UploadTriangles { buffer: u32, count: usize },
    /// One draw call: a triangle range of a geometry buffer, under a
    /// snapshot of the draw parameters and stencil configuration in
    /// force.
    Draw {
        framebuffer: u32,
        geometry: u32,
        program: u32,
        params: DrawParameters,
        stencil_func: StencilFunc,
        stencil_op: StencilOp,
        stencil_mask: u32,
        start_triangle: usize,
        triangle_count: usize,
    },
}

/// The subsequence of draw calls in a command log, in order.
pub open spec fn draw_seq(s: Seq<DeviceCommand>) -> Seq<DeviceCommand>
    decreases s.len(),
{
    if s.len() == 0 {
        Seq::empty()
    } else {
        draw_seq(s.drop_last()) + if s.last() is Draw {
            seq![s.last()]
        } else {
            Seq::empty()
        }
    }
}

/// Appending one command extends the draw subsequence by that command
/// exactly when it is a draw.
pub proof fn lemma_draw_seq_push(s: Seq<DeviceCommand>, c: DeviceCommand)
    ensures
        draw_seq(s.push(c)) == draw_seq(s) + if c is Draw {
            seq![c]
        } else {
            Seq::<DeviceCommand>::empty()
        },
{
    assert(s.push(c).drop_last() == s);
    assert(s.push(c).last() == c);
    if !(c is Draw) {
        assert(draw_seq(s.push(c)) =~= draw_seq(s));
    }
}

/// Prefix facts compose: if `b` extends `a` and `c` extends `b`, then
/// `c` extends `a`.
pub proof fn lemma_prefix_trans(a: Seq<DeviceCommand>, b: Seq<DeviceCommand>, c: Seq<DeviceCommand>)
    requires
        a.len() <= b.len() <= c.len(),
        b.subrange(0, a.len() as int) == a,
        c.subrange(0, b.len() as int) == b,
    ensures
        c.subrange(0, a.len() as int) == a,
{
    assert forall|i: int| 0 <= i < a.len() implies c.subrange(0, a.len() as int)[i] == a[i] by {
        assert(c[i] == c.subrange(0, b.len() as int)[i]);
        assert(b[i] == b.subrange(0, a.len() as int)[i]);
    };
    assert(c.subrange(0, a.len() as int) =~= a);
}

/// Extending a log by commands none of which is a draw leaves the draw
/// subsequence unchanged.
pub proof fn lemma_draw_seq_extend_non_draws(s: Seq<DeviceCommand>, t: Seq<DeviceCommand>)
    requires
        s.len() <= t.len(),
        t.subrange(0, s.len() as int) == s,
        forall|j: int| s.len() <= j < t.len() ==> !((#[trigger] t[j]) is Draw),
    ensures
        draw_seq(t) == draw_seq(s),
    decreases t.len() - s.len(),
{
    if t.len() > s.len() {
        let t0 = t.drop_last();
        assert(t0.subrange(0, s.len() as int) =~= s);
        lemma_draw_seq_extend_non_draws(s, t0);
        assert(!(t.last() is Draw));
        assert(draw_seq(t) =~= draw_seq(t0));
    } else {
        assert(t =~= s);
    }
}

/// A prefix never has more draws than the whole log.
pub proof fn lemma_draw_seq_prefix_len(s: Seq<DeviceCommand>, t: Seq<DeviceCommand>)
    requires
        s.len() <= t.len(),
        t.subrange(0, s.len() as int) == s,
    ensures
        draw_seq(s).len() <= draw_seq(t).len(),
    decreases t.len() - s.len(),
{
    if t.len() > s.len() {
        let t0 = t.drop_last();
        assert(t0.subrange(0, s.len() as int) =~= s);
        lemma_draw_seq_prefix_len(s, t0);
        assert(draw_seq(t) == draw_seq(t0) + if t.last() is Draw {
            seq![t.last()]
        } else {
            Seq::<DeviceCommand>::empty()
        });
    } else {
        assert(t =~= s);
    }
}

/// If extending a log adds nothing to its draw subsequence, none of the
/// added commands is a draw.
pub proof fn lemma_draw_seq_same_len_no_draws(s: Seq<DeviceCommand>, t: Seq<DeviceCommand>, p: int)
    requires
        s.len() <= t.len(),
        t.subrange(0, s.len() as int) == s,
        draw_seq(t).len() == draw_seq(s).len(),
        s.len() <= p < t.len(),
    ensures
        !(t[p] is Draw),
    decreases t.len() - s.len(),
{
    let t0 = t.drop_last();
    assert(t0.subrange(0, s.len() as int) =~= s);
    lemma_draw_seq_prefix_len(s, t0);
    assert(draw_seq(t) == draw_seq(t0) + if t.last() is Draw {
        seq![t.last()]
    } else {
        Seq::<DeviceCommand>::empty()
    });
    assert(!(t.last() is Draw));
    if p < t.len() - 1 {
        lemma_draw_seq_same_len_no_draws(s, t0, p);
        assert(t[p] == t0[p]);
    }
}

/// When exactly one draw was appended and it sits at the end, no other
/// added position holds a draw.
pub proof fn lemma_single_draw_at_end(s: Seq<DeviceCommand>, t: Seq<DeviceCommand>, p: int)
    requires
        s.len() < t.len(),
        t.subrange(0, s.len() as int) == s,
        draw_seq(t).len() == draw_seq(s).len() + 1,
        t.last() is Draw,
        s.len() <= p < t.len() - 1,
    ensures
        !(t[p] is Draw),
{
    let t0 = t.drop_last();
    assert(t0.subrange(0, s.len() as int) =~= s);
    assert(draw_seq(t) == draw_seq(t0) + seq![t.last()]);
    lemma_draw_seq_same_len_no_draws(s, t0, p);
    assert(t[p] == t0[p]);
}

/// The cached device state: what the device is currently configured to,
/// as far as the renderer has told it.
#[derive(Clone, Copy, Debug, PartialEq, Eq, Structural)]
pub struct RenderState {
    pub program: Option<u32>,
    pub blend_src: BlendFactor,
    pub blend_dst: BlendFactor,
    pub scissor_test: bool,
    pub scissor_box: Rect,
    pub stencil_func: StencilFunc,
    pub stencil_op: StencilOp,
    pub stencil_mask: u32,
    pub color_write: ColorMask,
    pub depth_write: bool,
    pub depth_test: bool,
    pub blend: bool,
    pub stencil_test: bool,
    pub cull_face: CullFace,
    pub culling: bool,
    pub framebuffer: u32,
    pub viewport: Rect,
}

/// The device context: the cached state, the log of issued calls, and an
/// allocator for device object ids. Created once per context; every
/// renderer call goes through a `&mut` reference to it, so independent
/// contexts can be made for independent tests.
pub struct PipelineState {
    pub cache: RenderState,
    pub commands: Vec<DeviceCommand>,
    pub next_id: u32,
}

impl PipelineState {
    /// A fresh context with the device's initial state and an empty log.
    pub fn new() -> (s: PipelineState)
        ensures
            s.commands@.len() == 0,
            s.next_id == 1,
            s.cache == initial_render_state(),
    {
        PipelineState {
            cache: RenderState {
                program: None,
                blend_src: BlendFactor::One,
                blend_dst: BlendFactor::Zero,
                scissor_test: false,
                scissor_box: Rect { x: 0, y: 0, w: 0, h: 0 },
                stencil_func: StencilFunc::default_value(),
                stencil_op: StencilOp::default_value(),
                stencil_mask: 0xFFFF_FFFF,
                color_write: ColorMask::all(true),
                depth_write: true,
                depth_test: false,
                blend: false,
                stencil_test: false,
                cull_face: CullFace::Back,
                culling: false,
                framebuffer: 0,
                viewport: Rect { x: 0, y: 0, w: 0, h: 0 },
            },
            commands: Vec::new(),
            next_id: 1,
        }
    }

    /// The log of calls issued so far.
    pub fn commands(&self) -> (r: &Vec<DeviceCommand>)
        ensures
            r@ == self.commands@,
    {
        &self.commands
    }

    /// How many calls have been issued so far.
    pub fn command_count(&self) -> (r: usize)
        ensures
            r == self.commands@.len(),
    {
        self.commands.len()
    }

    /// Allocates a fresh device object id.
    pub(crate) fn alloc_id(&mut self) -> (r: u32)
        requires
            old(self).next_id < 0xFFFF_FFFFu32,
        ensures
            r == old(self).next_id,
            final(self).next_id == old(self).next_id + 1,
            final(self).cache == old(self).cache,
            final(self).commands@ == old(self).commands@,
    {
        let id = self.next_id;
        self.next_id = self.next_id + 1;
        id
    }

    /// Appends a command to the log unconditionally.
    pub(crate) fn push_command(&mut self, cmd: DeviceCommand)
        ensures
            final(self).commands@ == old(self).commands@.push(cmd),
            final(self).cache == old(self).cache,
            final(self).next_id == old(self).next_id,
            cmd is Draw ==> draw_seq(final(self).commands@) == draw_seq(
                old(self).commands@,
            ).push(cmd),
            !(cmd is Draw) ==> draw_seq(final(self).commands@) == draw_seq(old(self).commands@),
    {
        proof {
            lemma_draw_seq_push(self.commands@, cmd);
            if cmd is Draw {
                assert(draw_seq(self.commands@) + seq![cmd] =~= draw_seq(self.commands@).push(
                    cmd,
                ));
            } else {
                assert(draw_seq(self.commands@) + Seq::<DeviceCommand>::empty() =~= draw_seq(
                    self.commands@,
                ));
            }
        }
        self.commands.push(cmd);
    }

    /// Binds a program, eliding the call if it is already bound.
    pub fn set_program(&mut self, program: Option<u32>)
        ensures
            final(self).cache == (RenderState { program, ..old(self).cache }),
            final(self).next_id == old(self).next_id,
            final(self).commands@ == if old(self).cache.program == program {
                old(self).commands@
            } else {
                old(self).commands@.push(DeviceCommand::UseProgram(program))
            },
            draw_seq(final(self).commands@) == draw_seq(old(self).commands@),
    {
        if self.cache.program != program {
            self.cache.program = program;
            self.push_command(DeviceCommand::UseProgram(program));
        }
    }

    /// Sets the blend equation factors, eliding a redundant set.
    pub fn set_blend_func(&mut self, src: BlendFactor, dst: BlendFactor)
        ensures
            final(self).cache == (RenderState { blend_src: src, blend_dst: dst, ..old(self).cache }),
            final(self).next_id == old(self).next_id,
            final(self).commands@ == if old(self).cache.blend_src == src && old(self).cache.blend_dst
                == dst {
                old(self).commands@
            } else {
                old(self).commands@.push(DeviceCommand::SetBlendFunc(src, dst))
            },
            draw_seq(final(self).commands@) == draw_seq(old(self).commands@),
    {
        if self.cache.blend_src != src || self.cache.blend_dst != dst {
            self.cache.blend_src = src;
            self.cache.blend_dst = dst;
            self.push_command(DeviceCommand::SetBlendFunc(src, dst));
        }
    }

    /// Enables or disables the scissor test, eliding a redundant set.
    pub fn set_scissor_test(&mut self, on: bool)
        ensures
            final(self).cache == (RenderState { scissor_test: on, ..old(self).cache }),
            final(self).next_id == old(self).next_id,
            final(self).commands@ == if old(self).cache.scissor_test == on {
                old(self).commands@
            } else {
                old(self).commands@.push(DeviceCommand::SetScissorTest(on))
            },
            draw_seq(final(self).commands@) == draw_seq(old(self).commands@),
    {
        if self.cache.scissor_test != on {
            self.cache.scissor_test = on;
            self.push_command(DeviceCommand::SetScissorTest(on));
        }
    }

    /// Sets the scissor rectangle, eliding a redundant set.
    pub fn set_scissor_box(&mut self, rect: Rect)
        ensures
            final(self).cache == (RenderState { scissor_box: rect, ..old(self).cache }),
            final(self).next_id == old(self).next_id,
            final(self).commands@ == if old(self).cache.scissor_box == rect {
                old(self).commands@
            } else {
                old(self).commands@.push(DeviceCommand::SetScissorBox(rect))
            },
            draw_seq(final(self).commands@) == draw_seq(old(self).commands@),
    {
        if self.cache.scissor_box != rect {
            self.cache.scissor_box = rect;
            self.push_command(DeviceCommand::SetScissorBox(rect));
        }
    }

    /// Sets the stencil function, eliding a redundant set.
    pub fn set_stencil_func(&mut self, func: StencilFunc)
        ensures
            final(self).cache == (RenderState { stencil_func: func, ..old(self).cache }),
            final(self).next_id == old(self).next_id,
            final(self).commands@ == if old(self).cache.stencil_func == func {
                old(self).commands@
            } else {
                old(self).commands@.push(DeviceCommand::SetStencilFunc(func))
            },
            draw_seq(final(self).commands@) == draw_seq(old(self).commands@),
    {
        if self.cache.stencil_func != func {
            self.cache.stencil_func = func;
            self.push_command(DeviceCommand::SetStencilFunc(func));
        }
    }

    /// Sets the stencil operations, eliding a redundant set.
    pub fn set_stencil_op(&mut self, op: StencilOp)
        ensures
            final(self).cache == (RenderState { stencil_op: op, ..old(self).cache }),
            final(self).next_id == old(self).next_id,
            final(self).commands@ == if old(self).cache.stencil_op == op {
                old(self).commands@
            } else {
                old(self).commands@.push(DeviceCommand::SetStencilOp(op))
            },
            draw_seq(final(self).commands@) == draw_seq(old(self).commands@),
    {
        if self.cache.stencil_op != op {
            self.cache.stencil_op = op;
            self.push_command(DeviceCommand::SetStencilOp(op));
        }
    }

    /// Sets the stencil write mask, eliding a redundant set.
    pub fn set_stencil_mask(&mut self, mask: u32)
        ensures
            final(self).cache == (RenderState { stencil_mask: mask, ..old(self).cache }),
            final(self).next_id == old(self).next_id,
            final(self).commands@ == if old(self).cache.stencil_mask == mask {
                old(self).commands@
            } else {
                old(self).commands@.push(DeviceCommand::SetStencilMask(mask))
            },
            draw_seq(final(self).commands@) == draw_seq(old(self).commands@),
    {
        if self.cache.stencil_mask != mask {
            self.cache.stencil_mask = mask;
            self.push_command(DeviceCommand::SetStencilMask(mask));
        }
    }

    /// Sets the colour write mask, eliding a redundant set.
    pub fn set_color_write(&mut self, mask: ColorMask)
        ensures
            final(self).cache == (RenderState { color_write: mask, ..old(self).cache }),
            final(self).next_id == old(self).next_id,
            final(self).commands@ == if old(self).cache.color_write == mask {
                old(self).commands@
            } else {
                old(self).commands@.push(DeviceCommand::SetColorWrite(mask))
            },
            draw_seq(final(self).commands@) == draw_seq(old(self).commands@),
    {
        if self.cache.color_write != mask {
            self.cache.color_write = mask;
            self.push_command(DeviceCommand::SetColorWrite(mask));
        }
    }

    /// Enables or disables depth writes, eliding a redundant set.
    pub fn set_depth_write(&mut self, on: bool)
        ensures
            final(self).cache == (RenderState { depth_write: on, ..old(self).cache }),
            final(self).next_id == old(self).next_id,
            final(self).commands@ == if old(self).cache.depth_write == on {
                old(self).commands@
            } else {
                old(self).commands@.push(DeviceCommand::SetDepthWrite(on))
            },
            draw_seq(final(self).commands@) == draw_seq(old(self).commands@),
    {
        if self.cache.depth_write != on {
            self.cache.depth_write = on;
            self.push_command(DeviceCommand::SetDepthWrite(on));
        }
    }

    /// Enables or disables the depth test, eliding a redundant set.
    pub fn set_depth_test(&mut self, on: bool)
        ensures
            final(self).cache == (RenderState { depth_test: on, ..old(self).cache }),
            final(self).next_id == old(self).next_id,
            final(self).commands@ == if old(self).cache.depth_test == on {
                old(self).commands@
            } else {
                old(self).commands@.push(DeviceCommand::SetDepthTest(on))
            },
            draw_seq(final(self).commands@) == draw_seq(old(self).commands@),
    {
        if self.cache.depth_test != on {
            self.cache.depth_test = on;
            self.push_command(DeviceCommand::SetDepthTest(on));
        }
    }

    /// Enables or disables blending, eliding a redundant set.
    pub fn set_blend(&mut self, on: bool)
        ensures
            final(self).cache == (RenderState { blend: on, ..old(self).cache }),
            final(self).next_id == old(self).next_id,
            final(self).commands@ == if old(self).cache.blend == on {
                old(self).commands@
            } else {
                old(self).commands@.push(DeviceCommand::SetBlend(on))
            },
            draw_seq(final(self).commands@) == draw_seq(old(self).commands@),
    {
        if self.cache.blend != on {
            self.cache.blend = on;
            self.push_command(DeviceCommand::SetBlend(on));
        }
    }

    /// Enables or disables the stencil test, eliding a redundant set.
    pub fn set_stencil_test(&mut self, on: bool)
        ensures
            final(self).cache == (RenderState { stencil_test: on, ..old(self).cache }),
            final(self).next_id == old(self).next_id,
            final(self).commands@ == if old(self).cache.stencil_test == on {
                old(self).commands@
            } else {
                old(self).commands@.push(DeviceCommand::SetStencilTest(on))
            },
            draw_seq(final(self).commands@) == draw_seq(old(self).commands@),
    {
        if self.cache.stencil_test != on {
            self.cache.stencil_test = on;
            self.push_command(DeviceCommand::SetStencilTest(on));
        }
    }

    /// Sets which faces are culled, eliding a redundant set.
    pub fn set_cull_face(&mut self, face: CullFace)
        ensures
            final(self).cache == (RenderState { cull_face: face, ..old(self).cache }),
            final(self).next_id == old(self).next_id,
            final(self).commands@ == if old(self).cache.cull_face == face {
                old(self).commands@
            } else {
                old(self).commands@.push(DeviceCommand::SetCullFace(face))
            },
            draw_seq(final(self).commands@) == draw_seq(old(self).commands@),
    {
        if self.cache.cull_face != face {
            self.cache.cull_face = face;
            self.push_command(DeviceCommand::SetCullFace(face));
        }
    }

    /// Enables or disables face culling, eliding a redundant set.
    pub fn set_culling(&mut self, on: bool)
        ensures
            final(self).cache == (RenderState { culling: on, ..old(self).cache }),
            final(self).next_id == old(self).next_id,
            final(self).commands@ == if old(self).cache.culling == on {
                old(self).commands@
            } else {
                old(self).commands@.push(DeviceCommand::SetCulling(on))
            },
            draw_seq(final(self).commands@) == draw_seq(old(self).commands@),
    {
        if self.cache.culling != on {
            self.cache.culling = on;
            self.push_command(DeviceCommand::SetCulling(on));
        }
    }

    /// Binds a framebuffer, eliding the call if it is already bound.
    pub fn set_framebuffer(&mut self, id: u32)
        ensures
            final(self).cache == (RenderState { framebuffer: id, ..old(self).cache }),
            final(self).next_id == old(self).next_id,
            final(self).commands@ == if old(self).cache.framebuffer == id {
                old(self).commands@
            } else {
                old(self).commands@.push(DeviceCommand::BindFramebuffer(id))
            },
            draw_seq(final(self).commands@) == draw_seq(old(self).commands@),
    {
        if self.cache.framebuffer != id {
            self.cache.framebuffer = id;
            self.push_command(DeviceCommand::BindFramebuffer(id));
        }
    }

    /// Sets the viewport rectangle, eliding a redundant set.
    pub fn set_viewport(&mut self, rect: Rect)
        ensures
            final(self).cache == (RenderState { viewport: rect, ..old(self).cache }),
            final(self).next_id == old(self).next_id,
            final(self).commands@ == if old(self).cache.viewport == rect {
                old(self).commands@
            } else {
                old(self).commands@.push(DeviceCommand::SetViewport(rect))
            },
            draw_seq(final(self).commands@) == draw_seq(old(self).commands@),
    {
        if self.cache.viewport != rect {
            self.cache.viewport = rect;
            self.push_command(DeviceCommand::SetViewport(rect));
        }
    }

    /// Applies the write masks and depth test of a draw-parameter
    /// snapshot through the eliding setters.
    fn apply_masks(&mut self, params: &DrawParameters)
        ensures
            final(self).cache == (RenderState {
                color_write: params.color_write,
                depth_write: params.depth_write,
                depth_test: params.depth_test,
                ..old(self).cache
            }),
            final(self).next_id == old(self).next_id,
            final(self).commands@.len() >= old(self).commands@.len(),
            final(self).commands@.subrange(0, old(self).commands@.len() as int) == old(
                self,
            ).commands@,
            draw_seq(final(self).commands@) == draw_seq(old(self).commands@),
    {
        let ghost base = self.commands@;
        self.set_color_write(params.color_write);
        proof {
            assert(self.commands@.subrange(0, base.len() as int) =~= base);
        }
        let ghost s1 = self.commands@;
        self.set_depth_write(params.depth_write);
        proof {
            assert(self.commands@.subrange(0, base.len() as int) =~= s1.subrange(
                0,
                base.len() as int,
            ));
        }
        let ghost s2 = self.commands@;
        self.set_depth_test(params.depth_test);
        proof {
            assert(self.commands@.subrange(0, base.len() as int) =~= s2.subrange(
                0,
                base.len() as int,
            ));
        }
    }

    /// Applies the blend, stencil and culling fields of a draw-parameter
    /// snapshot through the eliding setters.
    fn apply_tests(&mut self, params: &DrawParameters)
        ensures
            final(self).cache == (RenderState {
                blend: params.blend,
                stencil_test: params.stencil_test,
                cull_face: params.cull_face,
                culling: params.culling,
                ..old(self).cache
            }),
            final(self).next_id == old(self).next_id,
            final(self).commands@.len() >= old(self).commands@.len(),
            final(self).commands@.subrange(0, old(self).commands@.len() as int) == old(
                self,
            ).commands@,
            draw_seq(final(self).commands@) == draw_seq(old(self).commands@),
    {
        let ghost base = self.commands@;
        self.set_blend(params.blend);
        proof {
            assert(self.commands@.subrange(0, base.len() as int) =~= base);
        }
        let ghost s1 = self.commands@;
        self.set_stencil_test(params.stencil_test);
        proof {
            assert(self.commands@.subrange(0, base.len() as int) =~= s1.subrange(
                0,
                base.len() as int,
            ));
        }
        let ghost s2 = self.commands@;
        self.set_cull_face(params.cull_face);
        proof {
            assert(self.commands@.subrange(0, base.len() as int) =~= s2.subrange(
                0,
                base.len() as int,
            ));
        }
        let ghost s3 = self.commands@;
        self.set_culling(params.culling);
        proof {
            assert(self.commands@.subrange(0, base.len() as int) =~= s3.subrange(
                0,
                base.len() as int,
            ));
        }
    }

    /// Applies all fields of a draw-parameter snapshot through the
    /// eliding setters.
    pub fn apply_draw_parameters(&mut self, params: &DrawParameters)
        ensures
            final(self).cache == (RenderState {
                color_write: params.color_write,
                depth_write: params.depth_write,
                depth_test: params.depth_test,
                blend: params.blend,
                stencil_test: params.stencil_test,
                cull_face: params.cull_face,
                culling: params.culling,
                ..old(self).cache
            }),
            final(self).next_id == old(self).next_id,
            final(self).commands@.len() >= old(self).commands@.len(),
            final(self).commands@.subrange(0, old(self).commands@.len() as int) == old(
                self,
            ).commands@,
            draw_seq(final(self).commands@) == draw_seq(old(self).commands@),
    {
        let ghost base = self.commands@;
        self.apply_masks(params);
        let ghost mid = self.commands@;
        self.apply_tests(params);
        proof {
            assert(self.commands@.subrange(0, base.len() as int) == mid.subrange(
                0,
                base.len() as int,
            )) by {
                assert(self.commands@.subrange(0, base.len() as int) =~= mid.subrange(
                    0,
                    mid.len() as int,
                ).subrange(0, base.len() as int));
                assert(mid.subrange(0, mid.len() as int) =~= mid);
            };
        }
    }
}

/// The device state a fresh context starts in.
pub open spec fn initial_render_state() -> RenderState {
    RenderState {
        program: None,
        blend_src: BlendFactor::One,
        blend_dst: BlendFactor::Zero,
        scissor_test: false,
        scissor_box: Rect { x: 0, y: 0, w: 0, h: 0 },
        stencil_func: StencilFunc { func: CompareFunc::Always, ref_value: 0, mask: 0xFFFF_FFFF },
        stencil_op: StencilOp {
            fail: StencilAction::Keep,
            zfail: StencilAction::Keep,
            zpass: StencilAction::Keep,
        },
        stencil_mask: 0xFFFF_FFFF,
        color_write: ColorMask { red: true, green: true, blue: true, alpha: true },
        depth_write: true,
        depth_test: false,
        blend: false,
        stencil_test: false,
        cull_face: CullFace::Back,
        culling: false,
        framebuffer: 0,
        viewport: Rect { x: 0, y: 0, w: 0, h: 0 },
    }
}

} // verus!
