//! High-dynamic-range rendering: scene luminance extraction, the
//! downscale chain that reduces it to one average value, temporal eye
//! adaptation, and the tone-mapping pass.
//!
//! Each stage is a pure function of its framebuffer inputs; the only
//! state that survives a frame is the adaptation ping-pong pair. The
//! texel contents the device passes would compute are modelled
//! explicitly in fixed point, so the chain's arithmetic is part of the
//! verified library.

use vstd::prelude::*;
use crate::cache::{texture_get_result, TextureCache, TextureResource};
use crate::fixed::{fx_sat, fx_shift_down, Fx, FX_ONE};
use crate::framework::error::FrameworkError;
use crate::framework::framebuffer::{draw_command, Attachment, AttachmentKind, FrameBuffer};
use crate::framework::geometry_buffer::{DrawCallStatistics, GeometryBuffer};
use crate::framework::gpu_program::{
    decorated_name, has_uniform, CompileOutcome, GpuProgram, UniformLocation, FRAGMENT_SUFFIX,
    VERTEX_SUFFIX,
};
use crate::framework::gpu_texture::{
    GpuTexture, GpuTextureKind, MagnificationFilter, MinificationFilter, PixelKind,
};
use crate::framework::state::{
    draw_seq, ColorMask, CullFace, DeviceCommand, DrawParameters, PipelineState, UniformValue,
};
use crate::math::{Color, FxVec2, Mat4, Rect};
use crate::stats::RenderPassStatistics;
use vstd::string::StringSliceAdditionalSpecFns;

verus! {

/// Largest raw luminance value the chain works on; keeps every sum and
/// average inside the exactly-representable range.
pub const LUM_MAX_RAW: i64 = 0x1_0000_0000_0000;

/// All texels of a luminance grid lie in the valid range.
pub open spec fn lum_range(texels: Seq<Fx>) -> bool {
    forall|k: int| 0 <= k < texels.len() ==> 0 <= (#[trigger] texels[k]).raw <= LUM_MAX_RAW
}

/// A square framebuffer of scalar luminance texels. The texel grid holds
/// the values the device pass computes.
pub struct LumBuffer {
    pub framebuffer: FrameBuffer,
    pub size: usize,
    pub texels: Vec<Fx>,
}

/// The well-formedness of a luminance buffer: a square grid of valid
/// luminance values behind a one-attachment framebuffer.
pub open spec fn lum_wf(b: LumBuffer) -> bool {
    &&& 1 <= b.size <= 4096
    &&& b.texels@.len() == b.size * b.size
    &&& lum_range(b.texels@)
    &&& b.framebuffer.color_attachments@.len() == 1
}

/// Fills a vector with `n` zero texels.
fn zero_texels(n: usize) -> (r: Vec<Fx>)
    ensures
        r@.len() == n,
        forall|k: int| 0 <= k < n ==> (#[trigger] r@[k]).raw == 0,
{
    let mut v: Vec<Fx> = Vec::new();
    let mut i: usize = 0;
    while i < n
        invariant
            i <= n,
            v@.len() == i,
            forall|k: int| 0 <= k < i ==> (#[trigger] v@[k]).raw == 0,
        decreases n - i,
    {
        v.push(Fx::zero());
        i = i + 1;
    }
    v
}

impl LumBuffer {
    /// Creates a `size` by `size` luminance target with all texels zero.
    pub fn new(state: &mut PipelineState, size: usize) -> (r: Result<LumBuffer, FrameworkError>)
        requires
            1 <= size <= 4096,
            old(state).next_id as int + 2 < 0x1_0000_0000,
        ensures
            r is Ok,
            r is Ok ==> {
                &&& lum_wf(r->Ok_0)
                &&& r->Ok_0.size == size
                &&& r->Ok_0.framebuffer.depth_attachment is None
                &&& r->Ok_0.framebuffer.color_attachments@[0].kind
                    == crate::framework::framebuffer::AttachmentKind::Color
                &&& r->Ok_0.framebuffer.color_attachments@[0].texture == (GpuTexture {
                    id: old(state).next_id,
                    kind: GpuTextureKind::Rectangle { width: size, height: size },
                    pixel_kind: PixelKind::F32,
                    minification_filter: MinificationFilter::Nearest,
                    magnification_filter: MagnificationFilter::Nearest,
                    mip_count: 1,
                })
                &&& forall|k: int| 0 <= k < size * size ==> (#[trigger] r->Ok_0.texels@[k]).raw == 0
                &&& final(state).next_id == old(state).next_id + 2
                &&& final(state).cache == old(state).cache
                &&& final(state).commands@.len() == old(state).commands@.len() + 2
                &&& final(state).commands@.subrange(0, old(state).commands@.len() as int) == old(
                    state,
                ).commands@
                &&& draw_seq(final(state).commands@) == draw_seq(old(state).commands@)
            },
    {
        let texture = match GpuTexture::new(
            state,
            GpuTextureKind::Rectangle { width: size, height: size },
            PixelKind::F32,
            MinificationFilter::Nearest,
            MagnificationFilter::Nearest,
            1,
            None,
        ) {
            Ok(t) => t,
            Err(e) => {
                proof {
                    assert(false);
                }
                return Err(e);
            },
        };
        let ghost mid = state.commands@;
        let mut colors: Vec<Attachment> = Vec::new();
        colors.push(Attachment { kind: AttachmentKind::Color, texture });
        let framebuffer = match FrameBuffer::new(state, None, colors) {
            Ok(f) => f,
            Err(e) => {
                proof {
                    assert(false);
                }
                return Err(e);
            },
        };
        proof {
            let base = old(state).commands@;
            assert(state.commands@.subrange(0, base.len() as int) =~= base);
            assert forall|j: int|
                base.len() <= j < state.commands@.len() implies !((#[trigger] state.commands@[j])
                is Draw) by {
                if j < mid.len() {
                    assert(state.commands@[j] == state.commands@.subrange(
                        0,
                        mid.len() as int,
                    )[j]);
                } else {
                    assert(state.commands@[j] == state.commands@.last());
                }
            };
            crate::framework::state::lemma_draw_seq_extend_non_draws(base, state.commands@);
            assert(size * size <= 4096 * 4096) by (nonlinear_arith)
                requires
                    1 <= size <= 4096,
            ;
        }
        let texels = zero_texels(size * size);
        Ok(LumBuffer { framebuffer, size, texels })
    }

    /// Clears the buffer to black, on the device and in the texel grid.
    pub fn clear(&mut self, state: &mut PipelineState)
        requires
            lum_wf(*old(self)),
        ensures
            lum_wf(*final(self)),
            final(self).size == old(self).size,
            final(self).framebuffer == old(self).framebuffer,
            forall|k: int|
                0 <= k < final(self).texels@.len() ==> (#[trigger] final(self).texels@[k]).raw
                    == 0,
            final(state).next_id == old(state).next_id,
            final(state).cache == (crate::framework::state::RenderState {
                framebuffer: old(self).framebuffer.id,
                ..old(state).cache
            }),
            draw_seq(final(state).commands@) == draw_seq(old(state).commands@),
            final(state).commands@.len() >= old(state).commands@.len(),
            final(state).commands@.subrange(0, old(state).commands@.len() as int) == old(
                state,
            ).commands@,
    {
        proof {
            assert(self.size * self.size <= 4096 * 4096) by (nonlinear_arith)
                requires
                    1 <= self.size <= 4096,
            ;
        }
        let size_i32: i32 = self.size as i32;
        let ghost pre = state.commands@;
        self.framebuffer.clear(
            state,
            Rect { x: 0, y: 0, w: size_i32, h: size_i32 },
            Some(Color::black()),
            None,
            None,
        );
        self.texels = zero_texels(self.size * self.size);
        proof {
            assert(state.commands@.subrange(0, pre.len() as int) =~= pre);
            crate::framework::state::lemma_draw_seq_extend_non_draws(pre, state.commands@);
        }
    }

    /// The world-view-projection matrix that maps the unit quad over the
    /// whole buffer: an orthographic projection of the buffer's extent
    /// composed with a scaling by its size, which is one constant
    /// matrix whatever the size.
    pub fn matrix(&self) -> (r: Mat4)
        ensures
            r == lum_quad_matrix(),
    {
        let two = Fx::from_raw(2 * FX_ONE);
        let neg_two = Fx::from_raw(-2 * FX_ONE);
        let one = Fx::one();
        let neg_one = Fx::from_raw(-FX_ONE);
        let z = Fx::zero();
        Mat4 {
            m: [
                two,
                z,
                z,
                z,
                z,
                neg_two,
                z,
                z,
                z,
                z,
                z,
                z,
                neg_one,
                one,
                z,
                one,
            ],
        }
    }

    /// The device texture holding this buffer's colour attachment.
    pub fn texture(&self) -> (r: u32)
        requires
            lum_wf(*self),
        ensures
            r == self.framebuffer.color_attachments@[0].texture.id,
    {
        self.framebuffer.color_attachments()[0].texture.id()
    }
}

/// The quad-to-clip matrix every luminance pass draws with.
pub open spec fn lum_quad_matrix() -> Mat4 {
    Mat4 {
        m: [
            Fx { raw: 131072 },
            Fx { raw: 0 },
            Fx { raw: 0 },
            Fx { raw: 0 },
            Fx { raw: 0 },
            Fx { raw: -131072i64 },
            Fx { raw: 0 },
            Fx { raw: 0 },
            Fx { raw: 0 },
            Fx { raw: 0 },
            Fx { raw: 0 },
            Fx { raw: 0 },
            Fx { raw: -65536i64 },
            Fx { raw: 65536 },
            Fx { raw: 0 },
            Fx { raw: 65536 },
        ],
    }
}

/// The box average of the 2x2 source block feeding output texel
/// `(x, y)`: the exact value the downscale pass writes.
pub open spec fn box_avg(src: Seq<Fx>, src_size: int, x: int, y: int) -> int {
    (src[2 * y * src_size + 2 * x].raw + src[2 * y * src_size + 2 * x + 1].raw + src[(2 * y + 1)
        * src_size + 2 * x].raw + src[(2 * y + 1) * src_size + 2 * x + 1].raw) / 4
}

/// One downscale step: every output texel of the half-size grid is the
/// box average of its 2x2 source block.
pub open spec fn downsampled(src: Seq<Fx>, src_size: int, out: Seq<Fx>) -> bool {
    let os = src_size / 2;
    &&& out.len() == os * os
    &&& forall|x: int, y: int|
        0 <= x < os && 0 <= y < os ==> (#[trigger] out[y * os + x]).raw == box_avg(
            src,
            src_size,
            x,
            y,
        )
}

/// Computes one downscale step on the texel grid.
fn downsample(src: &Vec<Fx>, src_size: usize) -> (out: Vec<Fx>)
    requires
        2 <= src_size <= 4096,
        src_size % 2 == 0,
        src@.len() == src_size * src_size,
        lum_range(src@),
    ensures
        downsampled(src@, src_size as int, out@),
        lum_range(out@),
{
    let os: usize = src_size / 2;
    proof {
        assert(os * os <= src_size * src_size && src_size * src_size <= 4096 * 4096) by (nonlinear_arith)
            requires
                2 <= src_size <= 4096,
                os == src_size / 2,
        ;
    }
    let total = src.len();
    proof {
        assert(total == src_size * src_size);
    }
    let mut out: Vec<Fx> = Vec::new();
    let mut y: usize = 0;
    while y < os
        invariant
            y <= os,
            os == src_size / 2,
            2 <= src_size <= 4096,
            src_size % 2 == 0,
            src_size * src_size <= usize::MAX,
            src@.len() == src_size * src_size,
            lum_range(src@),
            out@.len() == y * os,
            lum_range(out@),
            forall|xx: int, yy: int|
                0 <= xx < os && 0 <= yy < y ==> (#[trigger] out@[yy * os + xx]).raw == box_avg(
                    src@,
                    src_size as int,
                    xx,
                    yy,
                ),
        decreases os - y,
    {
        let mut x: usize = 0;
        while x < os
            invariant
                y < os,
                x <= os,
                os == src_size / 2,
                2 <= src_size <= 4096,
                src_size % 2 == 0,
                src_size * src_size <= usize::MAX,
                src@.len() == src_size * src_size,
                lum_range(src@),
                out@.len() == y * os + x,
                lum_range(out@),
                forall|xx: int, yy: int|
                    0 <= xx < os && 0 <= yy < y ==> (#[trigger] out@[yy * os + xx]).raw == box_avg(
                        src@,
                        src_size as int,
                        xx,
                        yy,
                    ),
                forall|xx: int|
                    0 <= xx < x ==> (#[trigger] out@[y * os + xx]).raw == box_avg(
                        src@,
                        src_size as int,
                        xx,
                        y as int,
                    ),
            decreases os - x,
        {
            proof {
                lemma_block_indexes(src_size as int, x as int, y as int);
            }
            let i00: usize = 2 * y * src_size + 2 * x;
            let i01: usize = i00 + 1;
            let i10: usize = (2 * y + 1) * src_size + 2 * x;
            let i11: usize = i10 + 1;
            let sum: i64 = src[i00].raw + src[i01].raw + src[i10].raw + src[i11].raw;
            let avg: i64 = sum / 4;
            out.push(Fx { raw: avg });
            x = x + 1;
            proof {
                assert(out@.len() == y * os + x);
                assert forall|xx: int|
                    0 <= xx < x implies (#[trigger] out@[y * os + xx]).raw == box_avg(
                    src@,
                    src_size as int,
                    xx,
                    y as int,
                ) by {
                    if xx < x - 1 {
                        assert(out@[y * os + xx] == out@.drop_last()[y * os + xx]);
                    }
                };
                assert forall|xx: int, yy: int|
                    0 <= xx < os && 0 <= yy < y implies (#[trigger] out@[yy * os + xx]).raw
                        == box_avg(src@, src_size as int, xx, yy) by {
                    assert(yy * os + xx < y * os) by (nonlinear_arith)
                        requires
                            0 <= xx < os,
                            0 <= yy < y,
                    ;
                    assert(out@[yy * os + xx] == out@.drop_last()[yy * os + xx]);
                };
            }
        }
        y = y + 1;
        proof {
            assert(out@.len() == y * os) by (nonlinear_arith)
                requires
                    out@.len() == (y - 1) * os + os,
            ;
            assert forall|xx: int, yy: int|
                0 <= xx < os && 0 <= yy < y implies (#[trigger] out@[yy * os + xx]).raw == box_avg(
                src@,
                src_size as int,
                xx,
                yy,
            ) by {
            };
        }
    }
    proof {
        assert(out@.len() == os * os);
    }
    out
}

/// The 2x2 block of output texel `(x, y)` lies inside the source grid,
/// and its indexes stay inside `usize`.
proof fn lemma_block_indexes(src_size: int, x: int, y: int)
    requires
        2 <= src_size,
        src_size % 2 == 0,
        0 <= x < src_size / 2,
        0 <= y < src_size / 2,
    ensures
        0 <= 2 * y * src_size + 2 * x,
        (2 * y + 1) * src_size + 2 * x + 1 < src_size * src_size,
        2 * y * src_size + 2 * x + 1 < (2 * y + 1) * src_size,
        2 * y * src_size <= (2 * y + 1) * src_size,
{
    assert((2 * y + 1) * src_size + 2 * x + 1 < src_size * src_size && 2 * y * src_size + 2 * x + 1
        < (2 * y + 1) * src_size && 0 <= 2 * y * src_size + 2 * x && 2 * y * src_size <= (2 * y
        + 1) * src_size) by (nonlinear_arith)
        requires
            2 <= src_size,
            src_size % 2 == 0,
            0 <= x < src_size / 2,
            0 <= y < src_size / 2,
    ;
}

/// A uniform grid stays uniform under one downscale step: averaging a
/// constant block gives the constant back exactly.
pub proof fn lemma_downsample_uniform(src: Seq<Fx>, src_size: int, out: Seq<Fx>, v: int)
    requires
        2 <= src_size,
        src_size % 2 == 0,
        src.len() == src_size * src_size,
        downsampled(src, src_size, out),
        forall|k: int| 0 <= k < src.len() ==> (#[trigger] src[k]).raw == v,
    ensures
        forall|k: int| 0 <= k < out.len() ==> (#[trigger] out[k]).raw == v,
{
    let os = src_size / 2;
    assert forall|k: int| 0 <= k < out.len() implies (#[trigger] out[k]).raw == v by {
        let x = k % os;
        let y = k / os;
        assert(0 <= x < os && 0 <= y < os && k == y * os + x) by (nonlinear_arith)
            requires
                os >= 1,
                0 <= k < os * os,
                x == k % os,
                y == k / os,
        ;
        lemma_block_indexes(src_size, x, y);
        assert(out[y * os + x].raw == box_avg(src, src_size, x, y));
        assert(box_avg(src, src_size, x, y) == (4 * v) / 4);
        assert((4 * v) / 4 == v) by (nonlinear_arith);
    };
}

/// The exact value one adaptation step writes: the previous adapted
/// value moved toward the instant value by the fraction `speed`, and by
/// at least one representable quantum so adaptation never stalls.
pub open spec fn adapt_spec(prev: int, instant: int, speed: int) -> int {
    let delta = fx_shift_down((instant - prev) * speed);
    if instant == prev {
        prev
    } else if delta == 0 {
        if instant > prev {
            prev + 1
        } else {
            prev - 1
        }
    } else {
        prev + delta
    }
}

/// One temporal adaptation step. The output lies strictly between the
/// previous value and the instant value (reaching the instant value
/// only in its last quantum or at full speed), and is strictly closer
/// to the instant value whenever they differ.
pub fn adapt_step(prev: Fx, instant: Fx, speed: Fx) -> (r: Fx)
    requires
        0 <= prev.raw <= LUM_MAX_RAW,
        0 <= instant.raw <= LUM_MAX_RAW,
        1 <= speed.raw <= FX_ONE,
    ensures
        r.raw == adapt_spec(prev.raw as int, instant.raw as int, speed.raw as int),
        prev.raw < instant.raw ==> prev.raw < r.raw <= instant.raw,
        prev.raw > instant.raw ==> instant.raw <= r.raw < prev.raw,
        prev.raw == instant.raw ==> r.raw == prev.raw,
        0 <= r.raw <= LUM_MAX_RAW,
{
    proof {
        lemma_adapt_spec_between(prev.raw as int, instant.raw as int, speed.raw as int);
    }
    let gap = instant.sub(prev);
    let delta = gap.mul(speed);
    proof {
        assert(fx_sat(instant.raw - prev.raw) == instant.raw - prev.raw);
        assert(fx_sat(fx_shift_down((instant.raw - prev.raw) * speed.raw)) == fx_shift_down(
            (instant.raw - prev.raw) * speed.raw,
        )) by {
            lemma_shift_down_bound(instant.raw - prev.raw, speed.raw as int);
        };
    }
    if instant.raw == prev.raw {
        prev
    } else if delta.raw == 0 {
        if instant.raw > prev.raw {
            Fx { raw: prev.raw + 1 }
        } else {
            Fx { raw: prev.raw - 1 }
        }
    } else {
        Fx { raw: prev.raw + delta.raw }
    }
}

/// The scaled gap keeps the gap's sign and never exceeds it in
/// magnitude, for speeds up to one.
proof fn lemma_shift_down_bound(gap: int, speed: int)
    requires
        -0x2_0000_0000_0000 <= gap <= 0x2_0000_0000_0000,
        1 <= speed <= FX_ONE,
    ensures
        gap >= 0 ==> 0 <= fx_shift_down(gap * speed) <= gap,
        gap <= 0 ==> gap <= fx_shift_down(gap * speed) <= 0,
{
    if gap >= 0 {
        assert(0 <= gap * speed <= gap * 65536) by (nonlinear_arith)
            requires
                0 <= gap,
                1 <= speed <= 65536,
        ;
        assert((gap * speed) / 65536 <= (gap * 65536) / 65536) by {
            vstd::arithmetic::div_mod::lemma_div_is_ordered(gap * speed, gap * 65536, 65536);
        };
        assert((gap * 65536) / 65536 == gap) by (nonlinear_arith);
        assert((gap * speed) / 65536 >= 0) by (nonlinear_arith)
            requires
                gap * speed >= 0,
        ;
    } else {
        let m = -gap;
        assert(0 <= m * speed <= m * 65536) by (nonlinear_arith)
            requires
                0 <= m,
                1 <= speed <= 65536,
        ;
        assert((m * speed) / 65536 <= (m * 65536) / 65536) by {
            vstd::arithmetic::div_mod::lemma_div_is_ordered(m * speed, m * 65536, 65536);
        };
        assert((m * 65536) / 65536 == m) by (nonlinear_arith);
        assert((m * speed) / 65536 >= 0) by (nonlinear_arith)
            requires
                m * speed >= 0,
        ;
        assert(gap * speed == -(m * speed)) by (nonlinear_arith)
            requires
                m == -gap,
        ;
        assert(fx_shift_down(gap * speed) == -((m * speed) / 65536));
    }
}

/// The adaptation step is a monotone approach: the result lies between
/// the previous and the instant value and moves by at least one quantum.
pub proof fn lemma_adapt_spec_between(prev: int, instant: int, speed: int)
    requires
        0 <= prev <= LUM_MAX_RAW,
        0 <= instant <= LUM_MAX_RAW,
        1 <= speed <= FX_ONE,
    ensures
        prev < instant ==> prev < adapt_spec(prev, instant, speed) <= instant,
        prev > instant ==> instant <= adapt_spec(prev, instant, speed) < prev,
        prev == instant ==> adapt_spec(prev, instant, speed) == prev,
        0 <= adapt_spec(prev, instant, speed) <= LUM_MAX_RAW,
{
    lemma_shift_down_bound(instant - prev, speed);
}

/// Iterating the adaptation step `n` frames from `prev` toward a held
/// instant value.
pub open spec fn adapt_iter(n: nat, prev: int, instant: int, speed: int) -> int
    decreases n,
{
    if n == 0 {
        prev
    } else {
        adapt_iter((n - 1) as nat, adapt_spec(prev, instant, speed), instant, speed)
    }
}

/// Law: with the instant luminance and the frame time held fixed, the
/// adaptation converges exactly to the instant value within a bounded
/// number of frames — at most the size of the initial gap in quanta.
pub proof fn lemma_adaptation_converges(n: nat, prev: int, instant: int, speed: int)
    requires
        0 <= prev <= LUM_MAX_RAW,
        0 <= instant <= LUM_MAX_RAW,
        1 <= speed <= FX_ONE,
        n >= abs_gap(prev, instant),
    ensures
        adapt_iter(n, prev, instant, speed) == instant,
    decreases n,
{
    lemma_adapt_spec_between(prev, instant, speed);
    if prev == instant {
        if n > 0 {
            lemma_adaptation_converges((n - 1) as nat, prev, instant, speed);
        }
    } else {
        let next = adapt_spec(prev, instant, speed);
        assert(abs_gap(next, instant) < abs_gap(prev, instant));
        lemma_adaptation_converges((n - 1) as nat, next, instant, speed);
    }
}

/// The distance between two raw luminance values.
pub open spec fn abs_gap(a: int, b: int) -> int {
    if a >= b {
        a - b
    } else {
        b - a
    }
}


/// What the tone map binds as its colour-grading lookup: the cached
/// texture of the bound asset, or the identity stub when none is bound
/// or it has no data this frame.
pub open spec fn map_resolved_lut(
    stub: u32,
    entries: Seq<crate::cache::CacheEntry<GpuTexture>>,
    next_id: u32,
    lut: Option<&TextureResource>,
) -> u32 {
    match lut {
        Option::None => stub,
        Option::Some(l) => match texture_get_result(entries, next_id, *l) {
            Option::Some(id) => id,
            Option::None => stub,
        },
    }
}

/// The exposure policy of the tone-mapping pass.
#[derive(Clone, Copy, Debug, PartialEq, Eq, Structural)]
pub enum Exposure {
    /// Key value plus clamped luminance range drive the exposure.
    Auto { key_value: Fx, min_luminance: Fx, max_luminance: Fx },
    /// A fixed exposure scalar.
    Manual(Fx),
}

/// The vertex shader every full-screen luminance pass draws with.
pub fn flat_vertex_source() -> (r: &'static str) {
    "#version 330 core\nlayout(location = 0) in vec3 vertexPosition;\nuniform mat4 worldViewProjection;\nout vec2 texCoord;\nvoid main() { texCoord = vertexPosition.xy; gl_Position = worldViewProjection * vec4(vertexPosition, 1.0); }\n"
}

/// The luminance-extraction shader builds exactly when the driver
/// verdict linked and resolved its three uniforms.
/// What a failed shader build reports, given the driver verdict it was
/// handed: a compile failure carries the stage's decorated name and the
/// driver's message, a link failure the bare name and the message, and
/// a linked verdict that resolved too few uniforms the name of an
/// unresolved uniform.
pub open spec fn build_error_matches(
    e: crate::framework::error::FrameworkError,
    outcome: CompileOutcome,
    name: Seq<u8>,
) -> bool {
    match outcome {
        CompileOutcome::VertexError(m) => (e
            matches crate::framework::error::FrameworkError::ShaderCompilationFailed {
            shader_name,
            error_message,
        } && shader_name@ == decorated_name(name, VERTEX_SUFFIX.spec_bytes()) && error_message@
            == m@),
        CompileOutcome::FragmentError(m) => (e
            matches crate::framework::error::FrameworkError::ShaderCompilationFailed {
            shader_name,
            error_message,
        } && shader_name@ == decorated_name(name, FRAGMENT_SUFFIX.spec_bytes()) && error_message@
            == m@),
        CompileOutcome::LinkError(m) => (e
            matches crate::framework::error::FrameworkError::ShaderLinkingFailed {
            shader_name,
            error_message,
        } && shader_name@ == name && error_message@ == m@),
        CompileOutcome::Linked { uniforms } => (e
            matches crate::framework::error::FrameworkError::UnableToFindShaderUniform(n)
            && !has_uniform(uniforms@, n@)),
    }
}

pub open spec fn luminance_shader_ready(outcome: CompileOutcome) -> bool {
    outcome matches CompileOutcome::Linked { uniforms } && has_uniform(
        uniforms@,
        "worldViewProjection".spec_bytes(),
    ) && has_uniform(uniforms@, "invSize".spec_bytes()) && has_uniform(
        uniforms@,
        "frameSampler".spec_bytes(),
    )
}

/// The downscale shader builds exactly when the driver verdict linked
/// and resolved its three uniforms.
pub open spec fn downscale_shader_ready(outcome: CompileOutcome) -> bool {
    outcome matches CompileOutcome::Linked { uniforms } && has_uniform(
        uniforms@,
        "worldViewProjection".spec_bytes(),
    ) && has_uniform(uniforms@, "lumSampler".spec_bytes()) && has_uniform(
        uniforms@,
        "invSize".spec_bytes(),
    )
}

/// The adaptation shader builds exactly when the driver verdict linked
/// and resolved its four uniforms.
pub open spec fn adaptation_shader_ready(outcome: CompileOutcome) -> bool {
    outcome matches CompileOutcome::Linked { uniforms } && has_uniform(
        uniforms@,
        "worldViewProjection".spec_bytes(),
    ) && has_uniform(uniforms@, "oldLumSampler".spec_bytes()) && has_uniform(
        uniforms@,
        "newLumSampler".spec_bytes(),
    ) && has_uniform(uniforms@, "speed".spec_bytes())
}

/// The tone-mapping shader builds exactly when the driver verdict
/// linked and resolved its eleven uniforms.
pub open spec fn map_shader_ready(outcome: CompileOutcome) -> bool {
    outcome matches CompileOutcome::Linked { uniforms } && has_uniform(
        uniforms@,
        "worldViewProjection".spec_bytes(),
    ) && has_uniform(uniforms@, "lumSampler".spec_bytes()) && has_uniform(
        uniforms@,
        "bloomSampler".spec_bytes(),
    ) && has_uniform(uniforms@, "hdrSampler".spec_bytes()) && has_uniform(
        uniforms@,
        "useColorGrading".spec_bytes(),
    ) && has_uniform(uniforms@, "colorMapSampler".spec_bytes()) && has_uniform(
        uniforms@,
        "keyValue".spec_bytes(),
    ) && has_uniform(uniforms@, "minLuminance".spec_bytes()) && has_uniform(
        uniforms@,
        "maxLuminance".spec_bytes(),
    ) && has_uniform(uniforms@, "autoExposure".spec_bytes()) && has_uniform(
        uniforms@,
        "fixedExposure".spec_bytes(),
    )
}

/// The luminance-extraction shader: one screen pass writing scalar
/// luminance.
pub struct LuminanceShader {
    pub program: GpuProgram,
    pub wvp_matrix: UniformLocation,
    pub inv_size: UniformLocation,
    pub frame_sampler: UniformLocation,
}

impl LuminanceShader {
    /// Builds the shader under the driver verdict `outcome`.
    pub fn new(state: &mut PipelineState, outcome: CompileOutcome) -> (r: Result<
        LuminanceShader,
        FrameworkError,
    >)
        requires
            old(state).next_id < 0xFFFF_FFFFu32,
        ensures
            r is Ok <==> luminance_shader_ready(outcome),
            r is Err ==> build_error_matches(r->Err_0, outcome, "LuminanceShader".spec_bytes()),
            !(outcome is Linked) ==> *final(state) == *old(state),
            r is Ok ==> {
                &&& r->Ok_0.program.id == old(state).next_id
                &&& final(state).next_id == old(state).next_id + 1
                &&& final(state).cache == old(state).cache
                &&& final(state).commands@.subrange(0, old(state).commands@.len() as int) == old(
                    state,
                ).commands@
                &&& final(state).commands@.len() == old(state).commands@.len() + 1
                &&& draw_seq(final(state).commands@) == draw_seq(old(state).commands@)
            },
    {
        let fragment_source =
            "#version 330 core\nin vec2 texCoord;\nuniform sampler2D frameSampler;\nuniform vec2 invSize;\nout float outLum;\nvoid main() { outLum = luminance(texture(frameSampler, texCoord).rgb); }\n";
        let program = match GpuProgram::from_source(
            state,
            "LuminanceShader",
            flat_vertex_source().as_bytes(),
            fragment_source.as_bytes(),
            outcome,
        ) {
            Ok(p) => p,
            Err(e) => {
                return Err(e);
            },
        };
        proof {
            crate::framework::state::lemma_draw_seq_extend_non_draws(
                old(state).commands@,
                state.commands@,
            );
        }
        let wvp_matrix = match program.uniform_location("worldViewProjection") {
            Ok(l) => l,
            Err(e) => {
                return Err(e);
            },
        };
        let inv_size = match program.uniform_location("invSize") {
            Ok(l) => l,
            Err(e) => {
                return Err(e);
            },
        };
        let frame_sampler = match program.uniform_location("frameSampler") {
            Ok(l) => l,
            Err(e) => {
                return Err(e);
            },
        };
        Ok(LuminanceShader { program, wvp_matrix, inv_size, frame_sampler })
    }
}

/// The downscale shader: box-samples one luminance buffer into the next
/// smaller one.
pub struct DownscaleShader {
    pub program: GpuProgram,
    pub lum_sampler: UniformLocation,
    pub inv_size: UniformLocation,
    pub wvp_matrix: UniformLocation,
}

impl DownscaleShader {
    /// Builds the shader under the driver verdict `outcome`.
    pub fn new(state: &mut PipelineState, outcome: CompileOutcome) -> (r: Result<
        DownscaleShader,
        FrameworkError,
    >)
        requires
            old(state).next_id < 0xFFFF_FFFFu32,
        ensures
            r is Ok <==> downscale_shader_ready(outcome),
            r is Err ==> build_error_matches(r->Err_0, outcome, "DownscaleShader".spec_bytes()),
            !(outcome is Linked) ==> *final(state) == *old(state),
            r is Ok ==> {
                &&& r->Ok_0.program.id == old(state).next_id
                &&& final(state).next_id == old(state).next_id + 1
                &&& final(state).cache == old(state).cache
                &&& final(state).commands@.subrange(0, old(state).commands@.len() as int) == old(
                    state,
                ).commands@
                &&& final(state).commands@.len() == old(state).commands@.len() + 1
                &&& draw_seq(final(state).commands@) == draw_seq(old(state).commands@)
            },
    {
        let fragment_source =
            "#version 330 core\nin vec2 texCoord;\nuniform sampler2D lumSampler;\nuniform vec2 invSize;\nout float outLum;\nvoid main() { outLum = 0.25 * (texture(lumSampler, texCoord).r + texture(lumSampler, texCoord + vec2(invSize.x, 0.0)).r + texture(lumSampler, texCoord + vec2(0.0, invSize.y)).r + texture(lumSampler, texCoord + invSize).r); }\n";
        let program = match GpuProgram::from_source(
            state,
            "DownscaleShader",
            flat_vertex_source().as_bytes(),
            fragment_source.as_bytes(),
            outcome,
        ) {
            Ok(p) => p,
            Err(e) => {
                return Err(e);
            },
        };
        proof {
            crate::framework::state::lemma_draw_seq_extend_non_draws(
                old(state).commands@,
                state.commands@,
            );
        }
        let wvp_matrix = match program.uniform_location("worldViewProjection") {
            Ok(l) => l,
            Err(e) => {
                return Err(e);
            },
        };
        let lum_sampler = match program.uniform_location("lumSampler") {
            Ok(l) => l,
            Err(e) => {
                return Err(e);
            },
        };
        let inv_size = match program.uniform_location("invSize") {
            Ok(l) => l,
            Err(e) => {
                return Err(e);
            },
        };
        Ok(DownscaleShader { program, lum_sampler, inv_size, wvp_matrix })
    }
}

/// The adaptation shader: blends the previous adapted luminance toward
/// the instant value.
pub struct AdaptationShader {
    pub program: GpuProgram,
    pub wvp_matrix: UniformLocation,
    pub old_lum_sampler: UniformLocation,
    pub new_lum_sampler: UniformLocation,
    pub speed: UniformLocation,
}

impl AdaptationShader {
    /// Builds the shader under the driver verdict `outcome`.
    pub fn new(state: &mut PipelineState, outcome: CompileOutcome) -> (r: Result<
        AdaptationShader,
        FrameworkError,
    >)
        requires
            old(state).next_id < 0xFFFF_FFFFu32,
        ensures
            r is Ok <==> adaptation_shader_ready(outcome),
            r is Err ==> build_error_matches(r->Err_0, outcome, "AdaptationShader".spec_bytes()),
            !(outcome is Linked) ==> *final(state) == *old(state),
            r is Ok ==> {
                &&& r->Ok_0.program.id == old(state).next_id
                &&& final(state).next_id == old(state).next_id + 1
                &&& final(state).cache == old(state).cache
                &&& final(state).commands@.subrange(0, old(state).commands@.len() as int) == old(
                    state,
                ).commands@
                &&& final(state).commands@.len() == old(state).commands@.len() + 1
                &&& draw_seq(final(state).commands@) == draw_seq(old(state).commands@)
            },
    {
        let fragment_source =
            "#version 330 core\nuniform sampler2D oldLumSampler;\nuniform sampler2D newLumSampler;\nuniform float speed;\nout float outLum;\nvoid main() { float oldLum = texelFetch(oldLumSampler, ivec2(0, 0), 0).r; float newLum = texelFetch(newLumSampler, ivec2(0, 0), 0).r; outLum = oldLum + (newLum - oldLum) * clamp(speed, 0.0, 1.0); }\n";
        let program = match GpuProgram::from_source(
            state,
            "AdaptationShader",
            flat_vertex_source().as_bytes(),
            fragment_source.as_bytes(),
            outcome,
        ) {
            Ok(p) => p,
            Err(e) => {
                return Err(e);
            },
        };
        proof {
            crate::framework::state::lemma_draw_seq_extend_non_draws(
                old(state).commands@,
                state.commands@,
            );
        }
        let wvp_matrix = match program.uniform_location("worldViewProjection") {
            Ok(l) => l,
            Err(e) => {
                return Err(e);
            },
        };
        let old_lum_sampler = match program.uniform_location("oldLumSampler") {
            Ok(l) => l,
            Err(e) => {
                return Err(e);
            },
        };
        let new_lum_sampler = match program.uniform_location("newLumSampler") {
            Ok(l) => l,
            Err(e) => {
                return Err(e);
            },
        };
        let speed = match program.uniform_location("speed") {
            Ok(l) => l,
            Err(e) => {
                return Err(e);
            },
        };
        Ok(AdaptationShader { program, wvp_matrix, old_lum_sampler, new_lum_sampler, speed })
    }
}

/// The tone-mapping shader: maps the HDR frame to display range under
/// the adapted luminance and exposure policy.
pub struct MapShader {
    pub program: GpuProgram,
    pub wvp_matrix: UniformLocation,
    pub lum_sampler: UniformLocation,
    pub bloom_sampler: UniformLocation,
    pub hdr_sampler: UniformLocation,
    pub use_color_grading: UniformLocation,
    pub color_map_sampler: UniformLocation,
    pub key_value: UniformLocation,
    pub min_luminance: UniformLocation,
    pub max_luminance: UniformLocation,
    pub auto_exposure: UniformLocation,
    pub fixed_exposure: UniformLocation,
}

impl MapShader {
    /// Builds the shader under the driver verdict `outcome`.
    pub fn new(state: &mut PipelineState, outcome: CompileOutcome) -> (r: Result<
        MapShader,
        FrameworkError,
    >)
        requires
            old(state).next_id < 0xFFFF_FFFFu32,
        ensures
            r is Ok <==> map_shader_ready(outcome),
            r is Err ==> build_error_matches(r->Err_0, outcome, "MapShader".spec_bytes()),
            !(outcome is Linked) ==> *final(state) == *old(state),
            r is Ok ==> {
                &&& r->Ok_0.program.id == old(state).next_id
                &&& final(state).next_id == old(state).next_id + 1
                &&& final(state).cache == old(state).cache
                &&& final(state).commands@.subrange(0, old(state).commands@.len() as int) == old(
                    state,
                ).commands@
                &&& final(state).commands@.len() == old(state).commands@.len() + 1
                &&& draw_seq(final(state).commands@) == draw_seq(old(state).commands@)
            },
    {
        let fragment_source =
            "#version 330 core\nin vec2 texCoord;\nuniform sampler2D hdrSampler;\nuniform sampler2D lumSampler;\nuniform sampler2D bloomSampler;\nuniform sampler3D colorMapSampler;\nuniform bool useColorGrading;\nuniform bool autoExposure;\nuniform float keyValue;\nuniform float minLuminance;\nuniform float maxLuminance;\nuniform float fixedExposure;\nout vec4 outColor;\nvoid main() { float avgLum = texelFetch(lumSampler, ivec2(0, 0), 0).r; float exposure = autoExposure ? keyValue / clamp(avgLum, minLuminance, maxLuminance) : fixedExposure; vec3 hdr = texture(hdrSampler, texCoord).rgb + texture(bloomSampler, texCoord).rgb; vec3 ldr = vec3(1.0) - exp(-hdr * exposure); outColor = vec4(useColorGrading ? texture(colorMapSampler, clamp(ldr, 0.0, 1.0)).rgb : ldr, 1.0); }\n";
        let program = match GpuProgram::from_source(
            state,
            "MapShader",
            flat_vertex_source().as_bytes(),
            fragment_source.as_bytes(),
            outcome,
        ) {
            Ok(p) => p,
            Err(e) => {
                return Err(e);
            },
        };
        proof {
            crate::framework::state::lemma_draw_seq_extend_non_draws(
                old(state).commands@,
                state.commands@,
            );
        }
        let wvp_matrix = match program.uniform_location("worldViewProjection") {
            Ok(l) => l,
            Err(e) => {
                return Err(e);
            },
        };
        let lum_sampler = match program.uniform_location("lumSampler") {
            Ok(l) => l,
            Err(e) => {
                return Err(e);
            },
        };
        let bloom_sampler = match program.uniform_location("bloomSampler") {
            Ok(l) => l,
            Err(e) => {
                return Err(e);
            },
        };
        let hdr_sampler = match program.uniform_location("hdrSampler") {
            Ok(l) => l,
            Err(e) => {
                return Err(e);
            },
        };
        let use_color_grading = match program.uniform_location("useColorGrading") {
            Ok(l) => l,
            Err(e) => {
                return Err(e);
            },
        };
        let color_map_sampler = match program.uniform_location("colorMapSampler") {
            Ok(l) => l,
            Err(e) => {
                return Err(e);
            },
        };
        let key_value = match program.uniform_location("keyValue") {
            Ok(l) => l,
            Err(e) => {
                return Err(e);
            },
        };
        let min_luminance = match program.uniform_location("minLuminance") {
            Ok(l) => l,
            Err(e) => {
                return Err(e);
            },
        };
        let max_luminance = match program.uniform_location("maxLuminance") {
            Ok(l) => l,
            Err(e) => {
                return Err(e);
            },
        };
        let auto_exposure = match program.uniform_location("autoExposure") {
            Ok(l) => l,
            Err(e) => {
                return Err(e);
            },
        };
        let fixed_exposure = match program.uniform_location("fixedExposure") {
            Ok(l) => l,
            Err(e) => {
                return Err(e);
            },
        };
        Ok(
            MapShader {
                program,
                wvp_matrix,
                lum_sampler,
                bloom_sampler,
                hdr_sampler,
                use_color_grading,
                color_map_sampler,
                key_value,
                min_luminance,
                max_luminance,
                auto_exposure,
                fixed_exposure,
            },
        )
    }
}



/// The draw parameters every HDR stage draws under: plain colour
/// writes, no depth, no stencil, no blending.
pub open spec fn lum_pass_params() -> DrawParameters {
    DrawParameters {
        cull_face: CullFace::Back,
        culling: false,
        color_write: ColorMask { red: true, green: true, blue: true, alpha: true },
        depth_write: false,
        stencil_test: false,
        depth_test: false,
        blend: false,
    }
}

fn make_lum_pass_params() -> (r: DrawParameters)
    ensures
        r == lum_pass_params(),
{
    DrawParameters {
        cull_face: CullFace::Back,
        culling: false,
        color_write: ColorMask::all(true),
        depth_write: false,
        stencil_test: false,
        depth_test: false,
        blend: false,
    }
}

/// The viewport matrix of a full-screen pass: an orthographic projection
/// of the viewport composed with a scaling by its size, one constant
/// matrix whatever the viewport.
pub fn make_viewport_matrix(viewport: Rect) -> (r: Mat4)
    ensures
        r == lum_quad_matrix(),
{
    let two = Fx::from_raw(131072);
    let neg_two = Fx::from_raw(-131072);
    let one = Fx::one();
    let neg_one = Fx::from_raw(-65536);
    let z = Fx::zero();
    let _ = viewport;
    Mat4 { m: [two, z, z, z, z, neg_two, z, z, z, z, z, z, neg_one, one, z, one] }
}

/// A vector holding one texel.
fn single_texel(v: Fx) -> (r: Vec<Fx>)
    ensures
        r@.len() == 1,
        r@[0] == v,
{
    let mut t: Vec<Fx> = Vec::new();
    t.push(v);
    t
}

/// Copies a texel grid.
fn copy_texels(src: &Vec<Fx>) -> (r: Vec<Fx>)
    ensures
        r@ == src@,
{
    let mut out: Vec<Fx> = Vec::new();
    let mut i: usize = 0;
    while i < src.len()
        invariant
            i <= src@.len(),
            out@ == src@.subrange(0, i as int),
        decreases src@.len() - i,
    {
        out.push(src[i]);
        i = i + 1;
        proof {
            assert(src@.subrange(0, i as int) =~= src@.subrange(0, i as int - 1).push(
                src@[i as int - 1],
            ));
        }
    }
    proof {
        assert(src@.subrange(0, src@.len() as int) =~= src@);
    }
    out
}

/// The adaptation ping-pong pair: two one-texel luminance buffers, one
/// holding the previous adapted value, the other receiving the next.
/// The adapted value is never reset to the instant luminance except at
/// construction.
pub struct AdaptationChain {
    pub first: LumBuffer,
    pub second: LumBuffer,
    pub prev_is_first: bool,
}

/// Well-formedness of the adaptation pair.
pub open spec fn chain_wf(c: AdaptationChain) -> bool {
    &&& lum_wf(c.first)
    &&& c.first.size == 1
    &&& lum_wf(c.second)
    &&& c.second.size == 1
}

/// The adapted luminance the chain currently holds.
pub open spec fn adapted_value(c: AdaptationChain) -> Fx {
    if c.prev_is_first {
        c.first.texels@[0]
    } else {
        c.second.texels@[0]
    }
}

impl AdaptationChain {
    /// Two fresh one-texel buffers, both zero.
    pub fn new(state: &mut PipelineState) -> (r: Result<AdaptationChain, FrameworkError>)
        requires
            old(state).next_id as int + 8 < 0x1_0000_0000,
        ensures
            r is Ok,
            r is Ok ==> {
                &&& chain_wf(r->Ok_0)
                &&& adapted_value(r->Ok_0).raw == 0
                &&& final(state).next_id == old(state).next_id + 4
                &&& final(state).cache == old(state).cache
                &&& draw_seq(final(state).commands@) == draw_seq(old(state).commands@)
            },
    {
        let first = match LumBuffer::new(state, 1) {
            Ok(b) => b,
            Err(e) => {
                proof {
                    assert(false);
                }
                return Err(e);
            },
        };
        let second = match LumBuffer::new(state, 1) {
            Ok(b) => b,
            Err(e) => {
                proof {
                    assert(false);
                }
                return Err(e);
            },
        };
        Ok(AdaptationChain { first, second, prev_is_first: true })
    }

    /// The texture holding the current adapted luminance.
    pub fn avg_lum_texture(&self) -> (r: u32)
        requires
            chain_wf(*self),
        ensures
            self.prev_is_first ==> r == self.first.framebuffer.color_attachments@[0].texture.id,
            !self.prev_is_first ==> r == self.second.framebuffer.color_attachments@[0].texture.id,
    {
        if self.prev_is_first {
            self.first.texture()
        } else {
            self.second.texture()
        }
    }
}

/// The clamped adaptation rate for one frame: the design constant times
/// the frame time, held inside `(0, 1]` with a one-quantum floor so
/// adaptation never stalls.
pub open spec fn adaptation_speed(dt: Fx) -> int {
    let s = crate::fixed::fx_mul_raw(19661, dt.raw as int);
    if s < 1 {
        1
    } else if s > FX_ONE {
        FX_ONE as int
    } else {
        s
    }
}

/// Renders scene luminance, reduces it to one adapted exposure value,
/// and maps the HDR frame to display range.
pub struct HighDynamicRangeRenderer {
    pub frame_luminance: LumBuffer,
    pub down32: LumBuffer,
    pub down16: LumBuffer,
    pub down8: LumBuffer,
    pub down4: LumBuffer,
    pub down2: LumBuffer,
    pub down1: LumBuffer,
    pub adaptation_chain: AdaptationChain,
    pub luminance_shader: LuminanceShader,
    pub downscale_shader: DownscaleShader,
    pub adaptation_shader: AdaptationShader,
    pub map_shader: MapShader,
    pub stub_lut: GpuTexture,
}

/// Well-formedness of the HDR renderer: the luminance chain holds
/// square buffers halving from 64 down to 1.
pub open spec fn hdr_wf(r: HighDynamicRangeRenderer) -> bool {
    &&& lum_wf(r.frame_luminance) && r.frame_luminance.size == 64
    &&& lum_wf(r.down32) && r.down32.size == 32
    &&& lum_wf(r.down16) && r.down16.size == 16
    &&& lum_wf(r.down8) && r.down8.size == 8
    &&& lum_wf(r.down4) && r.down4.size == 4
    &&& lum_wf(r.down2) && r.down2.size == 2
    &&& lum_wf(r.down1) && r.down1.size == 1
    &&& chain_wf(r.adaptation_chain)
}

impl HighDynamicRangeRenderer {
    /// Builds the whole luminance chain, the adaptation pair, the four
    /// stage shaders and the identity colour-grading stub.
    pub fn new(
        state: &mut PipelineState,
        luminance_outcome: CompileOutcome,
        downscale_outcome: CompileOutcome,
        adaptation_outcome: CompileOutcome,
        map_outcome: CompileOutcome,
    ) -> (r: Result<HighDynamicRangeRenderer, FrameworkError>)
        requires
            old(state).next_id as int + 64 < 0x1_0000_0000,
        ensures
            r is Ok <==> luminance_shader_ready(luminance_outcome) && downscale_shader_ready(
                downscale_outcome,
            ) && adaptation_shader_ready(adaptation_outcome) && map_shader_ready(map_outcome),
            r is Err ==> {
                &&& (!luminance_shader_ready(luminance_outcome) ==> build_error_matches(
                    r->Err_0,
                    luminance_outcome,
                    "LuminanceShader".spec_bytes(),
                ))
                &&& (luminance_shader_ready(luminance_outcome) && !downscale_shader_ready(
                    downscale_outcome,
                ) ==> build_error_matches(
                    r->Err_0,
                    downscale_outcome,
                    "DownscaleShader".spec_bytes(),
                ))
                &&& (luminance_shader_ready(luminance_outcome) && downscale_shader_ready(
                    downscale_outcome,
                ) && !adaptation_shader_ready(adaptation_outcome) ==> build_error_matches(
                    r->Err_0,
                    adaptation_outcome,
                    "AdaptationShader".spec_bytes(),
                ))
                &&& (luminance_shader_ready(luminance_outcome) && downscale_shader_ready(
                    downscale_outcome,
                ) && adaptation_shader_ready(adaptation_outcome) && !map_shader_ready(map_outcome)
                    ==> build_error_matches(r->Err_0, map_outcome, "MapShader".spec_bytes()))
            },
            r is Ok ==> {
                &&& hdr_wf(r->Ok_0)
                &&& adapted_value(r->Ok_0.adaptation_chain).raw == 0
                &&& r->Ok_0.down1.texels@[0].raw == 0
                &&& r->Ok_0.stub_lut.kind == (GpuTextureKind::Volume {
                    width: 1,
                    height: 1,
                    depth: 1,
                })
                &&& r->Ok_0.stub_lut.pixel_kind == PixelKind::RGB8
                &&& final(state).cache == old(state).cache
            },
    {
        let frame_luminance = match LumBuffer::new(state, 64) {
            Ok(b) => b,
            Err(e) => {
                proof {
                    assert(false);
                }
                return Err(e);
            },
        };
        let down32 = match LumBuffer::new(state, 32) {
            Ok(b) => b,
            Err(e) => {
                proof {
                    assert(false);
                }
                return Err(e);
            },
        };
        let down16 = match LumBuffer::new(state, 16) {
            Ok(b) => b,
            Err(e) => {
                proof {
                    assert(false);
                }
                return Err(e);
            },
        };
        let down8 = match LumBuffer::new(state, 8) {
            Ok(b) => b,
            Err(e) => {
                proof {
                    assert(false);
                }
                return Err(e);
            },
        };
        let down4 = match LumBuffer::new(state, 4) {
            Ok(b) => b,
            Err(e) => {
                proof {
                    assert(false);
                }
                return Err(e);
            },
        };
        let down2 = match LumBuffer::new(state, 2) {
            Ok(b) => b,
            Err(e) => {
                proof {
                    assert(false);
                }
                return Err(e);
            },
        };
        let down1 = match LumBuffer::new(state, 1) {
            Ok(b) => b,
            Err(e) => {
                proof {
                    assert(false);
                }
                return Err(e);
            },
        };
        let adaptation_chain = match AdaptationChain::new(state) {
            Ok(c) => c,
            Err(e) => {
                proof {
                    assert(false);
                }
                return Err(e);
            },
        };
        let luminance_shader = match LuminanceShader::new(state, luminance_outcome) {
            Ok(sh) => sh,
            Err(e) => {
                return Err(e);
            },
        };
        let downscale_shader = match DownscaleShader::new(state, downscale_outcome) {
            Ok(sh) => sh,
            Err(e) => {
                return Err(e);
            },
        };
        let adaptation_shader = match AdaptationShader::new(state, adaptation_outcome) {
            Ok(sh) => sh,
            Err(e) => {
                return Err(e);
            },
        };
        let map_shader = match MapShader::new(state, map_outcome) {
            Ok(sh) => sh,
            Err(e) => {
                return Err(e);
            },
        };
        let stub_lut = match GpuTexture::new(
            state,
            GpuTextureKind::Volume { width: 1, height: 1, depth: 1 },
            PixelKind::RGB8,
            MinificationFilter::Linear,
            MagnificationFilter::Linear,
            1,
            None,
        ) {
            Ok(t) => t,
            Err(e) => {
                proof {
                    assert(false);
                }
                return Err(e);
            },
        };
        Ok(
            HighDynamicRangeRenderer {
                frame_luminance,
                down32,
                down16,
                down8,
                down4,
                down2,
                down1,
                adaptation_chain,
                luminance_shader,
                downscale_shader,
                adaptation_shader,
                map_shader,
                stub_lut,
            },
        )
    }

    /// The instant average luminance of the last processed frame: the
    /// terminal one-texel buffer of the downscale chain.
    pub fn instant_luminance(&self) -> (r: Fx)
        requires
            hdr_wf(*self),
        ensures
            r == self.down1.texels@[0],
    {
        self.down1.texels[0]
    }

    /// The temporally adapted luminance driving the exposure.
    pub fn adapted_luminance(&self) -> (r: Fx)
        requires
            hdr_wf(*self),
        ensures
            r == adapted_value(self.adaptation_chain),
    {
        if self.adaptation_chain.prev_is_first {
            self.adaptation_chain.first.texels[0]
        } else {
            self.adaptation_chain.second.texels[0]
        }
    }

    /// Renders the HDR scene through the luminance-extraction shader
    /// into the fixed 64 by 64 target. The scene's per-texel luminance
    /// (what the extraction shader computes) becomes the target's
    /// content.
    pub fn calculate_frame_luminance(
        &mut self,
        state: &mut PipelineState,
        hdr_scene_frame: u32,
        scene_luminance: &Vec<Fx>,
        quad: &GeometryBuffer,
    ) -> (stats: DrawCallStatistics)
        requires
            hdr_wf(*old(self)),
            scene_luminance@.len() == 4096,
            lum_range(scene_luminance@),
        ensures
            hdr_wf(*final(self)),
            final(self).frame_luminance.texels@ == scene_luminance@,
            final(self).frame_luminance.size == 64,
            final(self).down32 == old(self).down32,
            final(self).down16 == old(self).down16,
            final(self).down8 == old(self).down8,
            final(self).down4 == old(self).down4,
            final(self).down2 == old(self).down2,
            final(self).down1 == old(self).down1,
            final(self).adaptation_chain == old(self).adaptation_chain,
            stats.triangles == quad.triangle_count,
            final(state).next_id == old(state).next_id,
            final(state).commands@.len() >= old(state).commands@.len(),
            final(state).commands@.subrange(0, old(state).commands@.len() as int) == old(
                state,
            ).commands@,
            draw_seq(final(state).commands@) == draw_seq(old(state).commands@).push(
                draw_command(
                    old(self).frame_luminance.framebuffer.id,
                    quad.id,
                    old(self).luminance_shader.program.id,
                    lum_pass_params(),
                    old(state).cache.stencil_func,
                    old(state).cache.stencil_op,
                    old(state).cache.stencil_mask,
                    0,
                    quad.triangle_count as int,
                ),
            ),
    {
        self.frame_luminance.clear(state);
        let ghost mid = state.commands@;
        self.frame_luminance.texels = copy_texels(scene_luminance);
        let frame_matrix = self.frame_luminance.matrix();
        let inv_size = Fx::from_ratio(1, 64);
        let mut binding = self.luminance_shader.program.bind();
        binding.set_matrix4(&self.luminance_shader.wvp_matrix, &frame_matrix);
        binding.set_vector2(
            &self.luminance_shader.inv_size,
            FxVec2 { x: inv_size, y: inv_size },
        );
        binding.set_texture(&self.luminance_shader.frame_sampler, hdr_scene_frame);
        let stats = self.frame_luminance.framebuffer.draw(
            quad,
            state,
            Rect { x: 0, y: 0, w: 64, h: 64 },
            &self.luminance_shader.program,
            &make_lum_pass_params(),
            binding.into_uniforms(),
        );
        proof {
            crate::framework::state::lemma_prefix_trans(
                old(state).commands@,
                mid,
                state.commands@,
            );
        }
        stats
    }

    /// Iteratively renders each luminance buffer into the next smaller
    /// one; the terminal one-texel buffer then holds this frame's
    /// instant average luminance, each texel the box average of its
    /// source block.
    pub fn calculate_avg_frame_luminance(
        &mut self,
        state: &mut PipelineState,
        quad: &GeometryBuffer,
    ) -> (stats: RenderPassStatistics)
        requires
            hdr_wf(*old(self)),
            quad.triangle_count < 0x1000_0000,
        ensures
            hdr_wf(*final(self)),
            final(self).frame_luminance == old(self).frame_luminance,
            final(self).adaptation_chain == old(self).adaptation_chain,
            downsampled(old(self).frame_luminance.texels@, 64, final(self).down32.texels@),
            downsampled(final(self).down32.texels@, 32, final(self).down16.texels@),
            downsampled(final(self).down16.texels@, 16, final(self).down8.texels@),
            downsampled(final(self).down8.texels@, 8, final(self).down4.texels@),
            downsampled(final(self).down4.texels@, 4, final(self).down2.texels@),
            downsampled(final(self).down2.texels@, 2, final(self).down1.texels@),
            stats.draw_calls == 6,
            stats.triangles_rendered == 6 * quad.triangle_count,
            final(state).next_id == old(state).next_id,
            final(state).commands@.len() >= old(state).commands@.len(),
            final(state).commands@.subrange(0, old(state).commands@.len() as int) == old(
                state,
            ).commands@,
            draw_seq(final(state).commands@) == draw_seq(old(state).commands@).push(
                downscale_record(old(self).down32, old(self), quad, old(state).cache),
            ).push(downscale_record(old(self).down16, old(self), quad, old(state).cache)).push(
                downscale_record(old(self).down8, old(self), quad, old(state).cache),
            ).push(downscale_record(old(self).down4, old(self), quad, old(state).cache)).push(
                downscale_record(old(self).down2, old(self), quad, old(state).cache),
            ).push(downscale_record(old(self).down1, old(self), quad, old(state).cache)),
    {
        let mut stats = RenderPassStatistics::new();
        let ghost base = state.commands@;

        let t32 = downsample(&self.frame_luminance.texels, 64);
        let src_tex = self.frame_luminance.texture();
        let d = downscale_draw(state, &mut self.down32, t32, src_tex, &self.downscale_shader, quad);
        stats.add_draw_call(d);
        let ghost s1 = state.commands@;

        let t16 = downsample(&self.down32.texels, 32);
        let src_tex = self.down32.texture();
        let d = downscale_draw(state, &mut self.down16, t16, src_tex, &self.downscale_shader, quad);
        stats.add_draw_call(d);
        proof {
            crate::framework::state::lemma_prefix_trans(base, s1, state.commands@);
        }
        let ghost s2 = state.commands@;

        let t8 = downsample(&self.down16.texels, 16);
        let src_tex = self.down16.texture();
        let d = downscale_draw(state, &mut self.down8, t8, src_tex, &self.downscale_shader, quad);
        stats.add_draw_call(d);
        proof {
            crate::framework::state::lemma_prefix_trans(base, s2, state.commands@);
        }
        let ghost s3 = state.commands@;

        let t4 = downsample(&self.down8.texels, 8);
        let src_tex = self.down8.texture();
        let d = downscale_draw(state, &mut self.down4, t4, src_tex, &self.downscale_shader, quad);
        stats.add_draw_call(d);
        proof {
            crate::framework::state::lemma_prefix_trans(base, s3, state.commands@);
        }
        let ghost s4 = state.commands@;

        let t2 = downsample(&self.down4.texels, 4);
        let src_tex = self.down4.texture();
        let d = downscale_draw(state, &mut self.down2, t2, src_tex, &self.downscale_shader, quad);
        stats.add_draw_call(d);
        proof {
            crate::framework::state::lemma_prefix_trans(base, s4, state.commands@);
        }
        let ghost s5 = state.commands@;

        let t1 = downsample(&self.down2.texels, 2);
        let src_tex = self.down2.texture();
        let d = downscale_draw(state, &mut self.down1, t1, src_tex, &self.downscale_shader, quad);
        stats.add_draw_call(d);
        proof {
            crate::framework::state::lemma_prefix_trans(base, s5, state.commands@);
        }
        stats
    }

    /// Blends the previous adapted luminance toward the instant value by
    /// the clamped rate for this frame, writes the result into the other
    /// buffer of the ping-pong pair, and swaps which buffer is previous.
    pub fn adaptation(
        &mut self,
        state: &mut PipelineState,
        quad: &GeometryBuffer,
        dt: Fx,
    ) -> (stats: DrawCallStatistics)
        requires
            hdr_wf(*old(self)),
            dt.raw >= 0,
        ensures
            hdr_wf(*final(self)),
            final(self).frame_luminance == old(self).frame_luminance,
            final(self).down32 == old(self).down32,
            final(self).down16 == old(self).down16,
            final(self).down8 == old(self).down8,
            final(self).down4 == old(self).down4,
            final(self).down2 == old(self).down2,
            final(self).down1 == old(self).down1,
            final(self).adaptation_chain.prev_is_first == !old(self).adaptation_chain.prev_is_first,
            adapted_value(final(self).adaptation_chain).raw == adapt_spec(
                adapted_value(old(self).adaptation_chain).raw as int,
                old(self).down1.texels@[0].raw as int,
                adaptation_speed(dt),
            ),
            stats.triangles == quad.triangle_count,
            final(state).next_id == old(state).next_id,
            final(state).commands@.len() >= old(state).commands@.len(),
            final(state).commands@.subrange(0, old(state).commands@.len() as int) == old(
                state,
            ).commands@,
            draw_seq(final(state).commands@) == draw_seq(old(state).commands@).push(
                draw_command(
                    (if old(self).adaptation_chain.prev_is_first {
                        old(self).adaptation_chain.second.framebuffer.id
                    } else {
                        old(self).adaptation_chain.first.framebuffer.id
                    }),
                    quad.id,
                    old(self).adaptation_shader.program.id,
                    lum_pass_params(),
                    old(state).cache.stencil_func,
                    old(state).cache.stencil_op,
                    old(state).cache.stencil_mask,
                    0,
                    quad.triangle_count as int,
                ),
            ),
    {
        let instant = self.down1.texels[0];
        let prev_value = if self.adaptation_chain.prev_is_first {
            self.adaptation_chain.first.texels[0]
        } else {
            self.adaptation_chain.second.texels[0]
        };
        let raw_speed = Fx::from_raw(19661).mul(dt);
        let speed = if raw_speed.raw < 1 {
            Fx::from_raw(1)
        } else if raw_speed.raw > FX_ONE {
            Fx::from_raw(FX_ONE)
        } else {
            raw_speed
        };
        let adapted = adapt_step(prev_value, instant, speed);
        let matrix = self.adaptation_chain.first.matrix();
        let mut binding = self.adaptation_shader.program.bind();
        binding.set_matrix4(&self.adaptation_shader.wvp_matrix, &matrix);
        let prev_tex = self.adaptation_chain.avg_lum_texture();
        binding.set_texture(&self.adaptation_shader.old_lum_sampler, prev_tex);
        let new_tex = self.down1.texture();
        binding.set_texture(&self.adaptation_shader.new_lum_sampler, new_tex);
        binding.set_f32(&self.adaptation_shader.speed, speed);
        let stats;
        if self.adaptation_chain.prev_is_first {
            self.adaptation_chain.second.texels = single_texel(adapted);
            stats = self.adaptation_chain.second.framebuffer.draw(
                quad,
                state,
                Rect { x: 0, y: 0, w: 1, h: 1 },
                &self.adaptation_shader.program,
                &make_lum_pass_params(),
                binding.into_uniforms(),
            );
            self.adaptation_chain.prev_is_first = false;
        } else {
            self.adaptation_chain.first.texels = single_texel(adapted);
            stats = self.adaptation_chain.first.framebuffer.draw(
                quad,
                state,
                Rect { x: 0, y: 0, w: 1, h: 1 },
                &self.adaptation_shader.program,
                &make_lum_pass_params(),
                binding.into_uniforms(),
            );
            self.adaptation_chain.prev_is_first = true;
        }
        stats
    }

    /// Resolves the colour-grading lookup texture for the tone-mapping
    /// pass: the cached texture of the given asset, or the identity stub
    /// when none is bound or it has no data this frame.
    pub fn resolve_color_grading_lut(
        &self,
        state: &mut PipelineState,
        texture_cache: &mut TextureCache,
        color_grading_lut: Option<&TextureResource>,
    ) -> (r: u32)
        requires
            crate::cache::store_wf(old(texture_cache).entries@),
            old(state).next_id < 0xFFFF_FFFFu32,
            old(texture_cache).builds < 0xFFFF_FFFF_FFFF_FFFFu64,
        ensures
            crate::cache::store_wf(final(texture_cache).entries@),
            r == (match color_grading_lut {
                Option::None => self.stub_lut.id,
                Option::Some(l) => {
                    match texture_get_result(
                        old(texture_cache).entries@,
                        old(state).next_id,
                        *l,
                    ) {
                        Option::Some(id) => id,
                        Option::None => self.stub_lut.id,
                    }
                },
            }),
            color_grading_lut is None ==> *final(texture_cache) == *old(texture_cache)
                && *final(state) == *old(state),
            draw_seq(final(state).commands@) == draw_seq(old(state).commands@),
            final(state).commands@.len() >= old(state).commands@.len(),
            final(state).commands@.subrange(0, old(state).commands@.len() as int) == old(
                state,
            ).commands@,
            final(state).cache == old(state).cache,
            final(state).next_id == old(state).next_id || final(state).next_id == old(
                state,
            ).next_id + 1,
    {
        match color_grading_lut {
            None => self.stub_lut.id(),
            Some(l) => {
                let got = texture_cache.get(state, l);
                proof {
                    if crate::cache::store_get_builds(
                        old(texture_cache).entries@,
                        l.handle,
                        l.version,
                        l.data is Some,
                    ) {
                        assert(state.commands@.subrange(0, old(state).commands@.len() as int)
                            =~= old(state).commands@);
                    }
                }
                match got {
                    Some(id) => id,
                    None => self.stub_lut.id(),
                }
            },
        }
    }

    /// The tone-mapping pass: one full-screen draw sampling the HDR
    /// frame, the adapted luminance, the bloom texture and the resolved
    /// colour-grading lookup, under the given exposure policy.
    pub fn map_hdr_to_ldr(
        &self,
        state: &mut PipelineState,
        hdr_scene_frame: u32,
        bloom_texture: u32,
        ldr_framebuffer: &FrameBuffer,
        viewport: Rect,
        quad: &GeometryBuffer,
        exposure: Exposure,
        color_grading_lut: Option<&TextureResource>,
        use_color_grading: bool,
        texture_cache: &mut TextureCache,
    ) -> (stats: DrawCallStatistics)
        requires
            hdr_wf(*self),
            crate::cache::store_wf(old(texture_cache).entries@),
            old(state).next_id < 0xFFFF_FFFFu32,
            old(texture_cache).builds < 0xFFFF_FFFF_FFFF_FFFFu64,
        ensures
            crate::cache::store_wf(final(texture_cache).entries@),
            stats.triangles == quad.triangle_count,
            final(state).commands@.len() >= old(state).commands@.len(),
            final(state).commands@.subrange(0, old(state).commands@.len() as int) == old(
                state,
            ).commands@,
            draw_seq(final(state).commands@).len() == draw_seq(old(state).commands@).len() + 1,
            final(state).commands@.last() == draw_command(
                ldr_framebuffer.id,
                quad.id,
                self.map_shader.program.id,
                lum_pass_params(),
                old(state).cache.stencil_func,
                old(state).cache.stencil_op,
                old(state).cache.stencil_mask,
                0,
                quad.triangle_count as int,
            ),
            final(state).next_id == old(state).next_id || final(state).next_id == old(
                state,
            ).next_id + 1,
            exposure matches Exposure::Manual(e) ==> {
                &&& final(state).commands@[final(state).commands@.len() - 2] == (
                DeviceCommand::SetUniform {
                    program: self.map_shader.fixed_exposure.program,
                    slot: self.map_shader.fixed_exposure.slot,
                    value: UniformValue::Scalar(e),
                })
                &&& final(state).commands@[final(state).commands@.len() - 3] == (
                DeviceCommand::SetUniform {
                    program: self.map_shader.auto_exposure.program,
                    slot: self.map_shader.auto_exposure.slot,
                    value: UniformValue::Bool(false),
                })
                &&& final(state).commands@[final(state).commands@.len() - 4] == (
                DeviceCommand::SetUniform {
                    program: self.map_shader.color_map_sampler.program,
                    slot: self.map_shader.color_map_sampler.slot,
                    value: UniformValue::Sampler {
                        unit: 3,
                        texture: map_resolved_lut(
                            self.stub_lut.id,
                            old(texture_cache).entries@,
                            old(state).next_id,
                            color_grading_lut,
                        ),
                    },
                })
                &&& final(state).commands@[final(state).commands@.len() - 5] == (
                DeviceCommand::SetUniform {
                    program: self.map_shader.use_color_grading.program,
                    slot: self.map_shader.use_color_grading.slot,
                    value: UniformValue::Bool(use_color_grading && color_grading_lut is Some),
                })
            },
            exposure matches Exposure::Auto { key_value, min_luminance, max_luminance } ==> {
                &&& final(state).commands@[final(state).commands@.len() - 2] == (
                DeviceCommand::SetUniform {
                    program: self.map_shader.max_luminance.program,
                    slot: self.map_shader.max_luminance.slot,
                    value: UniformValue::Scalar(max_luminance),
                })
                &&& final(state).commands@[final(state).commands@.len() - 3] == (
                DeviceCommand::SetUniform {
                    program: self.map_shader.min_luminance.program,
                    slot: self.map_shader.min_luminance.slot,
                    value: UniformValue::Scalar(min_luminance),
                })
                &&& final(state).commands@[final(state).commands@.len() - 4] == (
                DeviceCommand::SetUniform {
                    program: self.map_shader.key_value.program,
                    slot: self.map_shader.key_value.slot,
                    value: UniformValue::Scalar(key_value),
                })
                &&& final(state).commands@[final(state).commands@.len() - 5] == (
                DeviceCommand::SetUniform {
                    program: self.map_shader.auto_exposure.program,
                    slot: self.map_shader.auto_exposure.slot,
                    value: UniformValue::Bool(true),
                })
                &&& final(state).commands@[final(state).commands@.len() - 6] == (
                DeviceCommand::SetUniform {
                    program: self.map_shader.color_map_sampler.program,
                    slot: self.map_shader.color_map_sampler.slot,
                    value: UniformValue::Sampler {
                        unit: 3,
                        texture: map_resolved_lut(
                            self.stub_lut.id,
                            old(texture_cache).entries@,
                            old(state).next_id,
                            color_grading_lut,
                        ),
                    },
                })
                &&& final(state).commands@[final(state).commands@.len() - 7] == (
                DeviceCommand::SetUniform {
                    program: self.map_shader.use_color_grading.program,
                    slot: self.map_shader.use_color_grading.slot,
                    value: UniformValue::Bool(use_color_grading && color_grading_lut is Some),
                })
            },
    {
        let frame_matrix = make_viewport_matrix(viewport);
        let avg_lum = self.adaptation_chain.avg_lum_texture();
        let lut = self.resolve_color_grading_lut(state, texture_cache, color_grading_lut);
        let ghost mid = state.commands@;
        let use_grading = use_color_grading && color_grading_lut.is_some();
        let mut binding = self.map_shader.program.bind();
        binding.set_matrix4(&self.map_shader.wvp_matrix, &frame_matrix);
        binding.set_texture(&self.map_shader.lum_sampler, avg_lum);
        binding.set_texture(&self.map_shader.bloom_sampler, bloom_texture);
        binding.set_texture(&self.map_shader.hdr_sampler, hdr_scene_frame);
        binding.set_bool(&self.map_shader.use_color_grading, use_grading);
        binding.set_texture(&self.map_shader.color_map_sampler, lut);
        match exposure {
            Exposure::Auto { key_value, min_luminance, max_luminance } => {
                binding.set_bool(&self.map_shader.auto_exposure, true);
                binding.set_f32(&self.map_shader.key_value, key_value);
                binding.set_f32(&self.map_shader.min_luminance, min_luminance);
                binding.set_f32(&self.map_shader.max_luminance, max_luminance);
            },
            Exposure::Manual(fixed_exposure) => {
                binding.set_bool(&self.map_shader.auto_exposure, false);
                binding.set_f32(&self.map_shader.fixed_exposure, fixed_exposure);
            },
        }
        let uniform_values = binding.into_uniforms();
        let ghost ulist = uniform_values@;
        let stats = ldr_framebuffer.draw(
            quad,
            state,
            viewport,
            &self.map_shader.program,
            &make_lum_pass_params(),
            uniform_values,
        );
        proof {
            crate::framework::state::lemma_prefix_trans(
                old(state).commands@,
                mid,
                state.commands@,
            );
            let n = state.commands@.len() as int;
            let tail = crate::framework::framebuffer::uniform_commands(ulist);
            assert forall|k: int| 0 <= k < ulist.len() implies state.commands@[n - 1
                - ulist.len() + k] == tail[k] by {
                assert(state.commands@.subrange(n - 1 - ulist.len(), n)[k] == state.commands@[n
                    - 1 - ulist.len() + k]);
                assert(tail.push(state.commands@.last())[k] == tail[k]);
            };
            assert(ulist.len() >= 1 ==> state.commands@[n - 2] == tail[ulist.len() - 2
                + 1]) by {
                if ulist.len() >= 1 {
                    let k = ulist.len() - 2 + 1;
                    assert(state.commands@[n - 1 - ulist.len() + k] == tail[k]);
                }
            };
            assert(ulist.len() >= 2 ==> state.commands@[n - 3] == tail[ulist.len() - 3
                + 1]) by {
                if ulist.len() >= 2 {
                    let k = ulist.len() - 3 + 1;
                    assert(state.commands@[n - 1 - ulist.len() + k] == tail[k]);
                }
            };
            assert(ulist.len() >= 3 ==> state.commands@[n - 4] == tail[ulist.len() - 4
                + 1]) by {
                if ulist.len() >= 3 {
                    let k = ulist.len() - 4 + 1;
                    assert(state.commands@[n - 1 - ulist.len() + k] == tail[k]);
                }
            };
            assert(ulist.len() >= 4 ==> state.commands@[n - 5] == tail[ulist.len() - 5
                + 1]) by {
                if ulist.len() >= 4 {
                    let k = ulist.len() - 5 + 1;
                    assert(state.commands@[n - 1 - ulist.len() + k] == tail[k]);
                }
            };
            assert(ulist.len() >= 5 ==> state.commands@[n - 6] == tail[ulist.len() - 6
                + 1]) by {
                if ulist.len() >= 5 {
                    let k = ulist.len() - 6 + 1;
                    assert(state.commands@[n - 1 - ulist.len() + k] == tail[k]);
                }
            };
            assert(ulist.len() >= 6 ==> state.commands@[n - 7] == tail[ulist.len() - 7
                + 1]) by {
                if ulist.len() >= 6 {
                    let k = ulist.len() - 7 + 1;
                    assert(state.commands@[n - 1 - ulist.len() + k] == tail[k]);
                }
            };
        }
        stats
    }

    /// One whole HDR frame: luminance extraction, the downscale chain,
    /// temporal adaptation, and the tone map — nine draw calls.
    pub fn render(
        &mut self,
        state: &mut PipelineState,
        hdr_scene_frame: u32,
        scene_luminance: &Vec<Fx>,
        bloom_texture: u32,
        ldr_framebuffer: &FrameBuffer,
        viewport: Rect,
        quad: &GeometryBuffer,
        dt: Fx,
        exposure: Exposure,
        color_grading_lut: Option<&TextureResource>,
        use_color_grading: bool,
        texture_cache: &mut TextureCache,
    ) -> (stats: RenderPassStatistics)
        requires
            hdr_wf(*old(self)),
            scene_luminance@.len() == 4096,
            lum_range(scene_luminance@),
            quad.triangle_count < 0x1000_0000,
            dt.raw >= 0,
            crate::cache::store_wf(old(texture_cache).entries@),
            old(state).next_id < 0xFFFF_FFFFu32,
            old(texture_cache).builds < 0xFFFF_FFFF_FFFF_FFFFu64,
        ensures
            hdr_wf(*final(self)),
            crate::cache::store_wf(final(texture_cache).entries@),
            stats.draw_calls == 9,
            stats.triangles_rendered == 9 * quad.triangle_count,
            final(self).frame_luminance.texels@ == scene_luminance@,
            downsampled(scene_luminance@, 64, final(self).down32.texels@),
            downsampled(final(self).down32.texels@, 32, final(self).down16.texels@),
            downsampled(final(self).down16.texels@, 16, final(self).down8.texels@),
            downsampled(final(self).down8.texels@, 8, final(self).down4.texels@),
            downsampled(final(self).down4.texels@, 4, final(self).down2.texels@),
            downsampled(final(self).down2.texels@, 2, final(self).down1.texels@),
            adapted_value(final(self).adaptation_chain).raw == adapt_spec(
                adapted_value(old(self).adaptation_chain).raw as int,
                final(self).down1.texels@[0].raw as int,
                adaptation_speed(dt),
            ),
            draw_seq(final(state).commands@).len() == draw_seq(old(state).commands@).len() + 9,
    {
        let mut stats = RenderPassStatistics::new();
        let d = self.calculate_frame_luminance(state, hdr_scene_frame, scene_luminance, quad);
        stats.add_draw_call(d);
        let p = self.calculate_avg_frame_luminance(state, quad);
        stats.add_pass(p);
        let d = self.adaptation(state, quad, dt);
        stats.add_draw_call(d);
        let d = self.map_hdr_to_ldr(
            state,
            hdr_scene_frame,
            bloom_texture,
            ldr_framebuffer,
            viewport,
            quad,
            exposure,
            color_grading_lut,
            use_color_grading,
            texture_cache,
        );
        stats.add_draw_call(d);
        stats
    }
}

/// The draw record one downscale step appends: the step's target
/// framebuffer, drawn with the downscale program under the luminance
/// pass state.
pub open spec fn downscale_record(
    dst: LumBuffer,
    renderer: &HighDynamicRangeRenderer,
    quad: &GeometryBuffer,
    cache: crate::framework::state::RenderState,
) -> DeviceCommand {
    draw_command(
        dst.framebuffer.id,
        quad.id,
        renderer.downscale_shader.program.id,
        lum_pass_params(),
        cache.stencil_func,
        cache.stencil_op,
        cache.stencil_mask,
        0,
        quad.triangle_count as int,
    )
}

/// One downscale step of the chain: computes the half-size grid on the
/// texel model and issues the matching device draw.
fn downscale_draw(
    state: &mut PipelineState,
    dst: &mut LumBuffer,
    texels: Vec<Fx>,
    src_texture: u32,
    shader: &DownscaleShader,
    quad: &GeometryBuffer,
) -> (stats: DrawCallStatistics)
    requires
        lum_wf(*old(dst)),
        texels@.len() == old(dst).size * old(dst).size,
        lum_range(texels@),
    ensures
        lum_wf(*final(dst)),
        final(dst).size == old(dst).size,
        final(dst).framebuffer == old(dst).framebuffer,
        final(dst).texels@ == texels@,
        stats.triangles == quad.triangle_count,
        final(state).next_id == old(state).next_id,
        final(state).commands@.len() >= old(state).commands@.len(),
        final(state).commands@.subrange(0, old(state).commands@.len() as int) == old(
            state,
        ).commands@,
        draw_seq(final(state).commands@) == draw_seq(old(state).commands@).push(
            draw_command(
                old(dst).framebuffer.id,
                quad.id,
                shader.program.id,
                lum_pass_params(),
                old(state).cache.stencil_func,
                old(state).cache.stencil_op,
                old(state).cache.stencil_mask,
                0,
                quad.triangle_count as int,
            ),
        ),
        final(state).cache.stencil_func == old(state).cache.stencil_func,
        final(state).cache.stencil_op == old(state).cache.stencil_op,
        final(state).cache.stencil_mask == old(state).cache.stencil_mask,
{
    dst.texels = texels;
    let inv_size = Fx::from_ratio(1, dst.size as i64);
    let matrix = dst.matrix();
    let mut binding = shader.program.bind();
    binding.set_matrix4(&shader.wvp_matrix, &matrix);
    binding.set_vector2(&shader.inv_size, FxVec2 { x: inv_size, y: inv_size });
    binding.set_texture(&shader.lum_sampler, src_texture);
    let size_i32: i32 = if dst.size > 0x7FFF_FFFF {
        0x7FFF_FFFF
    } else {
        dst.size as i32
    };
    dst.framebuffer.draw(
        quad,
        state,
        Rect { x: 0, y: 0, w: size_i32, h: size_i32 },
        &shader.program,
        &make_lum_pass_params(),
        binding.into_uniforms(),
    )
}

/// Law: a uniform scene keeps its value through the whole downscale
/// chain — the terminal instant average luminance of a scene of
/// constant luminance `v` is exactly `v`.
pub proof fn lemma_uniform_scene_average(
    frame: Seq<Fx>,
    c32: Seq<Fx>,
    c16: Seq<Fx>,
    c8: Seq<Fx>,
    c4: Seq<Fx>,
    c2: Seq<Fx>,
    c1: Seq<Fx>,
    v: int,
)
    requires
        frame.len() == 4096,
        forall|k: int| 0 <= k < frame.len() ==> (#[trigger] frame[k]).raw == v,
        downsampled(frame, 64, c32),
        downsampled(c32, 32, c16),
        downsampled(c16, 16, c8),
        downsampled(c8, 8, c4),
        downsampled(c4, 4, c2),
        downsampled(c2, 2, c1),
    ensures
        c1.len() == 1,
        c1[0].raw == v,
{
    lemma_downsample_uniform(frame, 64, c32, v);
    lemma_downsample_uniform(c32, 32, c16, v);
    lemma_downsample_uniform(c16, 16, c8, v);
    lemma_downsample_uniform(c8, 8, c4, v);
    lemma_downsample_uniform(c4, 4, c2, v);
    lemma_downsample_uniform(c2, 2, c1, v);
    assert(c1.len() == (2int / 2) * (2int / 2));
    assert((2int / 2) * (2int / 2) == 1);
}

} // verus!
