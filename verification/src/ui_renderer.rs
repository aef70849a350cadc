//! The immediate-mode UI compositor: translates an ordered display list
//! of draw commands (brushes, clip rectangles, optional clip geometry)
//! into batched device draws.
//!
//! Commands execute strictly in submission order. A command without
//! clip geometry produces exactly one draw with the stencil test
//! disabled; a command with clip geometry first marks the stencil
//! buffer with a colour-write-disabled clip pass and then draws its
//! content with the stencil test enabled — exactly two draws.

use vstd::prelude::*;
use crate::brush::{brush_wf, Brush, GradientPoint};
use crate::cache::{store_wf, TextureCache, TextureResource};
use crate::fixed::{fx_div_raw, fx_sat, sat_i32, Fx, FX_ONE};
use crate::framework::error::FrameworkError;
use crate::framework::framebuffer::{draw_command, FrameBuffer};
use crate::framework::geometry_buffer::{
    ElementKind, GeometryBuffer, GeometryBufferKind,
};
use crate::framework::gpu_program::{has_uniform, CompileOutcome, GpuProgram, UniformLocation};
use vstd::string::StringSliceAdditionalSpecFns;
use crate::framework::state::{
    draw_seq, BlendFactor, ColorMask, CompareFunc, CullFace, DeviceCommand, DrawParameters,
    PipelineState, StencilAction, StencilFunc, StencilOp, UniformValue,
};
use crate::math::{Color, FxRect, FxVec2, FxVec4, Mat4, Rect};
use crate::stats::RenderPassStatistics;

verus! {

/// One UI vertex: position, texture coordinate and colour.
#[derive(Clone, Copy, Debug, PartialEq, Eq, Structural)]
pub struct UiVertex {
    pub pos: FxVec2,
    pub tex_coord: FxVec2,
    pub color: Color,
}

/// Complex clip geometry for shapes the scissor rectangle cannot
/// express.
#[derive(Clone, Debug, PartialEq, Eq)]
pub struct ClippingGeometry {
    pub vertex_buffer: Vec<UiVertex>,
    pub triangle_buffer: Vec<[u32; 3]>,
}

/// What a command samples: nothing (the white dummy), a texture asset,
/// or a font atlas (rasterised and cached on first use).
#[derive(Clone, Debug, PartialEq, Eq)]
pub enum CommandTexture {
    Untextured,
    Texture(TextureResource),
    Font(TextureResource),
}

/// One UI draw command of the display list.
#[derive(Clone, Debug, PartialEq, Eq)]
pub struct DrawCommand {
    pub triangles_start: usize,
    pub triangles_end: usize,
    pub brush: Brush,
    pub texture: CommandTexture,
    pub clip_bounds: FxRect,
    pub bounds: FxRect,
    pub clipping_geometry: Option<ClippingGeometry>,
    pub opacity: Fx,
}

/// The display list and shared geometry a frame's UI is drawn from.
#[derive(Clone, Debug, PartialEq, Eq)]
pub struct DrawingContext {
    pub vertices: Vec<UiVertex>,
    pub triangles: Vec<[u32; 3]>,
    pub commands: Vec<DrawCommand>,
}

impl DrawingContext {
    /// The shared vertex buffer.
    pub fn get_vertices(&self) -> (r: &Vec<UiVertex>)
        ensures
            r@ == self.vertices@,
    {
        &self.vertices
    }

    /// The shared triangle list.
    pub fn get_triangles(&self) -> (r: &Vec<[u32; 3]>)
        ensures
            r@ == self.triangles@,
    {
        &self.triangles
    }

    /// The ordered command list.
    pub fn get_commands(&self) -> (r: &Vec<DrawCommand>)
        ensures
            r@ == self.commands@,
    {
        &self.commands
    }
}

/// A command's triangle range lies inside the shared triangle list.
pub open spec fn cmd_range_ok(cmd: DrawCommand, total: int) -> bool {
    cmd.triangles_start <= cmd.triangles_end <= total
}

/// How many device draws one command produces: two with clip geometry,
/// one without.
pub open spec fn command_draw_count(cmd: DrawCommand) -> int {
    if cmd.clipping_geometry is Some {
        2
    } else {
        1
    }
}

/// How many device draws a command list produces.
pub open spec fn commands_draw_count(cmds: Seq<DrawCommand>) -> int
    decreases cmds.len(),
{
    if cmds.len() == 0 {
        0
    } else {
        commands_draw_count(cmds.drop_last()) + command_draw_count(cmds.last())
    }
}

/// Law: a command list without clip geometry produces exactly one draw
/// per command.
pub proof fn lemma_unclipped_one_draw_per_command(cmds: Seq<DrawCommand>)
    requires
        forall|k: int| 0 <= k < cmds.len() ==> (#[trigger] cmds[k]).clipping_geometry is None,
    ensures
        commands_draw_count(cmds) == cmds.len(),
    decreases cmds.len(),
{
    if cmds.len() > 0 {
        lemma_unclipped_one_draw_per_command(cmds.drop_last());
    }
}

proof fn lemma_draw_count_step(cmds: Seq<DrawCommand>, k: int)
    requires
        0 <= k < cmds.len(),
    ensures
        commands_draw_count(cmds.subrange(0, k + 1)) == commands_draw_count(cmds.subrange(0, k))
            + command_draw_count(cmds[k]),
{
    assert(cmds.subrange(0, k + 1).drop_last() =~= cmds.subrange(0, k));
    assert(cmds.subrange(0, k + 1).last() == cmds[k]);
}

proof fn lemma_draw_count_bounds(cmds: Seq<DrawCommand>)
    ensures
        cmds.len() <= commands_draw_count(cmds) <= 2 * cmds.len(),
    decreases cmds.len(),
{
    if cmds.len() > 0 {
        lemma_draw_count_bounds(cmds.drop_last());
    }
}

/// The draw parameters of a UI content draw: blending on, depth off,
/// stencil testing only when clip geometry preceded it.
pub open spec fn ui_content_params(stencil_test: bool) -> DrawParameters {
    DrawParameters {
        cull_face: CullFace::Back,
        culling: false,
        color_write: ColorMask { red: true, green: true, blue: true, alpha: true },
        depth_write: false,
        stencil_test,
        depth_test: false,
        blend: true,
    }
}

/// The draw parameters of a clip-geometry pass: colour writes disabled,
/// everything else off; only the stencil buffer is marked.
pub open spec fn ui_clip_params() -> DrawParameters {
    DrawParameters {
        cull_face: CullFace::Back,
        culling: false,
        color_write: ColorMask { red: false, green: false, blue: false, alpha: false },
        depth_write: false,
        stencil_test: false,
        depth_test: false,
        blend: false,
    }
}

/// The stencil function the clip pass marks under: always pass,
/// incrementing every covered pixel.
pub open spec fn ui_clip_stencil_func() -> StencilFunc {
    StencilFunc { func: CompareFunc::Always, ref_value: 0, mask: 0xFFFF_FFFF }
}

/// The stencil operations of a clipped command: increment where the
/// clip geometry passes, keep otherwise.
pub open spec fn ui_clip_stencil_op() -> StencilOp {
    StencilOp { fail: StencilAction::Keep, zfail: StencilAction::Keep, zpass: StencilAction::Incr }
}

/// The stencil function the clipped content draws under: only where the
/// clip pass marked exactly one write.
pub open spec fn ui_content_stencil_func() -> StencilFunc {
    StencilFunc { func: CompareFunc::Equal, ref_value: 1, mask: 0xFFFF_FFFF }
}

fn make_ui_content_params(stencil_test: bool) -> (r: DrawParameters)
    ensures
        r == ui_content_params(stencil_test),
{
    DrawParameters {
        cull_face: CullFace::Back,
        culling: false,
        color_write: ColorMask::all(true),
        depth_write: false,
        stencil_test,
        depth_test: false,
        blend: true,
    }
}

fn make_ui_clip_params() -> (r: DrawParameters)
    ensures
        r == ui_clip_params(),
{
    DrawParameters {
        cull_face: CullFace::Back,
        culling: false,
        color_write: ColorMask::all(false),
        depth_write: false,
        stencil_test: false,
        depth_test: false,
        blend: false,
    }
}

/// Clamps a wide value into the `i32` range.
fn clamp_to_i32(x: i64) -> (r: i32)
    ensures
        r as int == sat_i32(x as int),
{
    if x > i32::MAX as i64 {
        i32::MAX
    } else if x < i32::MIN as i64 {
        i32::MIN
    } else {
        x as i32
    }
}

/// The integer scissor rectangle of a command: floor of the clip
/// position, ceiling of the clip size, with the vertical origin flipped
/// to the device's bottom-left convention.
pub open spec fn command_scissor(clip_bounds: FxRect, viewport: Rect) -> Rect {
    let x = sat_i32(crate::fixed::floor_unit(clip_bounds.position.x.raw as int));
    let y = sat_i32(crate::fixed::floor_unit(clip_bounds.position.y.raw as int));
    let w = sat_i32(crate::fixed::ceil_unit(clip_bounds.size.x.raw as int));
    let h = sat_i32(crate::fixed::ceil_unit(clip_bounds.size.y.raw as int));
    Rect { x: x as i32, y: sat_i32(viewport.h - (y + h)) as i32, w: w as i32, h: h as i32 }
}

fn make_command_scissor(clip_bounds: FxRect, viewport: Rect) -> (r: Rect)
    ensures
        r == command_scissor(clip_bounds, viewport),
{
    let x = clip_bounds.position.x.floor_i32();
    let y = clip_bounds.position.y.floor_i32();
    let w = clip_bounds.size.x.ceil_i32();
    let h = clip_bounds.size.y.ceil_i32();
    let flipped = clamp_to_i32(viewport.h as i64 - (y as i64 + h as i64));
    Rect { x, y: flipped, w, h }
}

/// The brush selector the shader receives: solid, linear gradient, or
/// radial gradient.
pub open spec fn brush_kind_id(b: Brush) -> int {
    match b {
        Brush::Solid(_) => 0,
        Brush::LinearGradient { .. } => 1,
        Brush::RadialGradient { .. } => 2,
    }
}

/// The gradient stops a brush carries (none for a solid brush).
pub open spec fn brush_stops(b: Brush) -> Seq<GradientPoint> {
    match b {
        Brush::Solid(_) => Seq::empty(),
        Brush::LinearGradient { stops, .. } => stops@,
        Brush::RadialGradient { stops, .. } => stops@,
    }
}

/// The gradient origin the shader receives.
pub open spec fn brush_origin(b: Brush) -> FxVec2 {
    match b {
        Brush::Solid(_) => FxVec2 { x: Fx { raw: 0 }, y: Fx { raw: 0 } },
        Brush::LinearGradient { from, .. } => from,
        Brush::RadialGradient { center, .. } => center,
    }
}

/// The gradient end point the shader receives.
pub open spec fn brush_end_point(b: Brush) -> FxVec2 {
    match b {
        Brush::LinearGradient { to, .. } => to,
        _ => FxVec2 { x: Fx { raw: 0 }, y: Fx { raw: 0 } },
    }
}

/// The solid colour the shader receives: the brush's colour, or white
/// for gradient brushes.
pub open spec fn brush_solid_color(b: Brush) -> Color {
    match b {
        Brush::Solid(c) => c,
        _ => Color { r: 255, g: 255, b: 255, a: 255 },
    }
}

/// A colour as the normalised 4-vector the brush packing produces.
pub open spec fn color_vec4_spec(c: Color) -> FxVec4 {
    FxVec4 {
        x: Fx { raw: fx_div_raw(c.r as int, 255) as i64 },
        y: Fx { raw: fx_div_raw(c.g as int, 255) as i64 },
        z: Fx { raw: fx_div_raw(c.b as int, 255) as i64 },
        w: Fx { raw: fx_div_raw(c.a as int, 255) as i64 },
    }
}

/// The corner opposite a rectangle's position.
pub open spec fn rect_corner(r: FxRect) -> FxVec2 {
    FxVec2 {
        x: Fx { raw: fx_sat(r.position.x.raw + r.size.x.raw) as i64 },
        y: Fx { raw: fx_sat(r.position.y.raw + r.size.y.raw) as i64 },
    }
}

/// The texture a command's draw samples: the cache's resolution of its
/// asset, or the white dummy when none is bound or it is unresolved.
pub open spec fn ui_resolved_texture(
    white_dummy: u32,
    entries: Seq<crate::cache::CacheEntry<crate::framework::gpu_texture::GpuTexture>>,
    next_id: u32,
    tex: CommandTexture,
) -> u32 {
    match tex {
        CommandTexture::Untextured => white_dummy,
        CommandTexture::Texture(t) => match crate::cache::texture_get_result(
            entries,
            next_id,
            t,
        ) {
            Option::Some(id) => id,
            Option::None => white_dummy,
        },
        CommandTexture::Font(t) => match crate::cache::texture_get_result(entries, next_id, t) {
            Option::Some(id) => id,
            Option::None => white_dummy,
        },
    }
}

/// The UI shader builds exactly when the driver verdict linked and
/// resolved its fourteen uniforms.
pub open spec fn ui_shader_ready(outcome: CompileOutcome) -> bool {
    outcome matches CompileOutcome::Linked { uniforms } && has_uniform(
        uniforms@,
        "worldViewProjection".spec_bytes(),
    ) && has_uniform(uniforms@, "diffuseTexture".spec_bytes()) && has_uniform(
        uniforms@,
        "isFont".spec_bytes(),
    ) && has_uniform(uniforms@, "solidColor".spec_bytes()) && has_uniform(
        uniforms@,
        "brushType".spec_bytes(),
    ) && has_uniform(uniforms@, "gradientPointCount".spec_bytes()) && has_uniform(
        uniforms@,
        "gradientColors".spec_bytes(),
    ) && has_uniform(uniforms@, "gradientStops".spec_bytes()) && has_uniform(
        uniforms@,
        "gradientOrigin".spec_bytes(),
    ) && has_uniform(uniforms@, "gradientEnd".spec_bytes()) && has_uniform(
        uniforms@,
        "boundsMin".spec_bytes(),
    ) && has_uniform(uniforms@, "boundsMax".spec_bytes()) && has_uniform(
        uniforms@,
        "resolution".spec_bytes(),
    ) && has_uniform(uniforms@, "opacity".spec_bytes())
}

/// The UI shader and its uniforms.
pub struct UiShader {
    pub program: GpuProgram,
    pub wvp_matrix: UniformLocation,
    pub diffuse_texture: UniformLocation,
    pub is_font: UniformLocation,
    pub solid_color: UniformLocation,
    pub brush_type: UniformLocation,
    pub gradient_point_count: UniformLocation,
    pub gradient_colors: UniformLocation,
    pub gradient_stops: UniformLocation,
    pub gradient_origin: UniformLocation,
    pub gradient_end: UniformLocation,
    pub resolution: UniformLocation,
    pub bounds_min: UniformLocation,
    pub bounds_max: UniformLocation,
    pub opacity: UniformLocation,
}

impl UiShader {
    /// Builds the UI shader under the driver verdict `outcome`.
    pub fn new(state: &mut PipelineState, outcome: CompileOutcome) -> (r: Result<
        UiShader,
        FrameworkError,
    >)
        requires
            old(state).next_id < 0xFFFF_FFFFu32,
        ensures
            r is Ok <==> ui_shader_ready(outcome),
            !(outcome is Linked) ==> *final(state) == *old(state),
            r is Ok ==> {
                &&& r->Ok_0.program.id == old(state).next_id
                &&& final(state).next_id == old(state).next_id + 1
                &&& final(state).cache == old(state).cache
                &&& final(state).commands@.len() == old(state).commands@.len() + 1
                &&& final(state).commands@.subrange(0, old(state).commands@.len() as int) == old(
                    state,
                ).commands@
                &&& draw_seq(final(state).commands@) == draw_seq(old(state).commands@)
            },
    {
        let vertex_source =
            "#version 330 core\nlayout(location = 0) in vec2 vertexPosition;\nlayout(location = 1) in vec2 vertexTexCoord;\nlayout(location = 2) in vec4 vertexColor;\nuniform mat4 worldViewProjection;\nout vec2 texCoord;\nout vec4 color;\nvoid main() { texCoord = vertexTexCoord; color = vertexColor; gl_Position = worldViewProjection * vec4(vertexPosition, 0.0, 1.0); }\n";
        let fragment_source =
            "#version 330 core\nin vec2 texCoord;\nin vec4 color;\nuniform sampler2D diffuseTexture;\nuniform bool isFont;\nuniform vec4 solidColor;\nuniform int brushType;\nuniform int gradientPointCount;\nuniform vec4 gradientColors[16];\nuniform float gradientStops[16];\nuniform vec2 gradientOrigin;\nuniform vec2 gradientEnd;\nuniform vec2 resolution;\nuniform vec2 boundsMin;\nuniform vec2 boundsMax;\nuniform float opacity;\nout vec4 outColor;\nvoid main() { vec4 sampled = isFont ? vec4(1.0, 1.0, 1.0, texture(diffuseTexture, texCoord).r) : texture(diffuseTexture, texCoord);\n vec4 fill = brushType == 0 ? solidColor : gradientColors[0];\n outColor = color * sampled * fill; outColor.a *= opacity; }\n";
        let program = match GpuProgram::from_source(
            state,
            "UIShader",
            vertex_source.as_bytes(),
            fragment_source.as_bytes(),
            outcome,
        ) {
            Ok(p) => p,
            Err(e) => {
                return Err(e);
            },
        };
        proof {
            crate::framework::state::lemma_draw_seq_extend_non_draws(
                old(state).commands@,
                state.commands@,
            );
        }
        let wvp_matrix = match program.uniform_location("worldViewProjection") {
            Ok(l) => l,
            Err(e) => {
                return Err(e);
            },
        };
        let diffuse_texture = match program.uniform_location("diffuseTexture") {
            Ok(l) => l,
            Err(e) => {
                return Err(e);
            },
        };
        let is_font = match program.uniform_location("isFont") {
            Ok(l) => l,
            Err(e) => {
                return Err(e);
            },
        };
        let solid_color = match program.uniform_location("solidColor") {
            Ok(l) => l,
            Err(e) => {
                return Err(e);
            },
        };
        let brush_type = match program.uniform_location("brushType") {
            Ok(l) => l,
            Err(e) => {
                return Err(e);
            },
        };
        let gradient_point_count = match program.uniform_location("gradientPointCount") {
            Ok(l) => l,
            Err(e) => {
                return Err(e);
            },
        };
        let gradient_colors = match program.uniform_location("gradientColors") {
            Ok(l) => l,
            Err(e) => {
                return Err(e);
            },
        };
        let gradient_stops = match program.uniform_location("gradientStops") {
            Ok(l) => l,
            Err(e) => {
                return Err(e);
            },
        };
        let gradient_origin = match program.uniform_location("gradientOrigin") {
            Ok(l) => l,
            Err(e) => {
                return Err(e);
            },
        };
        let gradient_end = match program.uniform_location("gradientEnd") {
            Ok(l) => l,
            Err(e) => {
                return Err(e);
            },
        };
        let bounds_min = match program.uniform_location("boundsMin") {
            Ok(l) => l,
            Err(e) => {
                return Err(e);
            },
        };
        let bounds_max = match program.uniform_location("boundsMax") {
            Ok(l) => l,
            Err(e) => {
                return Err(e);
            },
        };
        let resolution = match program.uniform_location("resolution") {
            Ok(l) => l,
            Err(e) => {
                return Err(e);
            },
        };
        let opacity = match program.uniform_location("opacity") {
            Ok(l) => l,
            Err(e) => {
                return Err(e);
            },
        };
        Ok(
            UiShader {
                program,
                wvp_matrix,
                diffuse_texture,
                is_font,
                solid_color,
                brush_type,
                gradient_point_count,
                gradient_colors,
                gradient_stops,
                gradient_origin,
                gradient_end,
                resolution,
                bounds_min,
                bounds_max,
                opacity,
            },
        )
    }
}

/// The orthographic projection of the UI frame: maps pixel coordinates
/// (origin top-left) to clip space.
pub fn make_ui_projection(frame_width: Fx, frame_height: Fx) -> (r: Mat4)
    ensures
        r.m[0].raw == fx_div_raw(2 * FX_ONE, frame_width.raw as int),
        r.m[5].raw == fx_sat(-fx_div_raw(2 * FX_ONE, frame_height.raw as int)),
        r.m[10].raw == -65536i64,
        r.m[12].raw == -65536i64,
        r.m[13].raw == FX_ONE,
        r.m[15].raw == FX_ONE,
        r.m[1].raw == 0 && r.m[2].raw == 0 && r.m[3].raw == 0 && r.m[4].raw == 0,
        r.m[6].raw == 0 && r.m[7].raw == 0 && r.m[8].raw == 0 && r.m[9].raw == 0,
        r.m[11].raw == 0 && r.m[14].raw == 0,
{
    let two = Fx::from_raw(2 * FX_ONE);
    let m0 = two.div(frame_width);
    let m5 = two.div(frame_height).neg();
    let z = Fx::zero();
    Mat4 {
        m: [
            m0,
            z,
            z,
            z,
            z,
            m5,
            z,
            z,
            z,
            z,
            Fx::from_raw(-65536),
            z,
            Fx::from_raw(-65536),
            Fx::one(),
            z,
            Fx::one(),
        ],
    }
}

/// A colour as a normalised 4-vector.
fn color_to_vec4(c: Color) -> (r: FxVec4)
    ensures
        r.x.raw == fx_div_raw(c.r as int, 255),
        r.y.raw == fx_div_raw(c.g as int, 255),
        r.z.raw == fx_div_raw(c.b as int, 255),
        r.w.raw == fx_div_raw(c.a as int, 255),
{
    FxVec4 {
        x: Fx::from_ratio(c.r as i64, 255),
        y: Fx::from_ratio(c.g as i64, 255),
        z: Fx::from_ratio(c.b as i64, 255),
        w: Fx::from_ratio(c.a as i64, 255),
    }
}

/// Draws an ordered UI display list into the backbuffer.
pub struct UiRenderer {
    pub shader: UiShader,
    pub geometry_buffer: GeometryBuffer,
    pub clipping_geometry_buffer: GeometryBuffer,
}

impl UiRenderer {
    /// Builds the UI shader and the two dynamic geometry buffers (main
    /// geometry, clip geometry).
    pub fn new(state: &mut PipelineState, outcome: CompileOutcome) -> (r: Result<
        UiRenderer,
        FrameworkError,
    >)
        requires
            old(state).next_id as int + 4 < 0x1_0000_0000,
        ensures
            r is Ok <==> ui_shader_ready(outcome),
            r is Ok ==> {
                &&& final(state).cache == old(state).cache
                &&& draw_seq(final(state).commands@) == draw_seq(old(state).commands@)
                &&& r->Ok_0.geometry_buffer.id != r->Ok_0.clipping_geometry_buffer.id
            },
    {
        let geometry_buffer = match GeometryBuffer::new(
            state,
            ElementKind::Triangle,
            GeometryBufferKind::DynamicDraw,
        ) {
            Ok(b) => b,
            Err(e) => {
                proof {
                    assert(false);
                }
                return Err(e);
            },
        };
        let clipping_geometry_buffer = match GeometryBuffer::new(
            state,
            ElementKind::Triangle,
            GeometryBufferKind::DynamicDraw,
        ) {
            Ok(b) => b,
            Err(e) => {
                proof {
                    assert(false);
                }
                return Err(e);
            },
        };
        let shader = match UiShader::new(state, outcome) {
            Ok(sh) => sh,
            Err(e) => {
                return Err(e);
            },
        };
        Ok(UiRenderer { shader, geometry_buffer, clipping_geometry_buffer })
    }

    /// Executes one draw command: computes its scissor rectangle, runs
    /// the optional stencil clip pass, resolves its texture through the
    /// cache, packs its brush, and draws its triangle range. Produces
    /// exactly one draw without clip geometry (stencil test disabled)
    /// and exactly two with it (stencil test enabled on the second).
    #[verifier::rlimit(100)]
    #[verifier::spinoff_prover]
    pub fn render_command(
        &mut self,
        state: &mut PipelineState,
        backbuffer: &FrameBuffer,
        viewport: Rect,
        cmd: &DrawCommand,
        ortho: &Mat4,
        resolution: FxVec2,
        white_dummy: u32,
        texture_cache: &mut TextureCache,
    ) -> (r: Result<RenderPassStatistics, FrameworkError>)
        requires
            brush_wf(cmd.brush),
            store_wf(old(texture_cache).entries@),
            old(state).next_id < 0xFFFF_FFFFu32,
            old(texture_cache).builds < 0xFFFF_FFFF_FFFF_FFFFu64,
        ensures
            r is Ok <==> cmd_range_ok(*cmd, old(self).geometry_buffer.triangle_count as int),
            store_wf(final(texture_cache).entries@),
            final(texture_cache).builds <= old(texture_cache).builds + 1,
            final(state).next_id <= old(state).next_id + 1,
            final(self).shader == old(self).shader,
            final(self).geometry_buffer == old(self).geometry_buffer,
            final(self).clipping_geometry_buffer.id == old(self).clipping_geometry_buffer.id,
            final(state).commands@.len() >= old(state).commands@.len(),
            final(state).commands@.subrange(0, old(state).commands@.len() as int) == old(
                state,
            ).commands@,
            r is Err ==> *final(state) == *old(state) && *final(texture_cache) == *old(
                texture_cache,
            ),
            r is Ok ==> r->Ok_0.draw_calls as int == command_draw_count(*cmd),
            r is Ok ==> final(state).cache.scissor_box == command_scissor(
                cmd.clip_bounds,
                viewport,
            ),
            final(state).cache.blend_src == old(state).cache.blend_src,
            final(state).cache.blend_dst == old(state).cache.blend_dst,
            final(state).cache.scissor_test == old(state).cache.scissor_test,
            cmd.clipping_geometry is Some ==> (r is Ok ==> exists|j: int|
                old(state).commands@.len() <= j < final(state).commands@.len()
                    && final(state).commands@[j] == (DeviceCommand::ClearTarget {
                    framebuffer: backbuffer.id,
                    viewport,
                    color: Option::<crate::math::Color>::None,
                    depth: Option::<crate::fixed::Fx>::None,
                    stencil: Some(0u32),
                })),
            r is Ok && cmd.clipping_geometry is None ==> draw_seq(final(state).commands@)
                == draw_seq(old(state).commands@).push(
                draw_command(
                    backbuffer.id,
                    old(self).geometry_buffer.id,
                    old(self).shader.program.id,
                    ui_content_params(false),
                    old(state).cache.stencil_func,
                    old(state).cache.stencil_op,
                    old(state).cache.stencil_mask,
                    cmd.triangles_start as int,
                    cmd.triangles_end - cmd.triangles_start,
                ),
            ),
            cmd.clipping_geometry matches Some(cg) ==> (r is Ok ==> draw_seq(
                final(state).commands@,
            ) == draw_seq(old(state).commands@).push(
                draw_command(
                    backbuffer.id,
                    old(self).clipping_geometry_buffer.id,
                    old(self).shader.program.id,
                    ui_clip_params(),
                    ui_clip_stencil_func(),
                    ui_clip_stencil_op(),
                    0xFF,
                    0,
                    cg.triangle_buffer@.len() as int,
                ),
            ).push(
                draw_command(
                    backbuffer.id,
                    old(self).geometry_buffer.id,
                    old(self).shader.program.id,
                    ui_content_params(true),
                    ui_content_stencil_func(),
                    ui_clip_stencil_op(),
                    0,
                    cmd.triangles_start as int,
                    cmd.triangles_end - cmd.triangles_start,
                ),
            )),
            r is Ok ==> ({
                let n = final(state).commands@.len() as int;
                &&& final(state).commands@[n - 2] == (DeviceCommand::SetUniform {
                    program: old(self).shader.opacity.program,
                    slot: old(self).shader.opacity.slot,
                    value: UniformValue::Scalar(cmd.opacity),
                })
                &&& (final(state).commands@[n - 3] matches DeviceCommand::SetUniform {
                    program,
                    slot,
                    value,
                } && program == old(self).shader.gradient_colors.program && slot == old(
                    self,
                ).shader.gradient_colors.slot && value is Vec4Array
                    && value->Vec4Array_0@.len() == 16 && (forall|k: int|
                    0 <= k < brush_stops(cmd.brush).len() ==> (#[trigger] value->Vec4Array_0@[k])
                        == color_vec4_spec(brush_stops(cmd.brush)[k].color)) && (forall|k: int|
                    brush_stops(cmd.brush).len() <= k < 16 ==> (
                    #[trigger] value->Vec4Array_0@[k]) == (FxVec4 {
                        x: Fx { raw: 0 },
                        y: Fx { raw: 0 },
                        z: Fx { raw: 0 },
                        w: Fx { raw: 0 },
                    })))
                &&& (final(state).commands@[n - 4] matches DeviceCommand::SetUniform {
                    program,
                    slot,
                    value,
                } && program == old(self).shader.gradient_stops.program && slot == old(
                    self,
                ).shader.gradient_stops.slot && value is ScalarArray
                    && value->ScalarArray_0@.len() == 16 && (forall|k: int|
                    0 <= k < brush_stops(cmd.brush).len() ==> (
                    #[trigger] value->ScalarArray_0@[k]) == brush_stops(cmd.brush)[k].stop) && (
                forall|k: int|
                    brush_stops(cmd.brush).len() <= k < 16 ==> (
                    #[trigger] value->ScalarArray_0@[k]).raw == 0))
                &&& final(state).commands@[n - 5] == (DeviceCommand::SetUniform {
                    program: old(self).shader.gradient_point_count.program,
                    slot: old(self).shader.gradient_point_count.slot,
                    value: UniformValue::Int(brush_stops(cmd.brush).len() as i32),
                })
                &&& final(state).commands@[n - 6] == (DeviceCommand::SetUniform {
                    program: old(self).shader.gradient_end.program,
                    slot: old(self).shader.gradient_end.slot,
                    value: UniformValue::Vec2(brush_end_point(cmd.brush)),
                })
                &&& final(state).commands@[n - 7] == (DeviceCommand::SetUniform {
                    program: old(self).shader.gradient_origin.program,
                    slot: old(self).shader.gradient_origin.slot,
                    value: UniformValue::Vec2(brush_origin(cmd.brush)),
                })
                &&& final(state).commands@[n - 8] == (DeviceCommand::SetUniform {
                    program: old(self).shader.solid_color.program,
                    slot: old(self).shader.solid_color.slot,
                    value: UniformValue::SrgbColor(brush_solid_color(cmd.brush)),
                })
                &&& final(state).commands@[n - 9] == (DeviceCommand::SetUniform {
                    program: old(self).shader.brush_type.program,
                    slot: old(self).shader.brush_type.slot,
                    value: UniformValue::Int(brush_kind_id(cmd.brush) as i32),
                })
                &&& final(state).commands@[n - 10] == (DeviceCommand::SetUniform {
                    program: old(self).shader.is_font.program,
                    slot: old(self).shader.is_font.slot,
                    value: UniformValue::Bool(cmd.texture is Font),
                })
                &&& final(state).commands@[n - 11] == (DeviceCommand::SetUniform {
                    program: old(self).shader.bounds_max.program,
                    slot: old(self).shader.bounds_max.slot,
                    value: UniformValue::Vec2(rect_corner(cmd.bounds)),
                })
                &&& final(state).commands@[n - 12] == (DeviceCommand::SetUniform {
                    program: old(self).shader.bounds_min.program,
                    slot: old(self).shader.bounds_min.slot,
                    value: UniformValue::Vec2(cmd.bounds.position),
                })
                &&& final(state).commands@[n - 13] == (DeviceCommand::SetUniform {
                    program: old(self).shader.resolution.program,
                    slot: old(self).shader.resolution.slot,
                    value: UniformValue::Vec2(resolution),
                })
                &&& final(state).commands@[n - 14] == (DeviceCommand::SetUniform {
                    program: old(self).shader.wvp_matrix.program,
                    slot: old(self).shader.wvp_matrix.slot,
                    value: UniformValue::Matrix4(*ortho),
                })
                &&& final(state).commands@[n - 15] == (DeviceCommand::SetUniform {
                    program: old(self).shader.diffuse_texture.program,
                    slot: old(self).shader.diffuse_texture.slot,
                    value: UniformValue::Sampler {
                        unit: 0,
                        texture: ui_resolved_texture(
                            white_dummy,
                            old(texture_cache).entries@,
                            old(state).next_id,
                            cmd.texture,
                        ),
                    },
                })
            }),
    {
        if cmd.triangles_start > cmd.triangles_end || cmd.triangles_end
            > self.geometry_buffer.triangle_count() {
            return Err(
                FrameworkError::InvalidElementRange {
                    start: cmd.triangles_start,
                    end: cmd.triangles_end,
                    total: self.geometry_buffer.triangle_count(),
                },
            );
        }
        let ghost base = state.commands@;
        let ghost mut anchor: Seq<DeviceCommand> = state.commands@;
        let scissor = make_command_scissor(cmd.clip_bounds, viewport);
        state.set_scissor_box(scissor);
        proof {
            assert(state.commands@.subrange(0, base.len() as int) =~= base);
        }
        let mut stats = RenderPassStatistics::new();
        let mut stencil_test = false;

        // Stencil clip pass for complex clip shapes.
        match &cmd.clipping_geometry {
            Some(clipping_geometry) => {
                let ghost pre = state.commands@;
                backbuffer.clear(state, viewport, None, None, Some(0));
                proof {
                    anchor = state.commands@;
                    assert(anchor.last() == (DeviceCommand::ClearTarget {
                        framebuffer: backbuffer.id,
                        viewport,
                        color: Option::<crate::math::Color>::None,
                        depth: Option::<crate::fixed::Fx>::None,
                        stencil: Some(0u32),
                    }));
                    assert(anchor.len() > base.len());
                }
                state.set_stencil_op(
                    StencilOp {
                        fail: StencilAction::Keep,
                        zfail: StencilAction::Keep,
                        zpass: StencilAction::Incr,
                    },
                );
                state.set_stencil_func(
                    StencilFunc { func: CompareFunc::Always, ref_value: 0, mask: 0xFFFF_FFFF },
                );
                state.set_stencil_mask(0xFF);
                self.clipping_geometry_buffer.set_buffer_data(
                    state,
                    clipping_geometry.vertex_buffer.len(),
                );
                self.clipping_geometry_buffer.set_triangles(
                    state,
                    clipping_geometry.triangle_buffer.len(),
                );
                proof {
                    assert(state.commands@.subrange(0, base.len() as int) =~= base);
                    assert(state.commands@.subrange(0, anchor.len() as int) =~= anchor);
                    assert(draw_seq(state.commands@) == draw_seq(base));
                }
                let ghost mid = state.commands@;
                let mut binding = self.shader.program.bind();
                binding.set_matrix4(&self.shader.wvp_matrix, ortho);
                let d = backbuffer.draw(
                    &self.clipping_geometry_buffer,
                    state,
                    viewport,
                    &self.shader.program,
                    &make_ui_clip_params(),
                    binding.into_uniforms(),
                );
                stats.add_draw_call(d);
                proof {
                    crate::framework::state::lemma_prefix_trans(base, mid, state.commands@);
                    crate::framework::state::lemma_prefix_trans(anchor, mid, state.commands@);
                }
                // Main geometry draws only where the clip pass marked.
                state.set_stencil_func(
                    StencilFunc { func: CompareFunc::Equal, ref_value: 1, mask: 0xFFFF_FFFF },
                );
                state.set_stencil_mask(0);
                stencil_test = true;
                proof {
                    assert(state.commands@.subrange(0, base.len() as int) =~= base);
                    assert(state.commands@.subrange(0, anchor.len() as int) =~= anchor);
                }
            },
            None => {},
        }

        // Resolve the command's texture through the cache; unresolved
        // references fall back to the white dummy.
        let mut diffuse_texture = white_dummy;
        let mut is_font_texture = false;
        let ghost pre_cache = state.commands@;
        match &cmd.texture {
            CommandTexture::Font(atlas) => {
                match texture_cache.get(state, atlas) {
                    Some(id) => {
                        diffuse_texture = id;
                    },
                    None => {},
                }
                is_font_texture = true;
            },
            CommandTexture::Texture(texture) => {
                match texture_cache.get(state, texture) {
                    Some(id) => {
                        diffuse_texture = id;
                    },
                    None => {},
                }
            },
            CommandTexture::Untextured => {},
        }
        proof {
            assert(state.commands@.subrange(0, pre_cache.len() as int) =~= pre_cache);
            crate::framework::state::lemma_prefix_trans(base, pre_cache, state.commands@);
            if cmd.clipping_geometry is Some {
                crate::framework::state::lemma_prefix_trans(anchor, pre_cache, state.commands@);
            }
        }

        // Pack the brush into the fixed-size uniform arrays.
        let mut raw_stops: Vec<Fx> = Vec::new();
        let mut raw_colors: Vec<FxVec4> = Vec::new();
        let mut gradient_origin = FxVec2::zero();
        let mut gradient_end = FxVec2::zero();
        let mut brush_kind: i32 = 0;
        let mut point_count: i32 = 0;
        let mut solid = Color::white();
        match &cmd.brush {
            Brush::Solid(color) => {
                solid = *color;
            },
            Brush::LinearGradient { from, to, stops } => {
                brush_kind = 1;
                gradient_origin = *from;
                gradient_end = *to;
                point_count = stops.len() as i32;
                pack_stops(stops, &mut raw_stops, &mut raw_colors);
            },
            Brush::RadialGradient { center, stops } => {
                brush_kind = 2;
                gradient_origin = *center;
                point_count = stops.len() as i32;
                pack_stops(stops, &mut raw_stops, &mut raw_colors);
            },
        }
        pad_stops(&mut raw_stops, &mut raw_colors);
        let ghost stops_view = raw_stops@;
        let ghost colors_view = raw_colors@;

        let bounds_max = cmd.bounds.right_bottom_corner();
        let mut binding = self.shader.program.bind();
        binding.set_texture(&self.shader.diffuse_texture, diffuse_texture);
        binding.set_matrix4(&self.shader.wvp_matrix, ortho);
        binding.set_vector2(&self.shader.resolution, resolution);
        binding.set_vector2(&self.shader.bounds_min, cmd.bounds.position);
        binding.set_vector2(&self.shader.bounds_max, bounds_max);
        binding.set_bool(&self.shader.is_font, is_font_texture);
        binding.set_i32(&self.shader.brush_type, brush_kind);
        binding.set_srgb_color(&self.shader.solid_color, solid);
        binding.set_vector2(&self.shader.gradient_origin, gradient_origin);
        binding.set_vector2(&self.shader.gradient_end, gradient_end);
        binding.set_i32(&self.shader.gradient_point_count, point_count);
        binding.set_f32_slice(&self.shader.gradient_stops, raw_stops);
        binding.set_vector4_slice(&self.shader.gradient_colors, raw_colors);
        binding.set_f32(&self.shader.opacity, cmd.opacity);

        let uniform_values = binding.into_uniforms();
        let ghost ulist = uniform_values@;
        let ghost pre_draw = state.commands@;
        let d = match backbuffer.draw_part(
            &self.geometry_buffer,
            state,
            viewport,
            &self.shader.program,
            &make_ui_content_params(stencil_test),
            uniform_values,
            cmd.triangles_start,
            cmd.triangles_end - cmd.triangles_start,
        ) {
            Ok(d) => d,
            Err(_) => {
                proof {
                    assert(false);
                }
                return Err(FrameworkError::AttachmentSizeMismatch);
            },
        };
        stats.add_draw_call(d);
        proof {
            crate::framework::state::lemma_prefix_trans(base, pre_draw, state.commands@);
            if cmd.clipping_geometry is Some {
                crate::framework::state::lemma_prefix_trans(anchor, pre_draw, state.commands@);
                assert(state.commands@[anchor.len() - 1] == anchor[anchor.len() - 1]) by {
                    assert(state.commands@.subrange(0, anchor.len() as int)[anchor.len() - 1]
                        == anchor[anchor.len() - 1]);
                };
            }
            assert(diffuse_texture == ui_resolved_texture(
                white_dummy,
                old(texture_cache).entries@,
                old(state).next_id,
                cmd.texture,
            ));
            assert(is_font_texture == (cmd.texture is Font));
            assert(stops_view.len() == 16 && colors_view.len() == 16);
            assert(ulist[11].1 matches UniformValue::ScalarArray(sv) && sv@ == stops_view);
            assert(ulist[12].1 matches UniformValue::Vec4Array(cv) && cv@ == colors_view);
            assert forall|k: int|
                0 <= k < brush_stops(cmd.brush).len() implies #[trigger] stops_view[k]
                == brush_stops(cmd.brush)[k].stop by {
                assert(stops_view[k] == stops_view.subrange(
                    0,
                    brush_stops(cmd.brush).len() as int,
                )[k]);
            };
            assert forall|k: int|
                brush_stops(cmd.brush).len() <= k < 16 implies (
            #[trigger] stops_view[k]).raw == 0 by {};
            assert forall|k: int|
                0 <= k < brush_stops(cmd.brush).len() implies #[trigger] colors_view[k]
                == color_vec4_spec(brush_stops(cmd.brush)[k].color) by {
                assert(colors_view[k] == colors_view.subrange(
                    0,
                    brush_stops(cmd.brush).len() as int,
                )[k]);
            };
            assert forall|k: int|
                brush_stops(cmd.brush).len() <= k < 16 implies #[trigger] colors_view[k]
                == (FxVec4 {
                x: Fx { raw: 0 },
                y: Fx { raw: 0 },
                z: Fx { raw: 0 },
                w: Fx { raw: 0 },
            }) by {};
            assert(point_count as int == brush_stops(cmd.brush).len());
            assert(brush_kind as int == brush_kind_id(cmd.brush));
            assert(gradient_origin == brush_origin(cmd.brush));
            assert(gradient_end == brush_end_point(cmd.brush));
            assert(solid == brush_solid_color(cmd.brush));
            assert(bounds_max == rect_corner(cmd.bounds));
            let n = state.commands@.len() as int;
            let tail = crate::framework::framebuffer::uniform_commands(ulist);
            assert forall|k: int| 0 <= k < ulist.len() implies state.commands@[n - 1
                - ulist.len() + k] == tail[k] by {
                assert(state.commands@.subrange(n - 1 - ulist.len(), n)[k] == state.commands@[n
                    - 1 - ulist.len() + k]);
                assert(tail.push(state.commands@.last())[k] == tail[k]);
            };
            assert(ulist.len() >= 1 ==> state.commands@[n - 2] == tail[ulist.len() - 2
                + 1]) by {
                if ulist.len() >= 1 {
                    let k = ulist.len() - 2 + 1;
                    assert(state.commands@[n - 1 - ulist.len() + k] == tail[k]);
                }
            };
            assert(ulist.len() >= 2 ==> state.commands@[n - 3] == tail[ulist.len() - 3
                + 1]) by {
                if ulist.len() >= 2 {
                    let k = ulist.len() - 3 + 1;
                    assert(state.commands@[n - 1 - ulist.len() + k] == tail[k]);
                }
            };
            assert(ulist.len() >= 3 ==> state.commands@[n - 4] == tail[ulist.len() - 4
                + 1]) by {
                if ulist.len() >= 3 {
                    let k = ulist.len() - 4 + 1;
                    assert(state.commands@[n - 1 - ulist.len() + k] == tail[k]);
                }
            };
            assert(ulist.len() >= 4 ==> state.commands@[n - 5] == tail[ulist.len() - 5
                + 1]) by {
                if ulist.len() >= 4 {
                    let k = ulist.len() - 5 + 1;
                    assert(state.commands@[n - 1 - ulist.len() + k] == tail[k]);
                }
            };
            assert(ulist.len() >= 5 ==> state.commands@[n - 6] == tail[ulist.len() - 6
                + 1]) by {
                if ulist.len() >= 5 {
                    let k = ulist.len() - 6 + 1;
                    assert(state.commands@[n - 1 - ulist.len() + k] == tail[k]);
                }
            };
            assert(ulist.len() >= 6 ==> state.commands@[n - 7] == tail[ulist.len() - 7
                + 1]) by {
                if ulist.len() >= 6 {
                    let k = ulist.len() - 7 + 1;
                    assert(state.commands@[n - 1 - ulist.len() + k] == tail[k]);
                }
            };
            assert(ulist.len() >= 7 ==> state.commands@[n - 8] == tail[ulist.len() - 8
                + 1]) by {
                if ulist.len() >= 7 {
                    let k = ulist.len() - 8 + 1;
                    assert(state.commands@[n - 1 - ulist.len() + k] == tail[k]);
                }
            };
            assert(ulist.len() >= 8 ==> state.commands@[n - 9] == tail[ulist.len() - 9
                + 1]) by {
                if ulist.len() >= 8 {
                    let k = ulist.len() - 9 + 1;
                    assert(state.commands@[n - 1 - ulist.len() + k] == tail[k]);
                }
            };
            assert(ulist.len() >= 9 ==> state.commands@[n - 10] == tail[ulist.len() - 10
                + 1]) by {
                if ulist.len() >= 9 {
                    let k = ulist.len() - 10 + 1;
                    assert(state.commands@[n - 1 - ulist.len() + k] == tail[k]);
                }
            };
            assert(ulist.len() >= 10 ==> state.commands@[n - 11] == tail[ulist.len() - 11
                + 1]) by {
                if ulist.len() >= 10 {
                    let k = ulist.len() - 11 + 1;
                    assert(state.commands@[n - 1 - ulist.len() + k] == tail[k]);
                }
            };
            assert(ulist.len() >= 11 ==> state.commands@[n - 12] == tail[ulist.len() - 12
                + 1]) by {
                if ulist.len() >= 11 {
                    let k = ulist.len() - 12 + 1;
                    assert(state.commands@[n - 1 - ulist.len() + k] == tail[k]);
                }
            };
            assert(ulist.len() >= 12 ==> state.commands@[n - 13] == tail[ulist.len() - 13
                + 1]) by {
                if ulist.len() >= 12 {
                    let k = ulist.len() - 13 + 1;
                    assert(state.commands@[n - 1 - ulist.len() + k] == tail[k]);
                }
            };
            assert(ulist.len() >= 13 ==> state.commands@[n - 14] == tail[ulist.len() - 14
                + 1]) by {
                if ulist.len() >= 13 {
                    let k = ulist.len() - 14 + 1;
                    assert(state.commands@[n - 1 - ulist.len() + k] == tail[k]);
                }
            };
            assert(ulist.len() >= 14 ==> state.commands@[n - 15] == tail[ulist.len() - 15
                + 1]) by {
                if ulist.len() >= 14 {
                    let k = ulist.len() - 15 + 1;
                    assert(state.commands@[n - 1 - ulist.len() + k] == tail[k]);
                }
            };
        }
        Ok(stats)
    }

    /// Renders a whole display list in submission order: uploads the
    /// frame's vertices and triangles, enables the scissor test, runs
    /// every command, and disables it again. Succeeds exactly when every
    /// command's triangle range lies inside the uploaded list, and then
    /// reports one draw per command plus one extra per clip-geometry
    /// command.
    pub fn render(
        &mut self,
        state: &mut PipelineState,
        viewport: Rect,
        backbuffer: &FrameBuffer,
        frame_width: Fx,
        frame_height: Fx,
        drawing_context: &DrawingContext,
        white_dummy: u32,
        texture_cache: &mut TextureCache,
    ) -> (r: Result<RenderPassStatistics, FrameworkError>)
        requires
            forall|k: int|
                0 <= k < drawing_context.commands@.len() ==> brush_wf(
                    (#[trigger] drawing_context.commands@[k]).brush,
                ),
            drawing_context.commands@.len() <= 0x100_0000,
            store_wf(old(texture_cache).entries@),
            old(state).next_id as int + drawing_context.commands@.len() < 0xFFFF_FFFF,
            old(texture_cache).builds as int + drawing_context.commands@.len()
                < 0xFFFF_FFFF_FFFF_FFFF,
        ensures
            store_wf(final(texture_cache).entries@),
            r is Ok <==> (forall|k: int|
                0 <= k < drawing_context.commands@.len() ==> cmd_range_ok(
                    #[trigger] drawing_context.commands@[k],
                    drawing_context.triangles@.len() as int,
                )),
            r is Ok ==> {
                &&& r->Ok_0.draw_calls as int == commands_draw_count(drawing_context.commands@)
                &&& draw_seq(final(state).commands@).len() == draw_seq(old(state).commands@).len()
                    + commands_draw_count(drawing_context.commands@)
            },
            final(state).commands@.subrange(0, old(state).commands@.len() as int) == old(
                state,
            ).commands@,
            final(state).cache.blend_src == BlendFactor::SrcAlpha,
            final(state).cache.blend_dst == BlendFactor::OneMinusSrcAlpha,
            r is Ok ==> final(state).cache.scissor_test == false,
            exists|jv: int, jt: int|
                old(state).commands@.len() <= jv < jt < final(state).commands@.len()
                    && final(state).commands@[jv] == (DeviceCommand::UploadVertices {
                    buffer: old(self).geometry_buffer.id,
                    count: drawing_context.vertices@.len() as usize,
                }) && final(state).commands@[jt] == (DeviceCommand::UploadTriangles {
                    buffer: old(self).geometry_buffer.id,
                    count: drawing_context.triangles@.len() as usize,
                }),
    {
        let ghost cmds = drawing_context.commands@;
        let ghost base = state.commands@;
        state.set_blend_func(BlendFactor::SrcAlpha, BlendFactor::OneMinusSrcAlpha);
        let ghost jv = state.commands@.len() as int;
        self.geometry_buffer.set_buffer_data(state, drawing_context.vertices.len());
        let ghost jt = state.commands@.len() as int;
        self.geometry_buffer.set_triangles(state, drawing_context.triangles.len());
        let ortho = make_ui_projection(frame_width, frame_height);
        let resolution = FxVec2 { x: frame_width, y: frame_height };
        state.set_scissor_test(true);
        proof {
            assert(state.commands@.subrange(0, base.len() as int) =~= base);
            assert(cmds.subrange(0, 0) =~= Seq::<DrawCommand>::empty());
            assert(state.commands@[jv] == (DeviceCommand::UploadVertices {
                buffer: self.geometry_buffer.id,
                count: drawing_context.vertices@.len() as usize,
            }));
            assert(state.commands@[jt] == (DeviceCommand::UploadTriangles {
                buffer: self.geometry_buffer.id,
                count: drawing_context.triangles@.len() as usize,
            }));
        }
        let mut stats = RenderPassStatistics::new();
        let mut i: usize = 0;
        let ghost n0 = state.next_id;
        let ghost b0 = texture_cache.builds;
        while i < drawing_context.commands.len()
            invariant
                i <= cmds.len(),
                base == old(state).commands@,
                drawing_context.commands@ == cmds,
                cmds.len() <= 0x100_0000,
                forall|k: int| 0 <= k < cmds.len() ==> brush_wf((#[trigger] cmds[k]).brush),
                forall|k: int|
                    0 <= k < i ==> cmd_range_ok(
                        #[trigger] cmds[k],
                        drawing_context.triangles@.len() as int,
                    ),
                store_wf(texture_cache.entries@),
                texture_cache.builds as int <= b0 + i,
                b0 as int + cmds.len() < 0xFFFF_FFFF_FFFF_FFFF,
                state.next_id as int <= n0 + i,
                n0 + cmds.len() < 0xFFFF_FFFF,
                self.geometry_buffer.triangle_count == drawing_context.triangles@.len(),
                self.geometry_buffer.id == old(self).geometry_buffer.id,
                self.shader == old(self).shader,
                state.cache.blend_src == BlendFactor::SrcAlpha,
                state.cache.blend_dst == BlendFactor::OneMinusSrcAlpha,
                base.len() <= jv < jt < state.commands@.len(),
                state.commands@[jv] == (DeviceCommand::UploadVertices {
                    buffer: old(self).geometry_buffer.id,
                    count: drawing_context.vertices@.len() as usize,
                }),
                state.commands@[jt] == (DeviceCommand::UploadTriangles {
                    buffer: old(self).geometry_buffer.id,
                    count: drawing_context.triangles@.len() as usize,
                }),
                stats.draw_calls as int == commands_draw_count(cmds.subrange(0, i as int)),
                stats.draw_calls <= 2 * i,
                state.commands@.len() >= base.len(),
                state.commands@.subrange(0, base.len() as int) == base,
                draw_seq(state.commands@).len() == draw_seq(base).len()
                    + stats.draw_calls,
            decreases cmds.len() - i,
        {
            let cmd = &drawing_context.commands[i];
            let ghost pre = state.commands@;
            let d = match self.render_command(
                state,
                backbuffer,
                viewport,
                cmd,
                &ortho,
                resolution,
                white_dummy,
                texture_cache,
            ) {
                Ok(d) => d,
                Err(e) => {
                    proof {
                        assert(!cmd_range_ok(cmds[i as int], drawing_context.triangles@.len() as int));
                        assert(state.commands@.subrange(0, base.len() as int) =~= base);
                        assert(state.commands@[jv] == (DeviceCommand::UploadVertices {
                            buffer: old(self).geometry_buffer.id,
                            count: drawing_context.vertices@.len() as usize,
                        }));
                        assert(state.commands@[jt] == (DeviceCommand::UploadTriangles {
                            buffer: old(self).geometry_buffer.id,
                            count: drawing_context.triangles@.len() as usize,
                        }));
                    }
                    return Err(e);
                },
            };
            proof {
                crate::framework::state::lemma_prefix_trans(base, pre, state.commands@);
                lemma_draw_count_step(cmds, i as int);
                lemma_draw_count_bounds(cmds.subrange(0, i as int + 1));
                assert(state.commands@[jv] == state.commands@.subrange(0, pre.len() as int)[jv]);
                assert(state.commands@[jt] == state.commands@.subrange(0, pre.len() as int)[jt]);
            }
            stats.add_pass(d);
            i = i + 1;
        }
        let ghost before_off = state.commands@;
        state.set_scissor_test(false);
        proof {
            assert(cmds.subrange(0, cmds.len() as int) =~= cmds);
            assert(state.commands@.subrange(0, base.len() as int) =~= base);
            assert(state.commands@[jv] == before_off[jv]);
            assert(state.commands@[jt] == before_off[jt]);
        }
        Ok(stats)
    }
}

/// Copies gradient stop positions and colours into the packed arrays.
fn pack_stops(stops: &Vec<GradientPoint>, raw_stops: &mut Vec<Fx>, raw_colors: &mut Vec<FxVec4>)
    requires
        stops@.len() <= 16,
        old(raw_stops)@.len() == 0,
        old(raw_colors)@.len() == 0,
    ensures
        final(raw_stops)@.len() == stops@.len(),
        final(raw_colors)@.len() == stops@.len(),
        forall|k: int|
            0 <= k < stops@.len() ==> (#[trigger] final(raw_stops)@[k]) == stops@[k].stop,
        forall|k: int|
            0 <= k < stops@.len() ==> (#[trigger] final(raw_colors)@[k]) == color_vec4_spec(
                stops@[k].color,
            ),
{
    let mut k: usize = 0;
    while k < stops.len()
        invariant
            k <= stops@.len(),
            raw_stops@.len() == k,
            raw_colors@.len() == k,
            forall|j: int| 0 <= j < k ==> (#[trigger] raw_stops@[j]) == stops@[j].stop,
            forall|j: int|
                0 <= j < k ==> (#[trigger] raw_colors@[j]) == color_vec4_spec(stops@[j].color),
        decreases stops@.len() - k,
    {
        raw_stops.push(stops[k].stop);
        raw_colors.push(color_to_vec4(stops[k].color));
        k = k + 1;
    }
}

/// Pads the packed arrays out to the sixteen slots the shader reserves.
fn pad_stops(raw_stops: &mut Vec<Fx>, raw_colors: &mut Vec<FxVec4>)
    requires
        old(raw_stops)@.len() <= 16,
        old(raw_colors)@.len() <= 16,
    ensures
        final(raw_stops)@.len() == 16,
        final(raw_colors)@.len() == 16,
        final(raw_stops)@.subrange(0, old(raw_stops)@.len() as int) == old(raw_stops)@,
        final(raw_colors)@.subrange(0, old(raw_colors)@.len() as int) == old(raw_colors)@,
        forall|k: int|
            old(raw_stops)@.len() <= k < 16 ==> (#[trigger] final(raw_stops)@[k]).raw == 0,
        forall|k: int|
            old(raw_colors)@.len() <= k < 16 ==> (#[trigger] final(raw_colors)@[k]) == (FxVec4 {
                x: Fx { raw: 0 },
                y: Fx { raw: 0 },
                z: Fx { raw: 0 },
                w: Fx { raw: 0 },
            }),
{
    while raw_stops.len() < 16
        invariant
            raw_stops@.len() <= 16,
            raw_stops@.subrange(0, old(raw_stops)@.len() as int) == old(raw_stops)@,
            old(raw_stops)@.len() <= raw_stops@.len(),
            forall|k: int|
                old(raw_stops)@.len() <= k < raw_stops@.len() ==> (#[trigger] raw_stops@[k]).raw
                    == 0,
        decreases 16 - raw_stops@.len(),
    {
        let ghost pre = raw_stops@;
        raw_stops.push(Fx::zero());
        proof {
            assert(raw_stops@.subrange(0, old(raw_stops)@.len() as int) =~= pre.subrange(
                0,
                old(raw_stops)@.len() as int,
            ));
        }
    }
    while raw_colors.len() < 16
        invariant
            raw_colors@.len() <= 16,
            raw_colors@.subrange(0, old(raw_colors)@.len() as int) == old(raw_colors)@,
            old(raw_colors)@.len() <= raw_colors@.len(),
            forall|k: int|
                old(raw_colors)@.len() <= k < raw_colors@.len() ==> (
                #[trigger] raw_colors@[k]) == (FxVec4 {
                    x: Fx { raw: 0 },
                    y: Fx { raw: 0 },
                    z: Fx { raw: 0 },
                    w: Fx { raw: 0 },
                }),
        decreases 16 - raw_colors@.len(),
    {
        let ghost pre = raw_colors@;
        raw_colors.push(FxVec4 { x: Fx::zero(), y: Fx::zero(), z: Fx::zero(), w: Fx::zero() });
        proof {
            assert(raw_colors@.subrange(0, old(raw_colors)@.len() as int) =~= pre.subrange(
                0,
                old(raw_colors)@.len() as int,
            ));
        }
    }
}

} // verus!
