//! Sprite rendering: draws every visible sprite node as a camera-facing
//! quad, blended, depth-tested but not depth-written.

use vstd::prelude::*;
use crate::cache::{
    store_hit, store_wf, GeometryCache, SurfaceResource, SurfaceSource, TextureCache,
};
use crate::framework::error::FrameworkError;
use crate::framework::framebuffer::FrameBuffer;
use crate::framework::gpu_program::{has_uniform, CompileOutcome, GpuProgram, UniformLocation};
use vstd::string::StringSliceAdditionalSpecFns;
use crate::framework::state::{
    draw_seq, BlendFactor, ColorMask, CullFace, DeviceCommand, DrawParameters, PipelineState,
    UniformValue,
};
use crate::fixed::{fx_sat, Fx};
use crate::math::{FxVec3, Mat4, Rect};
use crate::scene::{Graph, Node, NodeKind, SpriteData};
use crate::stats::RenderPassStatistics;

verus! {

broadcast use vstd::array::axiom_array_ext_equal;

/// The camera inputs the sprite pass consumes: its matrices and the
/// billboard orientation vectors of its inverse view.
#[derive(Clone, Copy, Debug, PartialEq, Eq)]
pub struct Camera {
    pub view_projection: Mat4,
    pub projection: Mat4,
    pub view: Mat4,
    pub inv_view_up: FxVec3,
    pub inv_view_side: FxVec3,
}

/// The sprite shader builds exactly when the driver verdict linked and
/// resolved its eight uniforms.
pub open spec fn sprite_shader_ready(outcome: CompileOutcome) -> bool {
    outcome matches CompileOutcome::Linked { uniforms } && has_uniform(
        uniforms@,
        "viewProjectionMatrix".spec_bytes(),
    ) && has_uniform(uniforms@, "worldMatrix".spec_bytes()) && has_uniform(
        uniforms@,
        "cameraSideVector".spec_bytes(),
    ) && has_uniform(uniforms@, "cameraUpVector".spec_bytes()) && has_uniform(
        uniforms@,
        "size".spec_bytes(),
    ) && has_uniform(uniforms@, "diffuseTexture".spec_bytes()) && has_uniform(
        uniforms@,
        "color".spec_bytes(),
    ) && has_uniform(uniforms@, "rotation".spec_bytes())
}

/// The projection a sprite is drawn with: the camera's, except that a
/// non-zero depth offset factor is subtracted (saturating) from entry
/// fourteen.
pub open spec fn sprite_projection_spec(camera: Camera, s: SpriteData) -> Mat4 {
    if s.depth_offset_factor.raw == 0 {
        camera.projection
    } else {
        Mat4 {
            m: [
                camera.projection.m[0],
                camera.projection.m[1],
                camera.projection.m[2],
                camera.projection.m[3],
                camera.projection.m[4],
                camera.projection.m[5],
                camera.projection.m[6],
                camera.projection.m[7],
                camera.projection.m[8],
                camera.projection.m[9],
                camera.projection.m[10],
                camera.projection.m[11],
                camera.projection.m[12],
                camera.projection.m[13],
                Fx { raw: fx_sat(camera.projection.m[14].raw - s.depth_offset_factor.raw) as i64 },
                camera.projection.m[15],
            ],
        }
    }
}

/// The view-projection uniform a sprite draw carries: the camera's
/// cached product when the sprite has no depth offset, else the
/// offset-adjusted projection times the view, entry by entry.
pub open spec fn sprite_vp_ok(value: UniformValue, camera: Camera, s: SpriteData) -> bool {
    &&& value is Matrix4
    &&& (s.depth_offset_factor.raw == 0 ==> value->Matrix4_0 == camera.view_projection)
    &&& (s.depth_offset_factor.raw != 0 ==> (forall|i: int, j: int|
        #![trigger crate::math::mat_mul_entry_raw(sprite_projection_spec(camera, s), camera.view, i, j)]
        0 <= i < 4 && 0 <= j < 4 ==> value->Matrix4_0.m[j * 4 + i].raw
            == crate::math::mat_mul_entry_raw(sprite_projection_spec(camera, s), camera.view, i, j)))
}

/// The eight uniform commands a sprite draw issues right before it: its
/// resolved diffuse texture on sampler zero, its view-projection, its
/// world matrix, the camera's billboard axes, and its size, colour and
/// rotation.
pub open spec fn sprite_uniform_block(
    cmds: Seq<DeviceCommand>,
    p: int,
    sh: SpriteShader,
    s: SpriteData,
    camera: Camera,
    texid: u32,
) -> bool {
    &&& 8 <= p < cmds.len()
    &&& cmds[p - 8] == (DeviceCommand::SetUniform {
        program: sh.diffuse_texture.program,
        slot: sh.diffuse_texture.slot,
        value: UniformValue::Sampler { unit: 0, texture: texid },
    })
    &&& (cmds[p - 7] matches DeviceCommand::SetUniform { program, slot, value } && program
        == sh.view_projection_matrix.program && slot == sh.view_projection_matrix.slot
        && sprite_vp_ok(value, camera, s))
    &&& cmds[p - 6] == (DeviceCommand::SetUniform {
        program: sh.world_matrix.program,
        slot: sh.world_matrix.slot,
        value: UniformValue::Matrix4(s.global_transform),
    })
    &&& cmds[p - 5] == (DeviceCommand::SetUniform {
        program: sh.camera_up_vector.program,
        slot: sh.camera_up_vector.slot,
        value: UniformValue::Vec3(camera.inv_view_up),
    })
    &&& cmds[p - 4] == (DeviceCommand::SetUniform {
        program: sh.camera_side_vector.program,
        slot: sh.camera_side_vector.slot,
        value: UniformValue::Vec3(camera.inv_view_side),
    })
    &&& cmds[p - 3] == (DeviceCommand::SetUniform {
        program: sh.size.program,
        slot: sh.size.slot,
        value: UniformValue::Scalar(s.size),
    })
    &&& cmds[p - 2] == (DeviceCommand::SetUniform {
        program: sh.color.program,
        slot: sh.color.slot,
        value: UniformValue::LinearColor(s.color),
    })
    &&& cmds[p - 1] == (DeviceCommand::SetUniform {
        program: sh.rotation.program,
        slot: sh.rotation.slot,
        value: UniformValue::Scalar(s.rotation),
    })
}

/// A sprite's uniform block is untouched by appends.
proof fn lemma_sprite_block_stable(
    pre: Seq<DeviceCommand>,
    post: Seq<DeviceCommand>,
    p: int,
    sh: SpriteShader,
    s: SpriteData,
    camera: Camera,
    texid: u32,
)
    requires
        pre.len() <= post.len(),
        post.subrange(0, pre.len() as int) == pre,
        p < pre.len(),
        sprite_uniform_block(pre, p, sh, s, camera, texid),
    ensures
        sprite_uniform_block(post, p, sh, s, camera, texid),
{
    assert(post[p - 8] == post.subrange(0, pre.len() as int)[p - 8]);
    assert(post[p - 7] == post.subrange(0, pre.len() as int)[p - 7]);
    assert(post[p - 6] == post.subrange(0, pre.len() as int)[p - 6]);
    assert(post[p - 5] == post.subrange(0, pre.len() as int)[p - 5]);
    assert(post[p - 4] == post.subrange(0, pre.len() as int)[p - 4]);
    assert(post[p - 3] == post.subrange(0, pre.len() as int)[p - 3]);
    assert(post[p - 2] == post.subrange(0, pre.len() as int)[p - 2]);
    assert(post[p - 1] == post.subrange(0, pre.len() as int)[p - 1]);
}

/// The sprite shader and its uniforms.
pub struct SpriteShader {
    pub program: GpuProgram,
    pub view_projection_matrix: UniformLocation,
    pub world_matrix: UniformLocation,
    pub camera_side_vector: UniformLocation,
    pub camera_up_vector: UniformLocation,
    pub color: UniformLocation,
    pub diffuse_texture: UniformLocation,
    pub size: UniformLocation,
    pub rotation: UniformLocation,
}

impl SpriteShader {
    /// Builds the sprite shader under the driver verdict `outcome`.
    pub fn new(state: &mut PipelineState, outcome: CompileOutcome) -> (r: Result<
        SpriteShader,
        FrameworkError,
    >)
        requires
            old(state).next_id < 0xFFFF_FFFFu32,
        ensures
            r is Ok <==> sprite_shader_ready(outcome),
            !(outcome is Linked) ==> *final(state) == *old(state),
            r is Ok ==> {
                &&& r->Ok_0.program.id == old(state).next_id
                &&& final(state).next_id == old(state).next_id + 1
                &&& final(state).cache == old(state).cache
                &&& draw_seq(final(state).commands@) == draw_seq(old(state).commands@)
            },
    {
        let vertex_source =
            "#version 330 core\nlayout(location = 0) in vec3 vertexPosition;\nlayout(location = 1) in vec2 vertexTexCoord;\nuniform mat4 viewProjectionMatrix;\nuniform mat4 worldMatrix;\nuniform vec3 cameraSideVector;\nuniform vec3 cameraUpVector;\nuniform float size;\nuniform float rotation;\nout vec2 texCoord;\nvoid main() { texCoord = vertexTexCoord; vec2 offset = vertexTexCoord * 2.0 - 1.0; float c = cos(rotation); float s = sin(rotation); vec3 corner = size * ((c * offset.x - s * offset.y) * cameraSideVector + (s * offset.x + c * offset.y) * cameraUpVector); gl_Position = viewProjectionMatrix * worldMatrix * vec4(vertexPosition + corner, 1.0); }\n";
        let fragment_source =
            "#version 330 core\nin vec2 texCoord;\nuniform sampler2D diffuseTexture;\nuniform vec4 color;\nout vec4 outColor;\nvoid main() { outColor = color * texture(diffuseTexture, texCoord); }\n";
        let program = match GpuProgram::from_source(
            state,
            "SpriteShader",
            vertex_source.as_bytes(),
            fragment_source.as_bytes(),
            outcome,
        ) {
            Ok(p) => p,
            Err(e) => {
                return Err(e);
            },
        };
        proof {
            crate::framework::state::lemma_draw_seq_extend_non_draws(
                old(state).commands@,
                state.commands@,
            );
        }
        let view_projection_matrix = match program.uniform_location("viewProjectionMatrix") {
            Ok(l) => l,
            Err(e) => {
                return Err(e);
            },
        };
        let world_matrix = match program.uniform_location("worldMatrix") {
            Ok(l) => l,
            Err(e) => {
                return Err(e);
            },
        };
        let camera_side_vector = match program.uniform_location("cameraSideVector") {
            Ok(l) => l,
            Err(e) => {
                return Err(e);
            },
        };
        let camera_up_vector = match program.uniform_location("cameraUpVector") {
            Ok(l) => l,
            Err(e) => {
                return Err(e);
            },
        };
        let size = match program.uniform_location("size") {
            Ok(l) => l,
            Err(e) => {
                return Err(e);
            },
        };
        let diffuse_texture = match program.uniform_location("diffuseTexture") {
            Ok(l) => l,
            Err(e) => {
                return Err(e);
            },
        };
        let color = match program.uniform_location("color") {
            Ok(l) => l,
            Err(e) => {
                return Err(e);
            },
        };
        let rotation = match program.uniform_location("rotation") {
            Ok(l) => l,
            Err(e) => {
                return Err(e);
            },
        };
        Ok(
            SpriteShader {
                program,
                view_projection_matrix,
                world_matrix,
                camera_side_vector,
                camera_up_vector,
                color,
                diffuse_texture,
                size,
                rotation,
            },
        )
    }
}

/// Whether a pool slot holds a visible sprite node.
pub open spec fn slot_is_visible_sprite(slot: Option<Node>) -> bool {
    slot matches Some(node) && node.global_visibility && node.kind is Sprite
}

/// How many visible sprites a node list holds.
pub open spec fn visible_sprite_count(items: Seq<Option<Node>>) -> int
    decreases items.len(),
{
    if items.len() == 0 {
        0
    } else {
        visible_sprite_count(items.drop_last()) + if slot_is_visible_sprite(items.last()) {
            1int
        } else {
            0int
        }
    }
}

/// The draw parameters of a sprite draw: blended, depth-tested, not
/// depth-written, back faces culled.
pub open spec fn sprite_pass_params() -> DrawParameters {
    DrawParameters {
        cull_face: CullFace::Back,
        culling: true,
        color_write: ColorMask { red: true, green: true, blue: true, alpha: true },
        depth_write: false,
        stencil_test: false,
        depth_test: true,
        blend: true,
    }
}

fn make_sprite_pass_params() -> (r: DrawParameters)
    ensures
        r == sprite_pass_params(),
{
    DrawParameters {
        cull_face: CullFace::Back,
        culling: true,
        color_write: ColorMask::all(true),
        depth_write: false,
        stencil_test: false,
        depth_test: true,
        blend: true,
    }
}

/// Draws visible sprite nodes as billboards through a shared collapsed
/// quad surface.
pub struct SpriteRenderer {
    pub shader: SpriteShader,
    pub surface: SurfaceResource,
}

impl SpriteRenderer {
    /// Builds the sprite shader and the shared quad surface (four
    /// vertices, two triangles, under a reserved surface handle).
    pub fn new(state: &mut PipelineState, outcome: CompileOutcome, surface_handle: u64) -> (r:
        Result<SpriteRenderer, FrameworkError>)
        requires
            old(state).next_id < 0xFFFF_FFFFu32,
        ensures
            r is Ok <==> sprite_shader_ready(outcome),
            !(outcome is Linked) ==> *final(state) == *old(state),
            r is Ok ==> {
                &&& r->Ok_0.surface.data == Some(
                    SurfaceSource { vertex_count: 4, triangle_count: 2 },
                )
                &&& r->Ok_0.surface.handle == surface_handle
                &&& final(state).cache == old(state).cache
                &&& draw_seq(final(state).commands@) == draw_seq(old(state).commands@)
            },
    {
        let shader = match SpriteShader::new(state, outcome) {
            Ok(sh) => sh,
            Err(e) => {
                return Err(e);
            },
        };
        let surface = SurfaceResource {
            handle: surface_handle,
            version: 0,
            data: Some(SurfaceSource { vertex_count: 4, triangle_count: 2 }),
        };
        Ok(SpriteRenderer { shader, surface })
    }

    /// Draws every visible sprite of the graph: one blended draw per
    /// sprite, through the shared quad resolved once in the geometry
    /// cache. A sprite with a non-zero depth offset draws through the
    /// camera's projection with its offset applied.
    #[verifier::rlimit(100)]
    #[verifier::spinoff_prover]
    pub fn render(
        &mut self,
        state: &mut PipelineState,
        framebuffer: &FrameBuffer,
        graph: &Graph,
        camera: &Camera,
        white_dummy: u32,
        viewport: Rect,
        textures: &mut TextureCache,
        geom_map: &mut GeometryCache,
    ) -> (stats: RenderPassStatistics)
        requires
            store_wf(old(textures).entries@),
            store_wf(old(geom_map).entries@),
            old(self).surface.data is Some,
            graph.pool.items@.len() <= 0x100_0000,
            old(state).next_id as int + graph.pool.items@.len() + 1 < 0xFFFF_FFFF,
            old(textures).builds as int + graph.pool.items@.len() < 0xFFFF_FFFF_FFFF_FFFF,
            old(geom_map).builds < 0xFFFF_FFFF_FFFF_FFFEu64,
        ensures
            store_wf(final(textures).entries@),
            store_wf(final(geom_map).entries@),
            stats.draw_calls as int == visible_sprite_count(graph.pool.items@),
            draw_seq(final(state).commands@).len() == draw_seq(old(state).commands@).len()
                + stats.draw_calls,
            forall|j: int|
                draw_seq(old(state).commands@).len() <= j < draw_seq(
                    final(state).commands@,
                ).len() ==> ((#[trigger] draw_seq(final(state).commands@)[j])
                    matches DeviceCommand::Draw { framebuffer: fbid, params, .. } && fbid
                    == framebuffer.id && params == sprite_pass_params()),
            final(state).commands@.subrange(0, old(state).commands@.len() as int) == old(
                state,
            ).commands@,
            *final(self) == *old(self),
            forall|p: int|
                #![trigger final(state).commands@[p]]
                old(state).commands@.len() <= p < final(state).commands@.len()
                    && final(state).commands@[p] is Draw ==> exists|q: int, texid: u32|
                    #![trigger sprite_uniform_block(final(state).commands@, p, old(self).shader, graph.pool.items@[q]->0.kind->Sprite_0, *camera, texid)]
                    0 <= q < graph.pool.items@.len() && slot_is_visible_sprite(
                        graph.pool.items@[q],
                    ) && sprite_uniform_block(
                        final(state).commands@,
                        p,
                        old(self).shader,
                        graph.pool.items@[q]->0.kind->Sprite_0,
                        *camera,
                        texid,
                    ),
    {
        let mut stats = RenderPassStatistics::new();
        let ghost items = graph.pool.items@;
        let ghost base = state.commands@;
        let ghost n0 = state.next_id;
        let ghost tb0 = textures.builds;
        let ghost gb0 = geom_map.builds;
        state.set_blend_func(BlendFactor::SrcAlpha, BlendFactor::OneMinusSrcAlpha);
        proof {
            assert(state.commands@.subrange(0, base.len() as int) =~= base);
            assert(items.subrange(0, 0) =~= Seq::<Option<Node>>::empty());
            assert forall|p: int|
                base.len() <= p < state.commands@.len() implies !((#[trigger] state.commands@[p])
                is Draw) by {
                crate::framework::state::lemma_draw_seq_same_len_no_draws(
                    base,
                    state.commands@,
                    p,
                );
            }
        }
        let mut i: usize = 0;
        while i < graph.pool.get_capacity()
            invariant
                i <= items.len(),
                graph.pool.items@ == items,
                items.len() <= 0x100_0000,
                base == old(state).commands@,
                *self == *old(self),
                self.surface == old(self).surface,
                old(self).surface.data is Some,
                store_wf(textures.entries@),
                store_wf(geom_map.entries@),
                textures.builds as int <= tb0 + i,
                tb0 == old(textures).builds,
                gb0 == old(geom_map).builds,
                n0 == old(state).next_id,
                tb0 as int + items.len() < 0xFFFF_FFFF_FFFF_FFFF,
                geom_map.builds as int <= gb0 + 1,
                store_hit(geom_map.entries@, self.surface.handle, self.surface.version)
                    || geom_map.builds == gb0,
                gb0 < 0xFFFF_FFFF_FFFF_FFFEu64,
                state.next_id as int <= n0 + (textures.builds - tb0) + (geom_map.builds - gb0),
                n0 + items.len() + 1 < 0xFFFF_FFFF,
                stats.draw_calls as int == visible_sprite_count(items.subrange(0, i as int)),
                stats.draw_calls <= i,
                state.commands@.len() >= base.len(),
                state.commands@.subrange(0, base.len() as int) == base,
                draw_seq(state.commands@).len() == draw_seq(base).len() + stats.draw_calls,
                forall|j: int|
                    draw_seq(base).len() <= j < draw_seq(state.commands@).len() ==> ((
                    #[trigger] draw_seq(state.commands@)[j])
                        matches DeviceCommand::Draw { framebuffer: fbid, params, .. } && fbid
                        == framebuffer.id && params == sprite_pass_params()),
                forall|p: int|
                    #![trigger state.commands@[p]]
                    base.len() <= p < state.commands@.len() && state.commands@[p] is Draw
                        ==> exists|q: int, texid: u32|
                        #![trigger sprite_uniform_block(state.commands@, p, old(self).shader, items[q]->0.kind->Sprite_0, *camera, texid)]
                        0 <= q < items.len() && slot_is_visible_sprite(items[q])
                            && sprite_uniform_block(
                            state.commands@,
                            p,
                            old(self).shader,
                            items[q]->0.kind->Sprite_0,
                            *camera,
                            texid,
                        ),
            decreases items.len() - i,
        {
            let mut drew = false;
            match graph.pool.at(i) {
                Some(node) => {
                    if node.global_visibility() {
                        match &node.kind {
                            NodeKind::Sprite(sprite) => {
                                let ghost head = state.commands@;
                                let view_projection = if sprite.depth_offset_factor.raw != 0 {
                                    let mut projection = camera.projection;
                                    let mut m = projection.m;
                                    m[14] = m[14].sub(sprite.depth_offset_factor);
                                    projection = Mat4 { m };
                                    let vp = projection.mul(camera.view);
                                    proof {
                                        assert(forall|k: int|
                                            0 <= k < 16 ==> projection.m[k]
                                                == sprite_projection_spec(*camera, *sprite).m[k]);
                                        assert(projection.m =~= sprite_projection_spec(
                                            *camera,
                                            *sprite,
                                        ).m);
                                        assert(projection == sprite_projection_spec(
                                            *camera,
                                            *sprite,
                                        ));
                                        assert(sprite_vp_ok(
                                            UniformValue::Matrix4(vp),
                                            *camera,
                                            *sprite,
                                        ));
                                    }
                                    vp
                                } else {
                                    camera.view_projection
                                };
                                proof {
                                    assert(sprite_vp_ok(
                                        UniformValue::Matrix4(view_projection),
                                        *camera,
                                        *sprite,
                                    ));
                                }
                                let ghost pre = state.commands@;
                                let ghost pre_entries = geom_map.entries@;
                                let ghost pre_nid = state.next_id;
                                let geometry = match geom_map.get(state, &self.surface) {
                                    Some(g) => g,
                                    None => {
                                        proof {
                                            assert(false);
                                        }
                                        return stats;
                                    },
                                };
                                proof {
                                    crate::cache::lemma_store_get_idempotent(
                                        pre_entries,
                                        self.surface.handle,
                                        self.surface.version,
                                        true,
                                        crate::cache::CacheEntry {
                                            handle: self.surface.handle,
                                            version: self.surface.version,
                                            value: crate::cache::built_geometry(
                                                pre_nid,
                                                self.surface.data->0,
                                            ),
                                        },
                                    );
                                    assert(state.commands@.subrange(0, pre.len() as int)
                                        =~= pre);
                                    crate::framework::state::lemma_prefix_trans(
                                        base,
                                        pre,
                                        state.commands@,
                                    );
                                    assert(draw_seq(state.commands@) == draw_seq(head));
                                }
                                let ghost pre = state.commands@;
                                let diffuse_texture = match &sprite.texture {
                                    Some(texture) => {
                                        match textures.get(state, texture) {
                                            Some(id) => id,
                                            None => white_dummy,
                                        }
                                    },
                                    None => white_dummy,
                                };
                                proof {
                                    assert(state.commands@.subrange(0, pre.len() as int)
                                        =~= pre);
                                    crate::framework::state::lemma_prefix_trans(
                                        base,
                                        pre,
                                        state.commands@,
                                    );
                                    crate::framework::state::lemma_prefix_trans(
                                        head,
                                        pre,
                                        state.commands@,
                                    );
                                    assert(draw_seq(state.commands@) == draw_seq(head));
                                }
                                let mut binding = self.shader.program.bind();
                                binding.set_texture(&self.shader.diffuse_texture, diffuse_texture);
                                binding.set_matrix4(
                                    &self.shader.view_projection_matrix,
                                    &view_projection,
                                );
                                binding.set_matrix4(
                                    &self.shader.world_matrix,
                                    &sprite.global_transform,
                                );
                                binding.set_vector3(
                                    &self.shader.camera_up_vector,
                                    camera.inv_view_up,
                                );
                                binding.set_vector3(
                                    &self.shader.camera_side_vector,
                                    camera.inv_view_side,
                                );
                                binding.set_f32(&self.shader.size, sprite.size);
                                binding.set_linear_color(&self.shader.color, sprite.color);
                                binding.set_f32(&self.shader.rotation, sprite.rotation);
                                let ghost pre = state.commands@;
                                let ghost ulist = binding.uniforms@;
                                let d = framebuffer.draw(
                                    &geometry,
                                    state,
                                    viewport,
                                    &self.shader.program,
                                    &make_sprite_pass_params(),
                                    binding.into_uniforms(),
                                );
                                stats.add_draw_call(d);
                                drew = true;
                                proof {
                                    crate::framework::state::lemma_prefix_trans(
                                        base,
                                        pre,
                                        state.commands@,
                                    );
                                    crate::framework::state::lemma_prefix_trans(
                                        head,
                                        pre,
                                        state.commands@,
                                    );
                                    let cur = state.commands@;
                                    let n = cur.len() as int;
                                    let tail = cur.subrange(n - 9, n);
                                    assert(cur[n - 9] == tail[0]);
                                    assert(cur[n - 8] == tail[1]);
                                    assert(cur[n - 7] == tail[2]);
                                    assert(cur[n - 6] == tail[3]);
                                    assert(cur[n - 5] == tail[4]);
                                    assert(cur[n - 4] == tail[5]);
                                    assert(cur[n - 3] == tail[6]);
                                    assert(cur[n - 2] == tail[7]);
                                    assert(ulist.len() == 8);
                                    assert(slot_is_visible_sprite(items[i as int]));
                                    assert(items[i as int]->0.kind->Sprite_0 == *sprite);
                                    assert(sprite_uniform_block(
                                        cur,
                                        n - 1,
                                        old(self).shader,
                                        items[i as int]->0.kind->Sprite_0,
                                        *camera,
                                        diffuse_texture,
                                    ));
                                    assert forall|p: int|
                                        #![trigger cur[p]]
                                        base.len() <= p < cur.len() && cur[p]
                                            is Draw implies exists|q: int, texid: u32|
                                        #![trigger sprite_uniform_block(cur, p, old(self).shader, items[q]->0.kind->Sprite_0, *camera, texid)]
                                        0 <= q < items.len() && slot_is_visible_sprite(items[q])
                                            && sprite_uniform_block(
                                            cur,
                                            p,
                                            old(self).shader,
                                            items[q]->0.kind->Sprite_0,
                                            *camera,
                                            texid,
                                        ) by {
                                        if p < head.len() {
                                            assert(cur[p] == cur.subrange(
                                                0,
                                                head.len() as int,
                                            )[p]);
                                            assert(head[p] is Draw);
                                            let (q, texid) = choose|q: int, texid: u32|
                                                #![trigger sprite_uniform_block(head, p, old(self).shader, items[q]->0.kind->Sprite_0, *camera, texid)]
                                                0 <= q < items.len() && slot_is_visible_sprite(
                                                    items[q],
                                                ) && sprite_uniform_block(
                                                    head,
                                                    p,
                                                    old(self).shader,
                                                    items[q]->0.kind->Sprite_0,
                                                    *camera,
                                                    texid,
                                                );
                                            lemma_sprite_block_stable(
                                                head,
                                                cur,
                                                p,
                                                old(self).shader,
                                                items[q]->0.kind->Sprite_0,
                                                *camera,
                                                texid,
                                            );
                                        } else if p < pre.len() {
                                            assert(cur[p] == cur.subrange(
                                                0,
                                                pre.len() as int,
                                            )[p]);
                                            assert(pre[p] is Draw);
                                            crate::framework::state::lemma_draw_seq_same_len_no_draws(
                                                head,
                                                pre,
                                                p,
                                            );
                                            assert(false);
                                        } else if p < n - 1 {
                                            crate::framework::state::lemma_single_draw_at_end(
                                                pre,
                                                cur,
                                                p,
                                            );
                                            assert(false);
                                        } else {
                                            assert(sprite_uniform_block(
                                                cur,
                                                n - 1,
                                                old(self).shader,
                                                items[i as int]->0.kind->Sprite_0,
                                                *camera,
                                                diffuse_texture,
                                            ));
                                        }
                                    }
                                }
                            },
                            _ => {},
                        }
                    }
                },
                None => {},
            }
            i = i + 1;
            proof {
                assert(items.subrange(0, i as int).drop_last() =~= items.subrange(
                    0,
                    i as int - 1,
                ));
                assert(items.subrange(0, i as int).last() == items[i as int - 1]);
                assert(drew == slot_is_visible_sprite(items[i as int - 1]));
            }
        }
        proof {
            assert(items.subrange(0, items.len() as int) =~= items);
        }
        stats
    }
}

} // verus!
