use rg3d::batch::{Batch, BatchStorage, SurfaceInstance};
use rg3d::cache::{
    RenderPassKind, ShaderCache, ShaderPassSource, ShaderResource, ShaderSetSource,
    SurfaceResource, SurfaceSource, TextureCache,
};
use rg3d::fixed::{Fx, FX_ONE};
use rg3d::framework::framebuffer::{Attachment, AttachmentKind, FrameBuffer};
use rg3d::framework::geometry_buffer::{ElementKind, GeometryBuffer, GeometryBufferKind};
use rg3d::framework::gpu_program::{CompileOutcome, GpuProgram};
use rg3d::framework::gpu_texture::{
    GpuTexture, GpuTextureKind, MagnificationFilter, MinificationFilter, PixelKind,
};
use rg3d::framework::state::{CompareFunc, DeviceCommand, PipelineState, StencilAction, UniformValue};
use rg3d::hdr::{Exposure, HighDynamicRangeRenderer};
use rg3d::math::{FxVec2, FxVec3, Mat4, Rect};
use rg3d::scene::{Graph, Handle, MeshData, Node, NodeKind, Pool};
use rg3d::shadow::{cascade_size, PointShadowMapRenderer, ShadowMapPrecision};
use rg3d::sprite_renderer::{Camera, SpriteRenderer};
use rg3d::stats::RenderPassStatistics;
use rg3d::ui_renderer::{
    ClippingGeometry, CommandTexture, DrawCommand, DrawingContext, UiRenderer, UiVertex,
};
use rg3d::brush::Brush;
use rg3d::math::{Color, FxRect};

fn fx(v: i64) -> Fx {
    Fx { raw: v * FX_ONE }
}

fn identity() -> Mat4 {
    let o = Fx { raw: FX_ONE };
    let z = Fx { raw: 0 };
    Mat4 { m: [o, z, z, z, z, o, z, z, z, z, o, z, z, z, z, o] }
}

fn linked(names: &[&str]) -> CompileOutcome {
    CompileOutcome::Linked {
        uniforms: names.iter().map(|n| String::from(*n)).collect(),
    }
}

fn draw_params_of(commands: &Vec<DeviceCommand>) -> Vec<rg3d::framework::state::DrawParameters> {
    let mut out = Vec::new();
    for c in commands {
        if let DeviceCommand::Draw { params, .. } = c {
            out.push(*params);
        }
    }
    out
}

// Pipeline-state setters are recorded no-ops when the value is already
// current: the second identical set issues no device call.
#[test]
fn scissor_setter_elides_redundant_set() {
    let mut state = PipelineState::new();
    let r = Rect::new(1, 2, 3, 4);
    state.set_scissor_box(r);
    let after_first = state.command_count();
    assert_eq!(after_first, 1);
    state.set_scissor_box(r);
    assert_eq!(state.command_count(), after_first);
    state.set_scissor_box(Rect::new(5, 6, 7, 8));
    assert_eq!(state.command_count(), after_first + 1);
}

#[test]
fn blend_and_stencil_setters_elide() {
    let mut state = PipelineState::new();
    state.set_scissor_test(true);
    state.set_scissor_test(true);
    state.set_stencil_mask(0xFF);
    state.set_stencil_mask(0xFF);
    assert_eq!(state.command_count(), 2);
}

// Building a geometry buffer with N vertices and M triangles reports
// exactly M triangles on the next draw call.
#[test]
fn geometry_round_trip_reports_triangles() {
    let mut state = PipelineState::new();
    let mut quad = GeometryBuffer::new(
        &mut state,
        ElementKind::Triangle,
        GeometryBufferKind::DynamicDraw,
    )
    .unwrap();
    quad.set_buffer_data(&mut state, 7);
    quad.set_triangles(&mut state, 5);
    assert_eq!(quad.vertex_count(), 7);
    assert_eq!(quad.triangle_count(), 5);

    let texture = GpuTexture::new(
        &mut state,
        GpuTextureKind::Rectangle { width: 4, height: 4 },
        PixelKind::RGBA8,
        MinificationFilter::Nearest,
        MagnificationFilter::Nearest,
        1,
        None,
    )
    .unwrap();
    let fb = FrameBuffer::new(
        &mut state,
        None,
        vec![Attachment { kind: AttachmentKind::Color, texture }],
    )
    .unwrap();
    let program = GpuProgram::from_source(
        &mut state,
        "Test",
        b"void main() {}\n",
        b"void main() {}\n",
        linked(&[]),
    )
    .unwrap();
    let stats = fb.draw(
        &quad,
        &mut state,
        Rect::new(0, 0, 4, 4),
        &program,
        &rg3d::framework::state::DrawParameters {
            cull_face: rg3d::framework::state::CullFace::Back,
            culling: false,
            color_write: rg3d::framework::state::ColorMask {
                red: true,
                green: true,
                blue: true,
                alpha: true,
            },
            depth_write: false,
            stencil_test: false,
            depth_test: false,
            blend: false,
        },
        Vec::new(),
    );
    assert_eq!(stats.triangles, 5);
}

#[test]
fn framebuffer_rejects_mismatched_attachment_sizes() {
    let mut state = PipelineState::new();
    let a = GpuTexture::new(
        &mut state,
        GpuTextureKind::Rectangle { width: 4, height: 4 },
        PixelKind::RGBA8,
        MinificationFilter::Nearest,
        MagnificationFilter::Nearest,
        1,
        None,
    )
    .unwrap();
    let b = GpuTexture::new(
        &mut state,
        GpuTextureKind::Rectangle { width: 8, height: 8 },
        PixelKind::RGBA8,
        MinificationFilter::Nearest,
        MagnificationFilter::Nearest,
        1,
        None,
    )
    .unwrap();
    let r = FrameBuffer::new(
        &mut state,
        None,
        vec![
            Attachment { kind: AttachmentKind::Color, texture: a },
            Attachment { kind: AttachmentKind::Color, texture: b },
        ],
    );
    assert!(matches!(
        r,
        Err(rg3d::framework::error::FrameworkError::AttachmentSizeMismatch)
    ));
}

fn make_hdr(state: &mut PipelineState) -> HighDynamicRangeRenderer {
    HighDynamicRangeRenderer::new(
        state,
        linked(&["worldViewProjection", "invSize", "frameSampler"]),
        linked(&["worldViewProjection", "lumSampler", "invSize"]),
        linked(&["worldViewProjection", "oldLumSampler", "newLumSampler", "speed"]),
        linked(&[
            "worldViewProjection",
            "lumSampler",
            "bloomSampler",
            "hdrSampler",
            "useColorGrading",
            "colorMapSampler",
            "keyValue",
            "minLuminance",
            "maxLuminance",
            "autoExposure",
            "fixedExposure",
        ]),
    )
    .unwrap()
}

// A uniform mid-gray scene of intensity one half reports an instant
// average luminance of exactly one half at the terminal buffer, and one
// whole HDR frame takes nine draw calls.
#[test]
fn uniform_half_gray_scene_averages_to_half() {
    let mut state = PipelineState::new();
    let mut hdr = make_hdr(&mut state);
    let mut quad = GeometryBuffer::new(
        &mut state,
        ElementKind::Triangle,
        GeometryBufferKind::StaticDraw,
    )
    .unwrap();
    quad.set_buffer_data(&mut state, 4);
    quad.set_triangles(&mut state, 2);
    let ldr_texture = GpuTexture::new(
        &mut state,
        GpuTextureKind::Rectangle { width: 64, height: 64 },
        PixelKind::RGBA8,
        MinificationFilter::Nearest,
        MagnificationFilter::Nearest,
        1,
        None,
    )
    .unwrap();
    let ldr = FrameBuffer::new(
        &mut state,
        None,
        vec![Attachment { kind: AttachmentKind::Color, texture: ldr_texture }],
    )
    .unwrap();
    let mut texture_cache = TextureCache::new();
    let half = Fx { raw: FX_ONE / 2 };
    let scene = vec![half; 64 * 64];
    let stats = hdr.render(
        &mut state,
        900,
        &scene,
        901,
        &ldr,
        Rect::new(0, 0, 64, 64),
        &quad,
        fx(1),
        Exposure::Manual(fx(1)),
        None,
        false,
        &mut texture_cache,
    );
    assert_eq!(stats.draw_calls, 9);
    assert_eq!(stats.triangles_rendered, 18);
    assert_eq!(hdr.instant_luminance().raw, FX_ONE / 2);
}

// The adaptation step moves the adapted value strictly toward the
// instant luminance; held fixed, it converges to it exactly.
#[test]
fn adaptation_approaches_and_converges() {
    let prev = fx(0);
    let instant = fx(1);
    let speed = Fx { raw: 19661 }; // 0.3 of full speed
    let one = rg3d::hdr::adapt_step(prev, instant, speed);
    assert!(prev.raw < one.raw && one.raw <= instant.raw);
    assert_eq!(one.raw, (65536 * 19661) / 65536);

    // Held fixed, it converges and then stays.
    let mut value = prev;
    let mut steps = 0u64;
    while value.raw != instant.raw {
        value = rg3d::hdr::adapt_step(value, instant, speed);
        steps += 1;
        assert!(steps <= 65536 + 1);
    }
    let settled = rg3d::hdr::adapt_step(value, instant, speed);
    assert_eq!(settled.raw, instant.raw);
}

#[test]
fn hdr_render_swaps_adaptation_buffers() {
    let mut state = PipelineState::new();
    let mut hdr = make_hdr(&mut state);
    let mut quad = GeometryBuffer::new(
        &mut state,
        ElementKind::Triangle,
        GeometryBufferKind::StaticDraw,
    )
    .unwrap();
    quad.set_triangles(&mut state, 2);
    let ldr_texture = GpuTexture::new(
        &mut state,
        GpuTextureKind::Rectangle { width: 8, height: 8 },
        PixelKind::RGBA8,
        MinificationFilter::Nearest,
        MagnificationFilter::Nearest,
        1,
        None,
    )
    .unwrap();
    let ldr = FrameBuffer::new(
        &mut state,
        None,
        vec![Attachment { kind: AttachmentKind::Color, texture: ldr_texture }],
    )
    .unwrap();
    let mut texture_cache = TextureCache::new();
    let scene = vec![fx(1); 64 * 64];
    hdr.render(
        &mut state,
        900,
        &scene,
        901,
        &ldr,
        Rect::new(0, 0, 8, 8),
        &quad,
        fx(1),
        Exposure::Auto {
            key_value: Fx { raw: 11468 },
            min_luminance: Fx { raw: 655 },
            max_luminance: fx(64),
        },
        None,
        false,
        &mut texture_cache,
    );
    // instant = 1.0; first frame adapts from 0 by 0.3 of the gap.
    assert_eq!(hdr.instant_luminance().raw, FX_ONE);
    assert_eq!(hdr.adapted_luminance().raw, 19661);
}

fn shadow_node(kind: NodeKind, cast_shadows: bool, x: i64) -> Node {
    let mut n = Node::base(String::new(), FxVec3 { x: fx(x), y: fx(0), z: fx(0) });
    n.cast_shadows = cast_shadows;
    n.kind = kind;
    n
}

fn shadow_batch(owner: Handle) -> Batch {
    Batch {
        material: ShaderResource {
            handle: 10,
            version: 0,
            data: Some(ShaderSetSource {
                passes: vec![ShaderPassSource {
                    kind: RenderPassKind::PointShadow,
                    vertex_source: b"#version 330 core\nvoid main() {}\n".to_vec(),
                    fragment_source: b"void main() {}\n".to_vec(),
                }],
            }),
        },
        data: SurfaceResource {
            handle: 11,
            version: 0,
            data: Some(SurfaceSource { vertex_count: 3, triangle_count: 1 }),
        },
        instances: vec![SurfaceInstance {
            world_transform: identity(),
            bone_matrices: Vec::new(),
            owner,
        }],
        is_skinned: false,
    }
}

// A terrain node is always treated as a shadow caster: one draw on each
// of the six faces. A mesh whose node does not cast shadows never
// appears in the statistics.
#[test]
fn shadow_draws_terrain_on_all_faces_and_skips_non_casters() {
    let mut state = PipelineState::new();
    let mut renderer =
        PointShadowMapRenderer::new(&mut state, 512, ShadowMapPrecision::Full).unwrap();
    assert_eq!(renderer.base_size(), 512);

    let mut pool: Pool<Node> = Pool::new();
    let terrain = pool.spawn(shadow_node(NodeKind::Terrain, false, 1));
    let non_caster = pool.spawn(shadow_node(
        NodeKind::Mesh(MeshData { surfaces: Vec::new() }),
        false,
        1,
    ));
    let graph = Graph { pool, root: Handle::none() };

    let storage = BatchStorage { batches: vec![shadow_batch(terrain), shadow_batch(non_caster)] };
    let mut geom_cache = rg3d::cache::GeometryCache::new();
    let mut shader_cache = ShaderCache::new();
    let stats = renderer.render(
        &mut state,
        &graph,
        FxVec3 { x: fx(0), y: fx(0), z: fx(0) },
        fx(10),
        &mut geom_cache,
        0,
        &storage,
        &mut shader_cache,
    );
    // Only the terrain instance draws, once per face.
    assert_eq!(stats.draw_calls, 6);
}

#[test]
fn shadow_draws_visible_mesh_caster() {
    let mut state = PipelineState::new();
    let mut renderer =
        PointShadowMapRenderer::new(&mut state, 256, ShadowMapPrecision::Half).unwrap();
    let mut pool: Pool<Node> = Pool::new();
    let caster = pool.spawn(shadow_node(
        NodeKind::Mesh(MeshData { surfaces: Vec::new() }),
        true,
        1,
    ));
    let graph = Graph { pool, root: Handle::none() };
    let storage = BatchStorage { batches: vec![shadow_batch(caster)] };
    let mut geom_cache = rg3d::cache::GeometryCache::new();
    let mut shader_cache = ShaderCache::new();
    let stats = renderer.render(
        &mut state,
        &graph,
        FxVec3 { x: fx(0), y: fx(0), z: fx(0) },
        fx(100),
        &mut geom_cache,
        1,
        &storage,
        &mut shader_cache,
    );
    // The caster sits on the positive-x axis inside the light's range:
    // it passes exactly one face's frustum test.
    assert_eq!(stats.draw_calls, 1);
}

#[test]
fn shadow_skips_batches_without_point_shadow_pass() {
    let mut state = PipelineState::new();
    let mut renderer =
        PointShadowMapRenderer::new(&mut state, 128, ShadowMapPrecision::Full).unwrap();
    let mut pool: Pool<Node> = Pool::new();
    let terrain = pool.spawn(shadow_node(NodeKind::Terrain, true, 0));
    let graph = Graph { pool, root: Handle::none() };
    let mut batch = shadow_batch(terrain);
    batch.material.data = Some(ShaderSetSource {
        passes: vec![ShaderPassSource {
            kind: RenderPassKind::GBuffer,
            vertex_source: b"void main() {}\n".to_vec(),
            fragment_source: b"void main() {}\n".to_vec(),
        }],
    });
    let storage = BatchStorage { batches: vec![batch] };
    let mut geom_cache = rg3d::cache::GeometryCache::new();
    let mut shader_cache = ShaderCache::new();
    let stats = renderer.render(
        &mut state,
        &graph,
        FxVec3 { x: fx(0), y: fx(0), z: fx(0) },
        fx(10),
        &mut geom_cache,
        2,
        &storage,
        &mut shader_cache,
    );
    assert_eq!(stats.draw_calls, 0);
}

#[test]
fn cascade_sizes_halve_and_floor_at_one() {
    assert_eq!(cascade_size(1024, 0), 1024);
    assert_eq!(cascade_size(1024, 1), 512);
    assert_eq!(cascade_size(1024, 2), 256);
    assert_eq!(cascade_size(1, 1), 1);
    assert_eq!(cascade_size(2, 2), 1);
}

fn ui_renderer(state: &mut PipelineState) -> UiRenderer {
    UiRenderer::new(
        state,
        linked(&[
            "worldViewProjection",
            "diffuseTexture",
            "isFont",
            "solidColor",
            "brushType",
            "gradientPointCount",
            "gradientColors",
            "gradientStops",
            "gradientOrigin",
            "gradientEnd",
            "boundsMin",
            "boundsMax",
            "resolution",
            "opacity",
        ]),
    )
    .unwrap()
}

fn solid_command(start: usize, end: usize) -> DrawCommand {
    DrawCommand {
        triangles_start: start,
        triangles_end: end,
        brush: Brush::Solid(Color::white()),
        texture: CommandTexture::Untextured,
        clip_bounds: FxRect::new(fx(0), fx(0), fx(100), fx(100)),
        bounds: FxRect::new(fx(0), fx(0), fx(100), fx(100)),
        clipping_geometry: None,
        opacity: fx(1),
    }
}

fn ui_target(state: &mut PipelineState) -> FrameBuffer {
    let texture = GpuTexture::new(
        state,
        GpuTextureKind::Rectangle { width: 640, height: 480 },
        PixelKind::RGBA8,
        MinificationFilter::Nearest,
        MagnificationFilter::Nearest,
        1,
        None,
    )
    .unwrap();
    FrameBuffer::new(
        state,
        None,
        vec![Attachment { kind: AttachmentKind::Color, texture }],
    )
    .unwrap()
}

// A display list of only solid, non-clipped, on-screen rectangles
// produces one draw per command, each with the stencil test disabled.
#[test]
fn ui_solid_commands_draw_once_each_without_stencil() {
    let mut state = PipelineState::new();
    let mut ui = ui_renderer(&mut state);
    let backbuffer = ui_target(&mut state);
    let mut cache = TextureCache::new();
    let ctx = DrawingContext {
        vertices: Vec::new(),
        triangles: vec![[0, 1, 2], [0, 2, 3], [4, 5, 6], [4, 6, 7]],
        commands: vec![solid_command(0, 2), solid_command(2, 4)],
    };
    let before = draw_params_of(state.commands()).len();
    let stats = ui
        .render(
            &mut state,
            Rect::new(0, 0, 640, 480),
            &backbuffer,
            fx(640),
            fx(480),
            &ctx,
            1,
            &mut cache,
        )
        .unwrap();
    assert_eq!(stats.draw_calls, 2);
    let draws = draw_params_of(state.commands());
    assert_eq!(draws.len() - before, 2);
    for p in &draws[before..] {
        assert!(!p.stencil_test);
        assert!(p.blend);
    }
}

// A command with clip geometry produces exactly two draws: the clip
// pass (colour writes off, no stencil test) and the content pass with
// the stencil test enabled.
#[test]
fn ui_clip_geometry_draws_twice_with_stencil_on_content() {
    let mut state = PipelineState::new();
    let mut ui = ui_renderer(&mut state);
    let backbuffer = ui_target(&mut state);
    let mut cache = TextureCache::new();
    let mut cmd = solid_command(0, 1);
    cmd.clipping_geometry = Some(ClippingGeometry {
        vertex_buffer: vec![
            UiVertex {
                pos: FxVec2 { x: fx(0), y: fx(0) },
                tex_coord: FxVec2 { x: fx(0), y: fx(0) },
                color: Color::white(),
            };
            3
        ],
        triangle_buffer: vec![[0, 1, 2]],
    });
    let ctx = DrawingContext {
        vertices: Vec::new(),
        triangles: vec![[0, 1, 2]],
        commands: vec![cmd],
    };
    let stats = ui
        .render(
            &mut state,
            Rect::new(0, 0, 640, 480),
            &backbuffer,
            fx(640),
            fx(480),
            &ctx,
            1,
            &mut cache,
        )
        .unwrap();
    assert_eq!(stats.draw_calls, 2);
    let draws = draw_params_of(state.commands());
    assert_eq!(draws.len(), 2);
    assert!(!draws[0].stencil_test);
    assert!(!draws[0].color_write.red);
    assert!(draws[1].stencil_test);
    assert!(draws[1].color_write.red);
}

#[test]
fn ui_render_rejects_out_of_range_triangles() {
    let mut state = PipelineState::new();
    let mut ui = ui_renderer(&mut state);
    let backbuffer = ui_target(&mut state);
    let mut cache = TextureCache::new();
    let ctx = DrawingContext {
        vertices: Vec::new(),
        triangles: vec![[0, 1, 2]],
        commands: vec![solid_command(0, 2)],
    };
    let r = ui.render(
        &mut state,
        Rect::new(0, 0, 640, 480),
        &backbuffer,
        fx(640),
        fx(480),
        &ctx,
        1,
        &mut cache,
    );
    assert!(matches!(
        r,
        Err(rg3d::framework::error::FrameworkError::InvalidElementRange { .. })
    ));
}

// Sprites draw once per visible sprite node, through the shared quad.
#[test]
fn sprites_draw_once_per_visible_sprite() {
    let mut state = PipelineState::new();
    let mut renderer = SpriteRenderer::new(
        &mut state,
        linked(&[
            "viewProjectionMatrix",
            "worldMatrix",
            "cameraSideVector",
            "cameraUpVector",
            "size",
            "diffuseTexture",
            "color",
            "rotation",
        ]),
        42,
    )
    .unwrap();
    let target = ui_target(&mut state);
    let mut pool: Pool<Node> = Pool::new();
    let sprite_data = rg3d::scene::SpriteData {
        texture: None,
        size: fx(1),
        rotation: fx(0),
        color: Color::white(),
        depth_offset_factor: fx(0),
        global_transform: identity(),
    };
    let mut visible = Node::base(String::new(), FxVec3 { x: fx(0), y: fx(0), z: fx(0) });
    visible.kind = NodeKind::Sprite(sprite_data.clone());
    pool.spawn(visible);
    let mut hidden = Node::base(String::new(), FxVec3 { x: fx(0), y: fx(0), z: fx(0) });
    hidden.kind = NodeKind::Sprite(sprite_data);
    hidden.global_visibility = false;
    pool.spawn(hidden);
    pool.spawn(Node::base(String::new(), FxVec3 { x: fx(0), y: fx(0), z: fx(0) }));
    let graph = Graph { pool, root: Handle::none() };
    let camera = Camera {
        view_projection: identity(),
        projection: identity(),
        view: identity(),
        inv_view_up: FxVec3 { x: fx(0), y: fx(1), z: fx(0) },
        inv_view_side: FxVec3 { x: fx(1), y: fx(0), z: fx(0) },
    };
    let mut textures = TextureCache::new();
    let mut geom = rg3d::cache::GeometryCache::new();
    let stats = renderer.render(
        &mut state,
        &target,
        &graph,
        &camera,
        1,
        Rect::new(0, 0, 640, 480),
        &mut textures,
        &mut geom,
    );
    assert_eq!(stats.draw_calls, 1);
}

// With terrain, a culled-out non-caster and a missing shader variant in
// one storage, the pass draws exactly the terrain's six faces plus the
// in-range caster's single face.
#[test]
fn shadow_draw_total_sums_faces_and_batches() {
    let mut state = PipelineState::new();
    let mut renderer =
        PointShadowMapRenderer::new(&mut state, 512, ShadowMapPrecision::Full).unwrap();
    let mut pool: Pool<Node> = Pool::new();
    let terrain = pool.spawn(shadow_node(NodeKind::Terrain, false, 1));
    let caster = pool.spawn(shadow_node(
        NodeKind::Mesh(MeshData { surfaces: Vec::new() }),
        true,
        2,
    ));
    let non_caster = pool.spawn(shadow_node(
        NodeKind::Mesh(MeshData { surfaces: Vec::new() }),
        false,
        2,
    ));
    let graph = Graph { pool, root: Handle::none() };
    let mut no_variant = shadow_batch(non_caster);
    no_variant.material.handle = 20;
    no_variant.data.handle = 21;
    no_variant.material.data = Some(ShaderSetSource {
        passes: vec![ShaderPassSource {
            kind: RenderPassKind::GBuffer,
            vertex_source: b"void main() {}
".to_vec(),
            fragment_source: b"void main() {}
".to_vec(),
        }],
    });
    let mut caster_batch = shadow_batch(caster);
    caster_batch.material.handle = 30;
    caster_batch.data.handle = 31;
    let storage = BatchStorage {
        batches: vec![shadow_batch(terrain), caster_batch, no_variant],
    };
    let mut geom_cache = rg3d::cache::GeometryCache::new();
    let mut shader_cache = ShaderCache::new();
    let stats = renderer.render(
        &mut state,
        &graph,
        FxVec3 { x: fx(0), y: fx(0), z: fx(0) },
        fx(100),
        &mut geom_cache,
        0,
        &storage,
        &mut shader_cache,
    );
    // Terrain draws on all six faces; the caster passes exactly one
    // face's frustum; the variant-less batch contributes nothing.
    assert_eq!(stats.draw_calls, 7);
    // Every draw of the pass carries the fixed shadow state.
    for c in state.commands() {
        if let rg3d::framework::state::DeviceCommand::Draw { params, .. } = c {
            assert!(params.culling && params.depth_test && params.depth_write);
            assert!(!params.blend && !params.stencil_test);
        }
    }
}

#[test]
fn ui_clip_pass_records_stencil_configuration() {
    let mut state = PipelineState::new();
    let mut ui = ui_renderer(&mut state);
    let backbuffer = ui_target(&mut state);
    let mut cache = TextureCache::new();
    let mut cmd = solid_command(0, 1);
    cmd.clipping_geometry = Some(ClippingGeometry {
        vertex_buffer: Vec::new(),
        triangle_buffer: vec![[0, 1, 2]],
    });
    let ctx = DrawingContext {
        vertices: Vec::new(),
        triangles: vec![[0, 1, 2]],
        commands: vec![cmd],
    };
    ui.render(
        &mut state,
        Rect::new(0, 0, 640, 480),
        &backbuffer,
        fx(640),
        fx(480),
        &ctx,
        1,
        &mut cache,
    )
    .unwrap();
    let mut draws = Vec::new();
    for c in state.commands() {
        if let DeviceCommand::Draw { stencil_func, stencil_op, stencil_mask, .. } = c {
            draws.push((*stencil_func, *stencil_op, *stencil_mask));
        }
    }
    assert_eq!(draws.len(), 2);
    // The clip pass marks with increment-on-pass under an always-pass
    // function and an open write mask.
    assert_eq!(draws[0].0.func, CompareFunc::Always);
    assert_eq!(draws[0].1.zpass, StencilAction::Incr);
    assert_eq!(draws[0].2, 0xFF);
    // The content pass draws only where the mark equals one, with
    // stencil writes off.
    assert_eq!(draws[1].0.func, CompareFunc::Equal);
    assert_eq!(draws[1].0.ref_value, 1);
    assert_eq!(draws[1].2, 0);
    // The stencil buffer was cleared inside the command's scissor.
    assert!(state.commands().iter().any(|c| matches!(
        c,
        DeviceCommand::ClearTarget { stencil: Some(0), .. }
    )));
}

#[test]
fn stats_accumulate() {
    let mut stats = RenderPassStatistics::new();
    stats.add_draw_call(rg3d::framework::geometry_buffer::DrawCallStatistics { triangles: 3 });
    stats.add_draw_call(rg3d::framework::geometry_buffer::DrawCallStatistics { triangles: 4 });
    let mut total = RenderPassStatistics::new();
    total.add_pass(stats);
    total.add_pass(stats);
    assert_eq!(total.draw_calls, 4);
    assert_eq!(total.triangles_rendered, 14);
}

// Each sprite draw is immediately preceded by its eight uniforms: the
// resolved texture on sampler zero, view-projection, world matrix, the
// camera axes, then size, colour and rotation.
#[test]
fn sprite_draw_carries_its_uniform_block() {
    let mut state = PipelineState::new();
    let mut renderer = SpriteRenderer::new(
        &mut state,
        linked(&[
            "viewProjectionMatrix",
            "worldMatrix",
            "cameraSideVector",
            "cameraUpVector",
            "size",
            "diffuseTexture",
            "color",
            "rotation",
        ]),
        42,
    )
    .unwrap();
    let target = ui_target(&mut state);
    let mut pool: Pool<Node> = Pool::new();
    let sprite_data = rg3d::scene::SpriteData {
        texture: None,
        size: fx(2),
        rotation: fx(3),
        color: Color { r: 10, g: 20, b: 30, a: 40 },
        depth_offset_factor: fx(0),
        global_transform: identity(),
    };
    let mut visible = Node::base(String::new(), FxVec3 { x: fx(0), y: fx(0), z: fx(0) });
    visible.kind = NodeKind::Sprite(sprite_data);
    pool.spawn(visible);
    let graph = Graph { pool, root: Handle::none() };
    let up = FxVec3 { x: fx(0), y: fx(1), z: fx(0) };
    let side = FxVec3 { x: fx(1), y: fx(0), z: fx(0) };
    let camera = Camera {
        view_projection: identity(),
        projection: identity(),
        view: identity(),
        inv_view_up: up,
        inv_view_side: side,
    };
    let mut textures = TextureCache::new();
    let mut geom = rg3d::cache::GeometryCache::new();
    let white_dummy = 7;
    let stats = renderer.render(
        &mut state,
        &target,
        &graph,
        &camera,
        white_dummy,
        Rect::new(0, 0, 640, 480),
        &mut textures,
        &mut geom,
    );
    assert_eq!(stats.draw_calls, 1);
    let cmds = state.commands();
    let p = cmds
        .iter()
        .position(|c| matches!(c, DeviceCommand::Draw { .. }))
        .unwrap();
    assert!(p >= 8);
    let mut values = Vec::new();
    for c in &cmds[p - 8..p] {
        match c {
            DeviceCommand::SetUniform { value, .. } => values.push(value.clone()),
            other => panic!("expected a uniform before the draw, got {:?}", other),
        }
    }
    assert_eq!(
        values[0],
        UniformValue::Sampler { unit: 0, texture: white_dummy }
    );
    assert_eq!(values[1], UniformValue::Matrix4(identity()));
    assert_eq!(values[2], UniformValue::Matrix4(identity()));
    assert_eq!(values[3], UniformValue::Vec3(up));
    assert_eq!(values[4], UniformValue::Vec3(side));
    assert_eq!(values[5], UniformValue::Scalar(fx(2)));
    assert_eq!(
        values[6],
        UniformValue::LinearColor(Color { r: 10, g: 20, b: 30, a: 40 })
    );
    assert_eq!(values[7], UniformValue::Scalar(fx(3)));
}

// Each shadow draw is immediately preceded by its five uniforms: the
// instance's world matrix, the face's wvp, its bone palette, the
// skinning flag, and the light's position.
#[test]
fn shadow_draw_carries_world_bones_and_light_position() {
    let mut state = PipelineState::new();
    let mut renderer =
        PointShadowMapRenderer::new(&mut state, 512, ShadowMapPrecision::Full).unwrap();
    let mut pool: Pool<Node> = Pool::new();
    let terrain = pool.spawn(shadow_node(NodeKind::Terrain, false, 1));
    let graph = Graph { pool, root: Handle::none() };
    let storage = BatchStorage { batches: vec![shadow_batch(terrain)] };
    let mut geom_cache = rg3d::cache::GeometryCache::new();
    let mut shader_cache = ShaderCache::new();
    let light_pos = FxVec3 { x: fx(1), y: fx(2), z: fx(3) };
    let stats = renderer.render(
        &mut state,
        &graph,
        light_pos,
        fx(10),
        &mut geom_cache,
        0,
        &storage,
        &mut shader_cache,
    );
    assert_eq!(stats.draw_calls, 6);
    let cmds = state.commands();
    for p in 0..cmds.len() {
        if !matches!(cmds[p], DeviceCommand::Draw { .. }) {
            continue;
        }
        assert!(p >= 5);
        let slot_values: Vec<(usize, UniformValue)> = cmds[p - 5..p]
            .iter()
            .map(|c| match c {
                DeviceCommand::SetUniform { slot, value, .. } => (*slot, value.clone()),
                other => panic!("expected a uniform before the draw, got {:?}", other),
            })
            .collect();
        assert_eq!(slot_values[0], (0, UniformValue::Matrix4(identity())));
        assert_eq!(slot_values[1].0, 1);
        assert!(matches!(slot_values[1].1, UniformValue::Matrix4(_)));
        assert_eq!(slot_values[2], (2, UniformValue::Matrix4Array(Vec::new())));
        assert_eq!(slot_values[3], (3, UniformValue::Bool(false)));
        assert_eq!(slot_values[4], (4, UniformValue::Vec3(light_pos)));
    }
}

// A failed stage's driver verdict decides the constructor's error: with
// every earlier stage linked, the downscale stage's fragment failure
// comes back with the stage's decorated name and the driver's message.
#[test]
fn hdr_new_propagates_the_first_failing_stage_error() {
    let mut state = PipelineState::new();
    let r = HighDynamicRangeRenderer::new(
        &mut state,
        linked(&["worldViewProjection", "invSize", "frameSampler"]),
        CompileOutcome::FragmentError(b"bad fragment".to_vec()),
        linked(&["worldViewProjection", "oldLumSampler", "newLumSampler", "speed"]),
        CompileOutcome::LinkError(b"unreached".to_vec()),
    );
    match r {
        Err(rg3d::framework::error::FrameworkError::ShaderCompilationFailed {
            shader_name,
            error_message,
        }) => {
            assert_eq!(shader_name, b"DownscaleShader_FragmentShader".to_vec());
            assert_eq!(error_message, b"bad fragment".to_vec());
        },
        _ => panic!("expected the downscale compilation failure"),
    }

    // A linked verdict that lacks a uniform names that uniform.
    let r2 = HighDynamicRangeRenderer::new(
        &mut state,
        linked(&["worldViewProjection", "invSize"]),
        linked(&["worldViewProjection", "lumSampler", "invSize"]),
        linked(&["worldViewProjection", "oldLumSampler", "newLumSampler", "speed"]),
        linked(&["worldViewProjection"]),
    );
    match r2 {
        Err(rg3d::framework::error::FrameworkError::UnableToFindShaderUniform(n)) => {
            assert_eq!(n, b"frameSampler".to_vec());
        },
        _ => panic!("expected the missing luminance uniform"),
    }
}
