use rg3d::cache::{
    RenderPassKind, ShaderCache, ShaderPassSource, ShaderResource, ShaderSetSource,
    TextureCache, TexturePixelData, TextureResource,
};
use rg3d::fixed::{Fx, FX_ONE};
use rg3d::formatted_text::{
    Font, FontGlyph, FormattedTextBuilder, HorizontalAlignment, WrapMode,
};
use rg3d::framework::error::FrameworkError;
use rg3d::framework::gpu_program::{prepare_source_code, CompileOutcome, GpuProgram};
use rg3d::framework::gpu_texture::{GpuTextureKind, PixelKind};
use rg3d::framework::state::PipelineState;
use rg3d::math::FxVec2;
use rg3d::model::{Model, Resource, ResourceKind, Scene};
use rg3d::physics::desc::{ColliderShapeDesc, JointParamsDesc, RigidBodyTypeDesc};
use rg3d::scene::{Handle, Node, NodeKind};

fn fx(v: i64) -> Fx {
    Fx { raw: v * FX_ONE }
}

fn texture_resource(handle: u64, version: u64) -> TextureResource {
    TextureResource {
        handle,
        version,
        data: Some(TexturePixelData {
            kind: GpuTextureKind::Rectangle { width: 2, height: 2 },
            pixel_kind: PixelKind::RGBA8,
            bytes: vec![0; 16],
        }),
    }
}

// Two lookups of an unchanged handle within a frame return the same
// object identity and trigger at most one build.
#[test]
fn texture_cache_get_is_idempotent() {
    let mut state = PipelineState::new();
    let mut cache = TextureCache::new();
    let res = texture_resource(7, 1);
    let first = cache.get(&mut state, &res).unwrap();
    assert_eq!(cache.build_count(), 1);
    let second = cache.get(&mut state, &res).unwrap();
    assert_eq!(first, second);
    assert_eq!(cache.build_count(), 1);
}

#[test]
fn texture_cache_rebuilds_stale_entry_in_place() {
    let mut state = PipelineState::new();
    let mut cache = TextureCache::new();
    let old_id = cache.get(&mut state, &texture_resource(7, 1)).unwrap();
    let new_id = cache.get(&mut state, &texture_resource(7, 2)).unwrap();
    assert_ne!(old_id, new_id);
    assert_eq!(cache.build_count(), 2);
    // The rebuilt entry is a hit now.
    assert_eq!(cache.get(&mut state, &texture_resource(7, 2)).unwrap(), new_id);
    assert_eq!(cache.build_count(), 2);
}

#[test]
fn texture_cache_unresolved_handle_yields_nothing() {
    let mut state = PipelineState::new();
    let mut cache = TextureCache::new();
    let unloaded = TextureResource { handle: 9, version: 3, data: None };
    assert!(cache.get(&mut state, &unloaded).is_none());
    assert_eq!(cache.build_count(), 0);
}

#[test]
fn shader_cache_resolves_point_shadow_pass() {
    let mut state = PipelineState::new();
    let mut cache = ShaderCache::new();
    let res = ShaderResource {
        handle: 3,
        version: 0,
        data: Some(ShaderSetSource {
            passes: vec![
                ShaderPassSource {
                    kind: RenderPassKind::GBuffer,
                    vertex_source: b"void main() {}\n".to_vec(),
                    fragment_source: b"void main() {}\n".to_vec(),
                },
                ShaderPassSource {
                    kind: RenderPassKind::PointShadow,
                    vertex_source: b"void main() {}\n".to_vec(),
                    fragment_source: b"void main() {}\n".to_vec(),
                },
            ],
        }),
    };
    assert!(cache.get(&mut state, &res));
    let gbuffer = cache.pass_program(3, RenderPassKind::GBuffer);
    let shadow = cache.pass_program(3, RenderPassKind::PointShadow);
    assert!(gbuffer.is_some());
    assert!(shadow.is_some());
    assert_ne!(gbuffer, shadow);
    assert!(cache.pass_program(3, RenderPassKind::Forward).is_none());
    assert!(cache.pass_program(4, RenderPassKind::PointShadow).is_none());
}

// The shared chunk is spliced in right after the first directive line.
#[test]
fn prepare_source_splices_after_directive_line() {
    let code = b"#version 330 core\nvoid main() {}\n";
    let shared = b"SHARED\n";
    let merged = prepare_source_code(code, shared);
    assert_eq!(merged, b"#version 330 core\nSHARED\nvoid main() {}\n".to_vec());
}

#[test]
fn prepare_source_prepends_without_directive() {
    let merged = prepare_source_code(b"void main() {}\n", b"S\n");
    assert_eq!(merged, b"S\nvoid main() {}\n".to_vec());
}

#[test]
fn shader_compile_failure_names_the_stage() {
    let mut state = PipelineState::new();
    let r = GpuProgram::from_source(
        &mut state,
        "Fancy",
        b"void main() {}\n",
        b"void main() {}\n",
        CompileOutcome::VertexError(b"syntax error".to_vec()),
    );
    match r {
        Err(FrameworkError::ShaderCompilationFailed { shader_name, error_message }) => {
            assert_eq!(shader_name, b"Fancy_VertexShader".to_vec());
            assert_eq!(error_message, b"syntax error".to_vec());
        },
        _ => panic!("expected a compilation failure"),
    }
}

#[test]
fn uniform_lookup_fails_on_unknown_name() {
    let mut state = PipelineState::new();
    let program = GpuProgram::from_source(
        &mut state,
        "P",
        b"void main() {}\n",
        b"void main() {}\n",
        CompileOutcome::Linked { uniforms: vec![String::from("color")] },
    )
    .unwrap();
    assert!(program.uniform_location("color").is_ok());
    match program.uniform_location("missing") {
        Err(FrameworkError::UnableToFindShaderUniform(name)) => {
            assert_eq!(name, b"missing".to_vec());
        },
        _ => panic!("expected a missing uniform"),
    }
}

#[test]
fn rigid_body_type_tags_round_trip() {
    for id in 0..4u32 {
        let t = RigidBodyTypeDesc::from_id(id).unwrap();
        assert_eq!(t.id(), id);
    }
    assert!(RigidBodyTypeDesc::from_id(4).is_err());
}

#[test]
fn collider_shape_tags_round_trip() {
    for id in 0..10u32 {
        let s = ColliderShapeDesc::from_id(id).unwrap();
        assert_eq!(s.id(), id);
    }
    let err = ColliderShapeDesc::from_id(10).unwrap_err();
    assert_eq!(err.id, 10);
}

#[test]
fn joint_params_tags_round_trip() {
    for id in 0..4u32 {
        let j = JointParamsDesc::from_id(id).unwrap();
        assert_eq!(j.id(), id);
    }
    assert!(JointParamsDesc::from_id(4).is_err());
}

fn model_with_named_child(name: &str) -> Model {
    let mut scene = Scene::new();
    let root = scene.get_root();
    let child = scene.graph.pool.spawn(Node::base(
        String::from(name),
        rg3d::math::FxVec3 { x: fx(0), y: fx(0), z: fx(0) },
    ));
    let mut root_node = scene.graph.pool.take_at(root.index).unwrap();
    root_node.children.push(child);
    scene.graph.pool.put_at(root.index, root_node);
    Model { scene }
}

#[test]
fn find_node_by_name_names_a_live_node() {
    let model = model_with_named_child("gun");
    let found = model.find_node_by_name("gun");
    assert!(found.is_some());
    let node = model.scene.graph.pool.borrow(found).unwrap();
    assert_eq!(node.name, "gun");
    assert!(model.find_node_by_name("camera").is_none());
}

#[test]
fn instantiate_copies_the_prototype_tree() {
    let model = model_with_named_child("wheel");
    let resource = Resource { id: 77, kind: ResourceKind::Model(model) };
    let mut dest = Scene::new();
    let before = dest.graph.pool.get_capacity();
    let root = Model::instantiate(&resource, &mut dest).unwrap();
    assert!(root.is_some());
    // Root plus child were instantiated.
    assert_eq!(dest.graph.pool.get_capacity(), before + 2);
    // The copies remember the resource they came from.
    let copied_root = dest.graph.pool.borrow(root).unwrap();
    assert_eq!(copied_root.resource, Some(77));
    assert_eq!(copied_root.children.len(), 1);
    let child = dest.graph.pool.borrow(copied_root.children[0]).unwrap();
    assert_eq!(child.name, "wheel");
    assert_eq!(child.resource, Some(77));
}

#[test]
fn instantiate_rejects_non_model_resources() {
    let resource = Resource {
        id: 1,
        kind: ResourceKind::Texture(texture_resource(1, 1)),
    };
    let mut dest = Scene::new();
    assert!(Model::instantiate(&resource, &mut dest).is_err());
}

fn letter_font() -> Font {
    Font {
        glyphs: vec![
            FontGlyph {
                code: 97,
                advance: fx(1),
                left: fx(0),
                top: fx(1),
                bitmap_width: 1,
                bitmap_height: 1,
                tex_coords: [FxVec2 { x: fx(0), y: fx(0) }; 4],
            },
            FontGlyph {
                code: 32,
                advance: fx(1),
                left: fx(0),
                top: fx(0),
                bitmap_width: 0,
                bitmap_height: 0,
                tex_coords: [FxVec2 { x: fx(0), y: fx(0) }; 4],
            },
        ],
        height: fx(2),
        ascender: fx(1),
        descender: Fx { raw: -FX_ONE },
    }
}

#[test]
fn text_layout_single_line_measures_advances() {
    let mut text = FormattedTextBuilder::new()
        .with_font(letter_font())
        .with_text(vec![97, 97, 97])
        .with_constraint(FxVec2 { x: fx(100), y: fx(100) })
        .build();
    let size = text.build();
    assert_eq!(text.get_lines().len(), 1);
    let line = text.get_lines()[0];
    assert_eq!(line.begin, 0);
    assert_eq!(line.end, 3);
    assert_eq!(line.width.raw, 3 * FX_ONE);
    assert_eq!(line.x_offset.raw, 0);
    assert_eq!(text.get_glyphs().len(), 3);
    assert_eq!(size.x.raw, 3 * FX_ONE);
    // Total height: one ascender minus the negative descender.
    assert_eq!(size.y.raw, 2 * FX_ONE);
}

#[test]
fn text_layout_letter_wrap_breaks_at_constraint() {
    let mut text = FormattedTextBuilder::new()
        .with_font(letter_font())
        .with_text(vec![97, 97, 97, 97])
        .with_wrap(WrapMode::Letter)
        .with_constraint(FxVec2 { x: fx(2), y: fx(100) })
        .build();
    text.build();
    assert!(text.get_lines().len() >= 2);
    for line in text.get_lines() {
        assert!(line.begin <= line.end);
        assert!(line.width.raw <= 2 * FX_ONE);
    }
}

#[test]
fn text_layout_without_font_is_empty() {
    let mut text = FormattedTextBuilder::new().with_text(vec![97]).build();
    let size = text.build();
    assert_eq!(size.x.raw, 0);
    assert_eq!(size.y.raw, 0);
    assert_eq!(text.get_lines().len(), 0);
}

#[test]
fn text_masking_replaces_symbols() {
    let mut text = FormattedTextBuilder::new()
        .with_font(letter_font())
        .with_text(vec![97, 97])
        .with_mask_char(Some(42))
        .build();
    text.build();
    // The mask symbol is not in the font: placeholder squares of the
    // font height are laid out instead.
    assert_eq!(text.get_glyphs().len(), 2);
    assert_eq!(text.get_glyphs()[0].bounds.size.x.raw, 2 * FX_ONE);
}

#[test]
fn text_alignment_left_keeps_lines_at_origin() {
    let mut text = FormattedTextBuilder::new()
        .with_font(letter_font())
        .with_horizontal_alignment(HorizontalAlignment::Left)
        .with_text(vec![97])
        .build();
    text.build();
    assert_eq!(text.get_lines()[0].x_offset.raw, 0);
}

#[test]
fn text_editing_inserts_and_measures() {
    let mut text = FormattedTextBuilder::new()
        .with_font(letter_font())
        .with_text(vec![97, 97])
        .build();
    text.insert_char(97, 0);
    text.insert_str(&vec![97, 97], 1);
    assert_eq!(text.get_raw_text().len(), 5);
    assert_eq!(text.get_range_width(0, 5).raw, 5 * FX_ONE);
    text.remove_at(0);
    text.remove_range(0, 2);
    assert_eq!(text.get_raw_text().len(), 2);
    assert_eq!(text.get_range_width(0, 2).raw, 2 * FX_ONE);
}

#[test]
fn fixed_point_arithmetic_is_exact_on_small_values() {
    assert_eq!(fx(3).add(fx(4)).raw, 7 * FX_ONE);
    assert_eq!(fx(3).mul(fx(4)).raw, 12 * FX_ONE);
    assert_eq!(fx(12).div(fx(4)).raw, 3 * FX_ONE);
    assert_eq!(fx(-3).mul(fx(4)).raw, -12 * FX_ONE);
    assert_eq!(Fx::from_ratio(1, 2).raw, FX_ONE / 2);
    assert_eq!(Fx { raw: 3 * FX_ONE / 2 }.floor_i32(), 1);
    assert_eq!(Fx { raw: 3 * FX_ONE / 2 }.ceil_i32(), 2);
    assert_eq!(Fx { raw: -3 * FX_ONE / 2 }.floor_i32(), -2);
    assert_eq!(Fx { raw: -3 * FX_ONE / 2 }.ceil_i32(), -1);
}

#[test]
fn handles_know_when_they_point_at_nothing() {
    assert!(Handle::none().is_none());
    assert!(Handle::new(3).is_some());
    let mut text_line = rg3d::formatted_text::TextLine::new();
    text_line.end = 4;
    assert_eq!(text_line.len(), 4);
    assert!(!text_line.is_empty());
}

// Instantiating retargets every prototype animation: one animation is
// added per prototype animation, each with the prototype's track count,
// and a track aimed at a prototype node now aims at that node's copy.
#[test]
fn instantiate_retargets_prototype_animations() {
    let mut model = model_with_named_child("bone");
    let target = model.find_node_by_name("bone");
    model.scene.add_animation(rg3d::model::Animation {
        tracks: vec![rg3d::model::Track { node: target }],
    });
    model.scene.add_animation(rg3d::model::Animation { tracks: vec![] });
    let resource = Resource { id: 9, kind: ResourceKind::Model(model) };
    let mut dest = Scene::new();
    let before = dest.animations.len();
    let root = Model::instantiate(&resource, &mut dest).unwrap();
    assert_eq!(dest.animations.len(), before + 2);
    let added = &dest.animations[before];
    assert_eq!(added.tracks.len(), 1);
    // The track no longer points at the prototype's node: it points at a
    // copy that lives in the destination and is marked with the resource.
    assert_ne!(added.tracks[0].node.index, target.index);
    let retargeted = dest.graph.pool.borrow(added.tracks[0].node).unwrap();
    assert_eq!(retargeted.name, "bone");
    assert_eq!(retargeted.resource, Some(9));
    assert_eq!(dest.animations[before + 1].tracks.len(), 0);
    assert!(root.is_some());
}
