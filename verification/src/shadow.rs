//! Point-light shadow rendering: six cube-map faces per light, at one of
//! three quality cascades. Every face draws the batches' instances that
//! are visible, cast shadows, and pass the face's frustum test; terrain
//! is always treated as a shadow caster (its extent is not well captured
//! by point tests).

use vstd::prelude::*;
use crate::batch::{Batch, BatchStorage, SurfaceInstance};
use crate::cache::{
    lemma_store_evict_lookup, lemma_store_find_char, lemma_store_put_lookup, pass_find,
    store_find, store_hit, store_lookup, CacheEntry, ShaderSet,
};
use crate::cache::{GeometryCache, RenderPassKind, ShaderCache, store_wf};
use crate::fixed::{fx_sat, Fx, FX_ONE};
use crate::framework::error::FrameworkError;
use crate::framework::framebuffer::{Attachment, AttachmentKind, FrameBuffer};
use crate::framework::geometry_buffer::GeometryBuffer;
use crate::framework::gpu_program::UniformLocation;
use crate::framework::gpu_texture::{
    Coordinate, CubeMapFace, GpuTexture, GpuTextureKind, MagnificationFilter, MinificationFilter,
    PixelKind, WrapMode,
};
use crate::framework::state::{
    draw_seq, ColorMask, CullFace, DeviceCommand, DrawParameters, PipelineState, UniformValue,
};
use crate::math::{dot3_raw, Color, Frustum, FxVec3, Mat4, Rect};
use crate::scene::{Graph, NodeKind};
use crate::stats::RenderPassStatistics;

verus! {

broadcast use vstd::array::axiom_array_ext_equal;

/// Shadow map depth precision.
#[derive(Clone, Copy, Debug, PartialEq, Eq, Structural)]
pub enum ShadowMapPrecision {
    Full,
    Half,
}

/// The resolution of each quality cascade: the base size, its half, or
/// its quarter, never below one texel.
pub open spec fn cascade_size_spec(base_size: int, cascade: int) -> int {
    if cascade == 0 {
        base_size
    } else if cascade == 1 {
        if base_size / 2 > 1 {
            base_size / 2
        } else {
            1
        }
    } else {
        if base_size / 4 > 1 {
            base_size / 4
        } else {
            1
        }
    }
}

/// Executable twin of [`cascade_size_spec`].
pub fn cascade_size(base_size: usize, cascade: usize) -> (r: usize)
    requires
        cascade < 3,
    ensures
        r as int == cascade_size_spec(base_size as int, cascade as int),
    no_unwind
{
    if cascade == 0 {
        base_size
    } else if cascade == 1 {
        let h = base_size / 2;
        if h > 1 {
            h
        } else {
            1
        }
    } else {
        let q = base_size / 4;
        if q > 1 {
            q
        } else {
            1
        }
    }
}

/// The outward look direction of a cube-map face, as a unit vector.
pub open spec fn face_look(face: CubeMapFace) -> FxVec3 {
    match face {
        CubeMapFace::PositiveX => FxVec3 { x: Fx { raw: FX_ONE }, y: Fx { raw: 0 }, z: Fx { raw: 0 } },
        CubeMapFace::NegativeX => FxVec3 { x: Fx { raw: -65536i64 }, y: Fx { raw: 0 }, z: Fx { raw: 0 } },
        CubeMapFace::PositiveY => FxVec3 { x: Fx { raw: 0 }, y: Fx { raw: FX_ONE }, z: Fx { raw: 0 } },
        CubeMapFace::NegativeY => FxVec3 { x: Fx { raw: 0 }, y: Fx { raw: -65536i64 }, z: Fx { raw: 0 } },
        CubeMapFace::PositiveZ => FxVec3 { x: Fx { raw: 0 }, y: Fx { raw: 0 }, z: Fx { raw: FX_ONE } },
        CubeMapFace::NegativeZ => FxVec3 { x: Fx { raw: 0 }, y: Fx { raw: 0 }, z: Fx { raw: -65536i64 } },
    }
}

/// The up vector chosen for a cube-map face; each avoids the
/// gimbal-degenerate pairing with its look direction.
pub open spec fn face_up(face: CubeMapFace) -> FxVec3 {
    match face {
        CubeMapFace::PositiveY => FxVec3 { x: Fx { raw: 0 }, y: Fx { raw: 0 }, z: Fx { raw: FX_ONE } },
        CubeMapFace::NegativeY => FxVec3 { x: Fx { raw: 0 }, y: Fx { raw: 0 }, z: Fx { raw: -65536i64 } },
        _ => FxVec3 { x: Fx { raw: 0 }, y: Fx { raw: -65536i64 }, z: Fx { raw: 0 } },
    }
}

/// Executable twin of [`face_look`].
pub fn face_look_vector(face: CubeMapFace) -> (r: FxVec3)
    ensures
        r == face_look(face),
{
    match face {
        CubeMapFace::PositiveX => FxVec3 { x: Fx { raw: 65536 }, y: Fx { raw: 0 }, z: Fx { raw: 0 } },
        CubeMapFace::NegativeX => FxVec3 { x: Fx { raw: -65536 }, y: Fx { raw: 0 }, z: Fx { raw: 0 } },
        CubeMapFace::PositiveY => FxVec3 { x: Fx { raw: 0 }, y: Fx { raw: 65536 }, z: Fx { raw: 0 } },
        CubeMapFace::NegativeY => FxVec3 { x: Fx { raw: 0 }, y: Fx { raw: -65536 }, z: Fx { raw: 0 } },
        CubeMapFace::PositiveZ => FxVec3 { x: Fx { raw: 0 }, y: Fx { raw: 0 }, z: Fx { raw: 65536 } },
        CubeMapFace::NegativeZ => FxVec3 { x: Fx { raw: 0 }, y: Fx { raw: 0 }, z: Fx { raw: -65536 } },
    }
}

/// Executable twin of [`face_up`].
pub fn face_up_vector(face: CubeMapFace) -> (r: FxVec3)
    ensures
        r == face_up(face),
{
    match face {
        CubeMapFace::PositiveY => FxVec3 { x: Fx { raw: 0 }, y: Fx { raw: 0 }, z: Fx { raw: 65536 } },
        CubeMapFace::NegativeY => FxVec3 { x: Fx { raw: 0 }, y: Fx { raw: 0 }, z: Fx { raw: -65536 } },
        _ => FxVec3 { x: Fx { raw: 0 }, y: Fx { raw: -65536 }, z: Fx { raw: 0 } },
    }
}

/// The side vector of a face's basis: `look` cross `up`.
pub open spec fn face_side(face: CubeMapFace) -> FxVec3 {
    FxVec3 {
        x: Fx {
            raw: fx_sat(
                crate::fixed::fx_mul_raw(face_look(face).y.raw as int, face_up(face).z.raw as int)
                    - crate::fixed::fx_mul_raw(
                    face_look(face).z.raw as int,
                    face_up(face).y.raw as int,
                ),
            ) as i64,
        },
        y: Fx {
            raw: fx_sat(
                crate::fixed::fx_mul_raw(face_look(face).z.raw as int, face_up(face).x.raw as int)
                    - crate::fixed::fx_mul_raw(
                    face_look(face).x.raw as int,
                    face_up(face).z.raw as int,
                ),
            ) as i64,
        },
        z: Fx {
            raw: fx_sat(
                crate::fixed::fx_mul_raw(face_look(face).x.raw as int, face_up(face).y.raw as int)
                    - crate::fixed::fx_mul_raw(
                    face_look(face).y.raw as int,
                    face_up(face).x.raw as int,
                ),
            ) as i64,
        },
    }
}

/// Law: the basis vectors of every cube-map face are pairwise orthogonal
/// unit vectors, under the exact fixed-point arithmetic the renderer
/// computes with.
pub proof fn lemma_face_basis_orthonormal(face: CubeMapFace)
    ensures
        dot3_raw(face_look(face), face_up(face)) == 0,
        dot3_raw(face_look(face), face_side(face)) == 0,
        dot3_raw(face_up(face), face_side(face)) == 0,
        dot3_raw(face_look(face), face_look(face)) == FX_ONE,
        dot3_raw(face_up(face), face_up(face)) == FX_ONE,
        dot3_raw(face_side(face), face_side(face)) == FX_ONE,
{
    assert(crate::fixed::fx_mul_raw(65536, 65536) == 65536) by (nonlinear_arith);
    assert(crate::fixed::fx_mul_raw(65536, -65536) == -65536) by (nonlinear_arith);
    assert(crate::fixed::fx_mul_raw(-65536, 65536) == -65536) by (nonlinear_arith);
    assert(crate::fixed::fx_mul_raw(-65536, -65536) == 65536) by (nonlinear_arith);
}

/// The view matrix of one face: the face basis as rows, with the eye
/// projected onto it as translation.
pub open spec fn face_view_spec(eye: FxVec3, face: CubeMapFace) -> Mat4 {
    Mat4 {
        m: [
            face_side(face).x,
            face_up(face).x,
            Fx { raw: fx_sat(-face_look(face).x.raw) as i64 },
            Fx { raw: 0 },
            face_side(face).y,
            face_up(face).y,
            Fx { raw: fx_sat(-face_look(face).y.raw) as i64 },
            Fx { raw: 0 },
            face_side(face).z,
            face_up(face).z,
            Fx { raw: fx_sat(-face_look(face).z.raw) as i64 },
            Fx { raw: 0 },
            Fx { raw: fx_sat(-dot3_raw(face_side(face), eye)) as i64 },
            Fx { raw: fx_sat(-dot3_raw(face_up(face), eye)) as i64 },
            Fx { raw: dot3_raw(face_look(face), eye) as i64 },
            Fx { raw: FX_ONE },
        ],
    }
}

/// Executable twin of [`face_view_spec`] (a right-handed look-at whose
/// axes are exact unit vectors).
pub fn face_view_matrix(eye: FxVec3, face: CubeMapFace) -> (r: Mat4)
    ensures
        r == face_view_spec(eye, face),
{
    let f = face_look_vector(face);
    let up = face_up_vector(face);
    let s = f.cross(up);
    let tx = s.dot(eye).neg();
    let ty = up.dot(eye).neg();
    let tz = f.dot(eye);
    let z = Fx::zero();
    let r = Mat4 {
        m: [
            s.x,
            up.x,
            f.x.neg(),
            z,
            s.y,
            up.y,
            f.y.neg(),
            z,
            s.z,
            up.z,
            f.z.neg(),
            z,
            tx,
            ty,
            tz,
            Fx::one(),
        ],
    };
    proof {
        assert(r.m =~= face_view_spec(eye, face).m);
    }
    r
}

/// The 90-degree perspective projection of a face, from a fixed small
/// near plane out to the light's radius.
pub open spec fn face_projection_spec(light_radius: Fx) -> Mat4 {
    let zn = 655int;
    let zf = light_radius.raw as int;
    Mat4 {
        m: [
            Fx { raw: FX_ONE },
            Fx { raw: 0 },
            Fx { raw: 0 },
            Fx { raw: 0 },
            Fx { raw: 0 },
            Fx { raw: FX_ONE },
            Fx { raw: 0 },
            Fx { raw: 0 },
            Fx { raw: 0 },
            Fx { raw: 0 },
            Fx {
                raw: fx_sat(
                    -crate::fixed::fx_div_raw(fx_sat(zf + zn), fx_sat(zf - zn)),
                ) as i64,
            },
            Fx { raw: -65536i64 },
            Fx { raw: 0 },
            Fx { raw: 0 },
            Fx {
                raw: fx_sat(
                    -crate::fixed::fx_div_raw(
                        crate::fixed::fx_mul_raw(crate::fixed::fx_mul_raw(131072, zf), zn),
                        fx_sat(zf - zn),
                    ),
                ) as i64,
            },
            Fx { raw: 0 },
        ],
    }
}

/// Executable twin of [`face_projection_spec`].
pub fn face_projection_matrix(light_radius: Fx) -> (r: Mat4)
    ensures
        r == face_projection_spec(light_radius),
{
    let zn = Fx::from_raw(655);
    let sum = light_radius.add(zn);
    let dif = light_radius.sub(zn);
    let m10 = sum.div(dif).neg();
    let num = Fx::from_raw(131072).mul(light_radius).mul(zn);
    let m14 = num.div(dif).neg();
    let z = Fx::zero();
    let one = Fx::one();
    let r = Mat4 {
        m: [one, z, z, z, z, one, z, z, z, z, m10, Fx::from_raw(-65536), z, z, m14, z],
    };
    proof {
        assert(r.m =~= face_projection_spec(light_radius).m);
    }
    r
}

/// The view-projection matrix of one face.
pub open spec fn face_view_projection_spec(eye: FxVec3, radius: Fx, face: CubeMapFace) -> Mat4 {
    let p = face_projection_spec(radius);
    let v = face_view_spec(eye, face);
    Mat4 {
        m: [
            Fx { raw: crate::math::mat_mul_entry_raw(p, v, 0, 0) as i64 },
            Fx { raw: crate::math::mat_mul_entry_raw(p, v, 1, 0) as i64 },
            Fx { raw: crate::math::mat_mul_entry_raw(p, v, 2, 0) as i64 },
            Fx { raw: crate::math::mat_mul_entry_raw(p, v, 3, 0) as i64 },
            Fx { raw: crate::math::mat_mul_entry_raw(p, v, 0, 1) as i64 },
            Fx { raw: crate::math::mat_mul_entry_raw(p, v, 1, 1) as i64 },
            Fx { raw: crate::math::mat_mul_entry_raw(p, v, 2, 1) as i64 },
            Fx { raw: crate::math::mat_mul_entry_raw(p, v, 3, 1) as i64 },
            Fx { raw: crate::math::mat_mul_entry_raw(p, v, 0, 2) as i64 },
            Fx { raw: crate::math::mat_mul_entry_raw(p, v, 1, 2) as i64 },
            Fx { raw: crate::math::mat_mul_entry_raw(p, v, 2, 2) as i64 },
            Fx { raw: crate::math::mat_mul_entry_raw(p, v, 3, 2) as i64 },
            Fx { raw: crate::math::mat_mul_entry_raw(p, v, 0, 3) as i64 },
            Fx { raw: crate::math::mat_mul_entry_raw(p, v, 1, 3) as i64 },
            Fx { raw: crate::math::mat_mul_entry_raw(p, v, 2, 3) as i64 },
            Fx { raw: crate::math::mat_mul_entry_raw(p, v, 3, 3) as i64 },
        ],
    }
}

/// The frustum one face culls against: the six clip planes of its
/// view-projection matrix.
pub open spec fn face_frustum_spec(eye: FxVec3, radius: Fx, face: CubeMapFace) -> Frustum {
    let m = face_view_projection_spec(eye, radius, face);
    Frustum {
        planes: [
            crate::math::plane_from_rows(m, 0, true),
            crate::math::plane_from_rows(m, 0, false),
            crate::math::plane_from_rows(m, 1, true),
            crate::math::plane_from_rows(m, 1, false),
            crate::math::plane_from_rows(m, 2, true),
            crate::math::plane_from_rows(m, 2, false),
        ],
    }
}

/// Whether a batch instance may appear in any face's shadow statistics:
/// its owner exists, is visible, and either is a mesh that casts shadows
/// or is terrain (always treated as a caster). Frustum culling can only
/// thin this set further.
pub open spec fn instance_may_cast(inst: SurfaceInstance, graph: Graph) -> bool {
    &&& inst.owner.index < graph.pool.items@.len()
    &&& graph.pool.items@[inst.owner.index as int] matches Some(node) && node.global_visibility
        && (match node.kind {
        NodeKind::Mesh(_) => node.cast_shadows,
        NodeKind::Terrain => true,
        _ => false,
    })
}

/// Whether an instance is drawn into one face: it may cast, and — for a
/// mesh — its owner's position passes the face's frustum test.
pub open spec fn instance_visible(inst: SurfaceInstance, graph: Graph, fr: Frustum) -> bool {
    &&& instance_may_cast(inst, graph)
    &&& (graph.pool.items@[inst.owner.index as int]->0.kind is Mesh
        ==> crate::math::frustum_holds(fr, graph.pool.items@[inst.owner.index as int]->0.position))
}

/// Law: a node with its shadow flag cleared never appears in any face's
/// draw statistics — a mesh instance whose owner does not cast shadows
/// is never counted as visible for the shadow pass, whatever the face.
pub proof fn lemma_non_casting_mesh_never_drawn(inst: SurfaceInstance, graph: Graph, fr: Frustum)
    requires
        inst.owner.index < graph.pool.items@.len(),
        graph.pool.items@[inst.owner.index as int] matches Some(node) && node.kind is Mesh
            && !node.cast_shadows,
    ensures
        !instance_visible(inst, graph, fr),
        !instance_may_cast(inst, graph),
{
}

/// How many instances of a sequence are drawn into a face.
pub open spec fn visible_count(insts: Seq<SurfaceInstance>, graph: Graph, fr: Frustum) -> int
    decreases insts.len(),
{
    if insts.len() == 0 {
        0
    } else {
        visible_count(insts.drop_last(), graph, fr) + if instance_visible(
            insts.last(),
            graph,
            fr,
        ) {
            1int
        } else {
            0int
        }
    }
}

/// How many instances of a sequence may cast at all.
pub open spec fn may_cast_count(insts: Seq<SurfaceInstance>, graph: Graph) -> int
    decreases insts.len(),
{
    if insts.len() == 0 {
        0
    } else {
        may_cast_count(insts.drop_last(), graph) + if instance_may_cast(insts.last(), graph) {
            1int
        } else {
            0int
        }
    }
}

/// Frustum culling only thins the set of casters.
pub proof fn lemma_visible_le_may_cast(insts: Seq<SurfaceInstance>, graph: Graph, fr: Frustum)
    ensures
        0 <= visible_count(insts, graph, fr) <= may_cast_count(insts, graph),
        may_cast_count(insts, graph) <= insts.len(),
    decreases insts.len(),
{
    if insts.len() > 0 {
        lemma_visible_le_may_cast(insts.drop_last(), graph, fr);
    }
}

/// How many instances over all batches may cast.
pub open spec fn may_cast_total(batches: Seq<Batch>, graph: Graph) -> int
    decreases batches.len(),
{
    if batches.len() == 0 {
        0
    } else {
        may_cast_total(batches.drop_last(), graph) + may_cast_count(
            batches.last().instances@,
            graph,
        )
    }
}

/// The total over a prefix grows by the last batch's count.
proof fn lemma_may_cast_total_step(batches: Seq<Batch>, graph: Graph, k: int)
    requires
        0 <= k < batches.len(),
    ensures
        may_cast_total(batches.subrange(0, k + 1), graph) == may_cast_total(
            batches.subrange(0, k),
            graph,
        ) + may_cast_count(batches[k].instances@, graph),
{
    assert(batches.subrange(0, k + 1).drop_last() =~= batches.subrange(0, k));
    assert(batches.subrange(0, k + 1).last() == batches[k]);
}

/// A caster count is never negative.
proof fn lemma_may_cast_nonneg(insts: Seq<SurfaceInstance>, graph: Graph)
    ensures
        0 <= may_cast_count(insts, graph) <= insts.len(),
    decreases insts.len(),
{
    if insts.len() > 0 {
        lemma_may_cast_nonneg(insts.drop_last(), graph);
    }
}

/// A caster total is never negative.
proof fn lemma_may_cast_total_nonneg(batches: Seq<Batch>, graph: Graph)
    ensures
        0 <= may_cast_total(batches, graph),
    decreases batches.len(),
{
    if batches.len() > 0 {
        lemma_may_cast_total_nonneg(batches.drop_last(), graph);
        lemma_may_cast_nonneg(batches.last().instances@, graph);
    }
}

/// The draw parameters of every shadow draw: back-face culling on, depth
/// test and write on, no blending, no stencil.
pub open spec fn shadow_pass_params() -> DrawParameters {
    DrawParameters {
        cull_face: CullFace::Back,
        culling: true,
        color_write: ColorMask { red: true, green: true, blue: true, alpha: true },
        depth_write: true,
        stencil_test: false,
        depth_test: true,
        blend: false,
    }
}

fn make_shadow_pass_params() -> (r: DrawParameters)
    ensures
        r == shadow_pass_params(),
{
    DrawParameters {
        cull_face: CullFace::Back,
        culling: true,
        color_write: ColorMask::all(true),
        depth_write: true,
        stencil_test: false,
        depth_test: true,
        blend: false,
    }
}

/// Copies a matrix list (bone palettes are per-instance inputs).
fn copy_matrices(src: &Vec<Mat4>) -> (r: Vec<Mat4>)
    ensures
        r@ == src@,
{
    let mut out: Vec<Mat4> = Vec::new();
    let mut i: usize = 0;
    while i < src.len()
        invariant
            i <= src@.len(),
            out@ == src@.subrange(0, i as int),
        decreases src@.len() - i,
    {
        out.push(src[i]);
        i = i + 1;
        proof {
            assert(src@.subrange(0, i as int) =~= src@.subrange(0, i as int - 1).push(
                src@[i as int - 1],
            ));
        }
    }
    proof {
        assert(src@.subrange(0, src@.len() as int) =~= src@);
    }
    out
}

/// The five uniform commands a shadow draw issues right before it: the
/// instance's world matrix, the wvp whose entries are exactly the
/// product of the face's view-projection with that world matrix, the
/// instance's bone palette, the skinning flag, and the light's
/// position.
pub open spec fn shadow_uniform_block(
    cmds: Seq<DeviceCommand>,
    p: int,
    program: u32,
    vp: Mat4,
    inst: SurfaceInstance,
    is_skinned: bool,
    light_pos: FxVec3,
) -> bool {
    &&& 5 <= p < cmds.len()
    &&& cmds[p - 5] == (DeviceCommand::SetUniform {
        program,
        slot: 0,
        value: UniformValue::Matrix4(inst.world_transform),
    })
    &&& (cmds[p - 4] matches DeviceCommand::SetUniform { program: wp, slot, value } && wp
        == program && slot == 1 && value is Matrix4 && (forall|i: int, j: int|
        #![trigger crate::math::mat_mul_entry_raw(vp, inst.world_transform, i, j)]
        0 <= i < 4 && 0 <= j < 4 ==> value->Matrix4_0.m[j * 4 + i].raw
            == crate::math::mat_mul_entry_raw(vp, inst.world_transform, i, j)))
    &&& (cmds[p - 3] matches DeviceCommand::SetUniform { program: bp, slot, value } && bp
        == program && slot == 2 && value is Matrix4Array && value->Matrix4Array_0@
        == inst.bone_matrices@)
    &&& cmds[p - 2] == (DeviceCommand::SetUniform {
        program,
        slot: 3,
        value: UniformValue::Bool(is_skinned),
    })
    &&& cmds[p - 1] == (DeviceCommand::SetUniform {
        program,
        slot: 4,
        value: UniformValue::Vec3(light_pos),
    })
}

/// A uniform block is untouched by appends.
proof fn lemma_block_stable(
    pre: Seq<DeviceCommand>,
    post: Seq<DeviceCommand>,
    p: int,
    program: u32,
    vp: Mat4,
    inst: SurfaceInstance,
    is_skinned: bool,
    light_pos: FxVec3,
)
    requires
        pre.len() <= post.len(),
        post.subrange(0, pre.len() as int) == pre,
        p < pre.len(),
        shadow_uniform_block(pre, p, program, vp, inst, is_skinned, light_pos),
    ensures
        shadow_uniform_block(post, p, program, vp, inst, is_skinned, light_pos),
{
    assert(post[p - 5] == post.subrange(0, pre.len() as int)[p - 5]);
    assert(post[p - 4] == post.subrange(0, pre.len() as int)[p - 4]);
    assert(post[p - 3] == post.subrange(0, pre.len() as int)[p - 3]);
    assert(post[p - 2] == post.subrange(0, pre.len() as int)[p - 2]);
    assert(post[p - 1] == post.subrange(0, pre.len() as int)[p - 1]);
}

/// The uniform values a shadow draw hands the material's PointShadow
/// program; slots are assigned positionally for the fixed inputs.
fn apply_material(
    program: u32,
    world_matrix: &Mat4,
    wvp_matrix: &Mat4,
    bone_matrices: &Vec<Mat4>,
    use_skeletal_animation: bool,
    light_position: FxVec3,
) -> (r: Vec<(UniformLocation, UniformValue)>)
    ensures
        r@.len() == 5,
        r@[0] == ((UniformLocation { program, slot: 0 }, UniformValue::Matrix4(*world_matrix))),
        r@[1] == ((UniformLocation { program, slot: 1 }, UniformValue::Matrix4(*wvp_matrix))),
        (r@[2].0 == (UniformLocation { program, slot: 2 }) && r@[2].1 is Matrix4Array
            && r@[2].1->Matrix4Array_0@ == bone_matrices@),
        r@[3] == ((UniformLocation { program, slot: 3 }, UniformValue::Bool(
            use_skeletal_animation,
        ))),
        r@[4] == ((UniformLocation { program, slot: 4 }, UniformValue::Vec3(light_position))),
{
    let mut us: Vec<(UniformLocation, UniformValue)> = Vec::new();
    us.push((UniformLocation { program, slot: 0 }, UniformValue::Matrix4(*world_matrix)));
    us.push((UniformLocation { program, slot: 1 }, UniformValue::Matrix4(*wvp_matrix)));
    us.push(
        (UniformLocation { program, slot: 2 }, UniformValue::Matrix4Array(
            copy_matrices(bone_matrices),
        )),
    );
    us.push((UniformLocation { program, slot: 3 }, UniformValue::Bool(use_skeletal_animation)));
    us.push((UniformLocation { program, slot: 4 }, UniformValue::Vec3(light_position)));
    us
}

/// Draws every visible instance of one batch into one face, and returns
/// exactly how many were drawn.
fn draw_face_instances(
    state: &mut PipelineState,
    framebuffer: &FrameBuffer,
    geometry: &GeometryBuffer,
    program_id: u32,
    instances: &Vec<SurfaceInstance>,
    graph: &Graph,
    frustum: &Frustum,
    light_view_projection: &Mat4,
    light_pos: FxVec3,
    is_skinned: bool,
    viewport: Rect,
) -> (count: usize)
    requires
        instances@.len() <= 0x1_0000,
    ensures
        count as int == visible_count(instances@, *graph, *frustum),
        final(state).next_id == old(state).next_id,
        final(state).commands@.len() >= old(state).commands@.len(),
        final(state).commands@.subrange(0, old(state).commands@.len() as int) == old(
            state,
        ).commands@,
        draw_seq(final(state).commands@).len() == draw_seq(old(state).commands@).len()
            + count,
        forall|j: int|
            0 <= j < draw_seq(old(state).commands@).len() ==> draw_seq(
                final(state).commands@,
            )[j] == draw_seq(old(state).commands@)[j],
        forall|j: int|
            draw_seq(old(state).commands@).len() <= j < draw_seq(final(state).commands@).len()
                ==> draw_seq(final(state).commands@)[j] == crate::framework::framebuffer::draw_command(
                framebuffer.id,
                geometry.id,
                program_id,
                shadow_pass_params(),
                old(state).cache.stencil_func,
                old(state).cache.stencil_op,
                old(state).cache.stencil_mask,
                0,
                geometry.triangle_count as int,
            ),
        final(state).cache.stencil_func == old(state).cache.stencil_func,
        final(state).cache.stencil_op == old(state).cache.stencil_op,
        final(state).cache.stencil_mask == old(state).cache.stencil_mask,
        forall|p: int|
            #![trigger final(state).commands@[p]]
            old(state).commands@.len() <= p < final(state).commands@.len()
                && final(state).commands@[p] is Draw ==> exists|q: int|
                #![trigger shadow_uniform_block(final(state).commands@, p, program_id, *light_view_projection, instances@[q], is_skinned, light_pos)]
                0 <= q < instances@.len() && instance_visible(instances@[q], *graph, *frustum)
                    && shadow_uniform_block(
                    final(state).commands@,
                    p,
                    program_id,
                    *light_view_projection,
                    instances@[q],
                    is_skinned,
                    light_pos,
                ),
{
    let program = crate::framework::gpu_program::GpuProgram { id: program_id, uniforms: Vec::new() };
    let mut count: usize = 0;
    let mut i: usize = 0;
    let ghost base = state.commands@;
    while i < instances.len()
        invariant
            i <= instances@.len(),
            instances@.len() <= 0x1_0000,
            program.id == program_id,
            count as int == visible_count(instances@.subrange(0, i as int), *graph, *frustum),
            count <= i,
            state.next_id == old(state).next_id,
            state.cache.stencil_func == old(state).cache.stencil_func,
            state.cache.stencil_op == old(state).cache.stencil_op,
            state.cache.stencil_mask == old(state).cache.stencil_mask,
            state.commands@.len() >= base.len(),
            state.commands@.subrange(0, base.len() as int) == base,
            draw_seq(state.commands@).len() == draw_seq(base).len() + count,
            forall|j: int|
                0 <= j < draw_seq(base).len() ==> draw_seq(state.commands@)[j] == draw_seq(
                    base,
                )[j],
            forall|j: int|
                draw_seq(base).len() <= j < draw_seq(state.commands@).len() ==> draw_seq(
                    state.commands@,
                )[j] == crate::framework::framebuffer::draw_command(
                    framebuffer.id,
                    geometry.id,
                    program_id,
                    shadow_pass_params(),
                    old(state).cache.stencil_func,
                    old(state).cache.stencil_op,
                    old(state).cache.stencil_mask,
                    0,
                    geometry.triangle_count as int,
                ),
            forall|p: int|
                #![trigger state.commands@[p]]
                base.len() <= p < state.commands@.len() && state.commands@[p] is Draw
                    ==> exists|q: int|
                    #![trigger shadow_uniform_block(state.commands@, p, program_id, *light_view_projection, instances@[q], is_skinned, light_pos)]
                    0 <= q < instances@.len() && instance_visible(instances@[q], *graph, *frustum)
                        && shadow_uniform_block(
                        state.commands@,
                        p,
                        program_id,
                        *light_view_projection,
                        instances@[q],
                        is_skinned,
                        light_pos,
                    ),
        decreases instances@.len() - i,
    {
        let inst = &instances[i];
        let mut visible = false;
        match graph.pool.at(inst.owner.index) {
            Some(node) => {
                if node.global_visibility() {
                    match &node.kind {
                        NodeKind::Mesh(_) => {
                            visible = node.cast_shadows() && frustum.is_contains_point(
                                node.position,
                            );
                        },
                        NodeKind::Terrain => {
                            visible = true;
                        },
                        _ => {},
                    }
                }
            },
            None => {},
        }
        if visible {
            let wvp = light_view_projection.mul(inst.world_transform);
            let uniforms = apply_material(
                program_id,
                &inst.world_transform,
                &wvp,
                &inst.bone_matrices,
                is_skinned,
                light_pos,
            );
            let ghost pre = state.commands@;
            let _ = framebuffer.draw(
                geometry,
                state,
                viewport,
                &program,
                &make_shadow_pass_params(),
                uniforms,
            );
            count = count + 1;
            proof {
                crate::framework::state::lemma_prefix_trans(base, pre, state.commands@);
                let cur = state.commands@;
                let n = cur.len() as int;
                let rec = crate::framework::framebuffer::draw_command(
                    framebuffer.id,
                    geometry.id,
                    program_id,
                    shadow_pass_params(),
                    old(state).cache.stencil_func,
                    old(state).cache.stencil_op,
                    old(state).cache.stencil_mask,
                    0,
                    geometry.triangle_count as int,
                );
                let tail = cur.subrange(n - 6, n);
                assert(cur[n - 6] == tail[0]);
                assert(cur[n - 5] == tail[1]);
                assert(cur[n - 4] == tail[2]);
                assert(cur[n - 3] == tail[3]);
                assert(cur[n - 2] == tail[4]);
                assert(instance_visible(instances@[i as int], *graph, *frustum));
                assert(shadow_uniform_block(
                    cur,
                    n - 1,
                    program_id,
                    *light_view_projection,
                    instances@[i as int],
                    is_skinned,
                    light_pos,
                ));
                assert forall|p: int|
                    #![trigger cur[p]]
                    base.len() <= p < cur.len() && cur[p] is Draw implies exists|q: int|
                    #![trigger shadow_uniform_block(cur, p, program_id, *light_view_projection, instances@[q], is_skinned, light_pos)]
                    0 <= q < instances@.len() && instance_visible(instances@[q], *graph, *frustum)
                        && shadow_uniform_block(
                        cur,
                        p,
                        program_id,
                        *light_view_projection,
                        instances@[q],
                        is_skinned,
                        light_pos,
                    ) by {
                    if p < pre.len() {
                        assert(cur[p] == cur.subrange(0, pre.len() as int)[p]);
                        assert(pre[p] is Draw);
                        let q = choose|q: int|
                            #![trigger shadow_uniform_block(pre, p, program_id, *light_view_projection, instances@[q], is_skinned, light_pos)]
                            0 <= q < instances@.len() && instance_visible(
                                instances@[q],
                                *graph,
                                *frustum,
                            ) && shadow_uniform_block(
                                pre,
                                p,
                                program_id,
                                *light_view_projection,
                                instances@[q],
                                is_skinned,
                                light_pos,
                            );
                        lemma_block_stable(
                            pre,
                            cur,
                            p,
                            program_id,
                            *light_view_projection,
                            instances@[q],
                            is_skinned,
                            light_pos,
                        );
                    } else if p < n - 1 {
                        assert(draw_seq(cur) == draw_seq(pre).push(rec));
                        crate::framework::state::lemma_single_draw_at_end(pre, cur, p);
                        assert(false);
                    } else {
                        assert(shadow_uniform_block(
                            cur,
                            n - 1,
                            program_id,
                            *light_view_projection,
                            instances@[i as int],
                            is_skinned,
                            light_pos,
                        ));
                    }
                }
            }
        }
        i = i + 1;
        proof {
            assert(instances@.subrange(0, i as int).drop_last() =~= instances@.subrange(
                0,
                i as int - 1,
            ));
            assert(instances@.subrange(0, i as int).last() == instances@[i as int - 1]);
        }
    }
    proof {
        assert(instances@.subrange(0, instances@.len() as int) =~= instances@);
    }
    count
}



/// Where a draw of the shadow pass takes its uniforms from: some face,
/// some batch, and some instance of that batch that is visible in that
/// face's frustum, whose uniform block stands right before the draw
/// with that face's view-projection.
pub open spec fn shadow_pass_draw_sourced(
    cmds: Seq<DeviceCommand>,
    p: int,
    batches: Seq<Batch>,
    graph: Graph,
    light_pos: FxVec3,
    light_radius: Fx,
) -> bool {
    exists|f: int, b: int, q: int, prog: u32|
        #![trigger shadow_uniform_block(cmds, p, prog, face_view_projection_spec(light_pos, light_radius, index_face(f)), batches[b].instances@[q], batches[b].is_skinned, light_pos)]
        0 <= f < 6 && 0 <= b < batches.len() && 0 <= q < batches[b].instances@.len()
            && instance_visible(
            batches[b].instances@[q],
            graph,
            face_frustum_spec(light_pos, light_radius, index_face(f)),
        ) && shadow_uniform_block(
            cmds,
            p,
            prog,
            face_view_projection_spec(light_pos, light_radius, index_face(f)),
            batches[b].instances@[q],
            batches[b].is_skinned,
            light_pos,
        )
}

/// A draw's source block is untouched by appends.
proof fn lemma_sourced_stable(
    pre: Seq<DeviceCommand>,
    post: Seq<DeviceCommand>,
    p: int,
    batches: Seq<Batch>,
    graph: Graph,
    light_pos: FxVec3,
    light_radius: Fx,
)
    requires
        pre.len() <= post.len(),
        post.subrange(0, pre.len() as int) == pre,
        p < pre.len(),
        shadow_pass_draw_sourced(pre, p, batches, graph, light_pos, light_radius),
    ensures
        shadow_pass_draw_sourced(post, p, batches, graph, light_pos, light_radius),
{
    let (f, b, q, prog) = choose|f: int, b: int, q: int, prog: u32|
        #![trigger shadow_uniform_block(pre, p, prog, face_view_projection_spec(light_pos, light_radius, index_face(f)), batches[b].instances@[q], batches[b].is_skinned, light_pos)]
        0 <= f < 6 && 0 <= b < batches.len() && 0 <= q < batches[b].instances@.len()
            && instance_visible(
            batches[b].instances@[q],
            graph,
            face_frustum_spec(light_pos, light_radius, index_face(f)),
        ) && shadow_uniform_block(
            pre,
            p,
            prog,
            face_view_projection_spec(light_pos, light_radius, index_face(f)),
            batches[b].instances@[q],
            batches[b].is_skinned,
            light_pos,
        );
    lemma_block_stable(
        pre,
        post,
        p,
        prog,
        face_view_projection_spec(light_pos, light_radius, index_face(f)),
        batches[b].instances@[q],
        batches[b].is_skinned,
        light_pos,
    );
}


/// Renders one cube face of a cascade: selects the face, clears it to
/// white at full depth, and draws every resolved batch's visible
/// instances through the face's view-projection. Returns the face's
/// draw count and (saturated) triangle count.
#[verifier::rlimit(100)]
#[verifier::spinoff_prover]
fn render_face(
    state: &mut PipelineState,
    framebuffer: &FrameBuffer,
    viewport: Rect,
    projection: Mat4,
    fi: usize,
    resolved: &Vec<Option<(u32, GeometryBuffer)>>,
    batch_storage: &BatchStorage,
    graph: &Graph,
    light_pos: FxVec3,
    light_radius: Fx,
    Ghost(sh_end): Ghost<Seq<CacheEntry<ShaderSet>>>,
) -> (r: (usize, usize))
    requires
        fi < 6,
        projection == face_projection_spec(light_radius),
        framebuffer.color_attachments@.len() > 0,
        framebuffer.color_attachments@[0].texture.kind is Cube,
        resolved@.len() == batch_storage.batches@.len(),
        batch_storage.batches@.len() <= 0x1000,
        forall|b: int|
            0 <= b < batch_storage.batches@.len()
                ==> (#[trigger] batch_storage.batches@[b]).instances@.len() <= 0x4000,
        forall|b: int|
            0 <= b < batch_storage.batches@.len() ==> ((#[trigger] resolved@[b]) is Some
                <==> batch_shadow_ready(batch_storage.batches@[b], sh_end)),
    ensures
        r.0 as int == face_draw_total(
            batch_storage.batches@,
            sh_end,
            *graph,
            face_frustum_spec(light_pos, light_radius, index_face(fi as int)),
        ),
        r.0 as int <= batch_storage.batches@.len() * 0x4000,
        final(state).commands@.len() > old(state).commands@.len(),
        final(state).commands@.subrange(0, old(state).commands@.len() as int) == old(
            state,
        ).commands@,
        draw_seq(final(state).commands@).len() == draw_seq(old(state).commands@).len() + r.0,
        forall|j: int|
            0 <= j < draw_seq(old(state).commands@).len() ==> draw_seq(final(state).commands@)[j]
                == draw_seq(old(state).commands@)[j],
        forall|j: int|
            draw_seq(old(state).commands@).len() <= j < draw_seq(final(state).commands@).len()
                ==> ((#[trigger] draw_seq(final(state).commands@)[j])
                matches DeviceCommand::Draw { framebuffer: fbid, params, .. } && fbid
                == framebuffer.id && params == shadow_pass_params()),
        final(state).commands@[old(state).commands@.len() as int] == (
        DeviceCommand::SetCubeMapFace { framebuffer: framebuffer.id, face: index_face(fi as int) }),
        exists|k: int|
            old(state).commands@.len() < k < final(state).commands@.len()
                && final(state).commands@[k] == (DeviceCommand::ClearTarget {
                framebuffer: framebuffer.id,
                viewport,
                color: Some(crate::math::Color { r: 255, g: 255, b: 255, a: 255 }),
                depth: Some(Fx { raw: FX_ONE }),
                stencil: None,
            }),
        forall|p: int|
            #![trigger final(state).commands@[p]]
            old(state).commands@.len() <= p < final(state).commands@.len()
                && final(state).commands@[p] is Draw ==> exists|b: int, q: int, prog: u32|
                #![trigger shadow_uniform_block(final(state).commands@, p, prog, face_view_projection_spec(light_pos, light_radius, index_face(fi as int)), batch_storage.batches@[b].instances@[q], batch_storage.batches@[b].is_skinned, light_pos)]
                0 <= b < batch_storage.batches@.len() && 0 <= q
                    < batch_storage.batches@[b].instances@.len() && instance_visible(
                    batch_storage.batches@[b].instances@[q],
                    *graph,
                    face_frustum_spec(light_pos, light_radius, index_face(fi as int)),
                ) && shadow_uniform_block(
                    final(state).commands@,
                    p,
                    prog,
                    face_view_projection_spec(light_pos, light_radius, index_face(fi as int)),
                    batch_storage.batches@[b].instances@[q],
                    batch_storage.batches@[b].is_skinned,
                    light_pos,
                ),
{
    let ghost fbase = state.commands@;
    let face = face_from_index(fi);
    match framebuffer.set_cubemap_face(state, face) {
        Ok(_) => {},
        Err(_) => {
            proof {
                assert(false);
            }
        },
    }
    let ghost j_face = fbase.len() as int;
    let ghost after_face = state.commands@;
    proof {
        assert(state.commands@.subrange(0, fbase.len() as int) =~= fbase);
        assert(state.commands@[j_face] == (DeviceCommand::SetCubeMapFace {
            framebuffer: framebuffer.id,
            face: index_face(fi as int),
        }));
    }
    framebuffer.clear(state, viewport, Some(Color::white()), Some(Fx::one()), None);
    let ghost k_clear = state.commands@.len() - 1;
    let ghost anchor = state.commands@;
    proof {
        let ct = DeviceCommand::ClearTarget {
            framebuffer: framebuffer.id,
            viewport,
            color: Some(crate::math::Color { r: 255, g: 255, b: 255, a: 255 }),
            depth: Some(Fx { raw: FX_ONE }),
            stencil: None,
        };
        if anchor == after_face.push(ct) {
            crate::framework::state::lemma_draw_seq_push(after_face, ct);
        } else {
            let bf = DeviceCommand::BindFramebuffer(framebuffer.id);
            crate::framework::state::lemma_draw_seq_push(after_face, bf);
            crate::framework::state::lemma_draw_seq_push(after_face.push(bf), ct);
        }
        assert(anchor.subrange(0, after_face.len() as int) =~= after_face);
        crate::framework::state::lemma_prefix_trans(fbase, after_face, anchor);
        assert(draw_seq(anchor) == draw_seq(fbase));
        assert(anchor[k_clear] == ct);
        assert(anchor[j_face] == anchor.subrange(0, after_face.len() as int)[j_face]);
        assert(anchor[j_face] == (DeviceCommand::SetCubeMapFace {
            framebuffer: framebuffer.id,
            face: index_face(fi as int),
        }));
        assert forall|p: int| fbase.len() <= p < anchor.len() implies !((#[trigger] anchor[p])
            is Draw) by {
            crate::framework::state::lemma_draw_seq_same_len_no_draws(fbase, anchor, p);
        }
    }
    let view = face_view_matrix(light_pos, face);
    let light_view_projection = projection.mul(view);
    let frustum = Frustum::from_view_projection_matrix(&light_view_projection);
    proof {
        lemma_face_vp_value(light_view_projection, projection, view, light_pos, light_radius, face);
        assert(frustum.planes[0] == face_frustum_spec(light_pos, light_radius, face).planes[0]);
        assert(frustum.planes[1] == face_frustum_spec(light_pos, light_radius, face).planes[1]);
        assert(frustum.planes[2] == face_frustum_spec(light_pos, light_radius, face).planes[2]);
        assert(frustum.planes[3] == face_frustum_spec(light_pos, light_radius, face).planes[3]);
        assert(frustum.planes[4] == face_frustum_spec(light_pos, light_radius, face).planes[4]);
        assert(frustum.planes[5] == face_frustum_spec(light_pos, light_radius, face).planes[5]);
        assert(frustum.planes =~= face_frustum_spec(light_pos, light_radius, face).planes);
        assert(frustum == face_frustum_spec(light_pos, light_radius, face));
        assert(batch_storage.batches@.subrange(0, 0) =~= Seq::<Batch>::empty());
    }
    let mut face_draws: usize = 0;
    let mut face_tris: usize = 0;
    let mut bj: usize = 0;
    while bj < batch_storage.batches.len()
        invariant
            bj <= batch_storage.batches@.len(),
            batch_storage.batches@.len() <= 0x1000,
            resolved@.len() == batch_storage.batches@.len(),
            forall|b: int|
                0 <= b < batch_storage.batches@.len()
                    ==> (#[trigger] batch_storage.batches@[b]).instances@.len() <= 0x4000,
            forall|b: int|
                0 <= b < batch_storage.batches@.len() ==> ((#[trigger] resolved@[b]) is Some
                    <==> batch_shadow_ready(batch_storage.batches@[b], sh_end)),
            fi < 6,
            face == index_face(fi as int),
            frustum == face_frustum_spec(light_pos, light_radius, face),
            light_view_projection == face_view_projection_spec(light_pos, light_radius, face),
            face_draws as int == face_draw_total(
                batch_storage.batches@.subrange(0, bj as int),
                sh_end,
                *graph,
                frustum,
            ),
            face_draws as int <= bj as int * 0x4000,
            fbase == old(state).commands@,
            state.commands@.len() >= anchor.len(),
            state.commands@.subrange(0, anchor.len() as int) == anchor,
            state.commands@.subrange(0, fbase.len() as int) == fbase,
            anchor.len() > fbase.len(),
            anchor.subrange(0, fbase.len() as int) == fbase,
            draw_seq(state.commands@).len() == draw_seq(fbase).len() + face_draws,
            forall|j: int|
                0 <= j < draw_seq(fbase).len() ==> draw_seq(state.commands@)[j] == draw_seq(
                    fbase,
                )[j],
            forall|j: int|
                draw_seq(fbase).len() <= j < draw_seq(state.commands@).len() ==> ((
                #[trigger] draw_seq(state.commands@)[j])
                    matches DeviceCommand::Draw { framebuffer: fbid, params, .. } && fbid
                    == framebuffer.id && params == shadow_pass_params()),
            forall|p: int|
                #![trigger state.commands@[p]]
                fbase.len() <= p < state.commands@.len() && state.commands@[p] is Draw
                    ==> exists|b: int, q: int, prog: u32|
                    #![trigger shadow_uniform_block(state.commands@, p, prog, face_view_projection_spec(light_pos, light_radius, index_face(fi as int)), batch_storage.batches@[b].instances@[q], batch_storage.batches@[b].is_skinned, light_pos)]
                    0 <= b < batch_storage.batches@.len() && 0 <= q
                        < batch_storage.batches@[b].instances@.len() && instance_visible(
                        batch_storage.batches@[b].instances@[q],
                        *graph,
                        face_frustum_spec(light_pos, light_radius, index_face(fi as int)),
                    ) && shadow_uniform_block(
                        state.commands@,
                        p,
                        prog,
                        face_view_projection_spec(light_pos, light_radius, index_face(fi as int)),
                        batch_storage.batches@[b].instances@[q],
                        batch_storage.batches@[b].is_skinned,
                        light_pos,
                    ),
        decreases batch_storage.batches@.len() - bj,
    {
        proof {
            lemma_face_total_step(batch_storage.batches@, sh_end, *graph, frustum, bj as int);
        }
        match &resolved[bj] {
            Some(pg) => {
                let (p, g) = *pg;
                let batch = &batch_storage.batches[bj];
                let ghost pre = state.commands@;
                let c = draw_face_instances(
                    state,
                    framebuffer,
                    &g,
                    p,
                    &batch.instances,
                    graph,
                    &frustum,
                    &light_view_projection,
                    light_pos,
                    batch.is_skinned,
                    viewport,
                );
                proof {
                    assert(state.commands@.subrange(0, pre.len() as int) =~= pre);
                    crate::framework::state::lemma_prefix_trans(fbase, pre, state.commands@);
                    crate::framework::state::lemma_prefix_trans(anchor, pre, state.commands@);
                    assert(batch.instances@ == batch_storage.batches@[bj as int].instances@);
                    assert(batch.is_skinned == batch_storage.batches@[bj as int].is_skinned);
                    lemma_visible_le_may_cast(batch.instances@, *graph, frustum);
                    lemma_may_cast_nonneg(batch.instances@, *graph);
                    assert(c as int <= 0x4000);
                    assert((c as int) * (g.triangle_count as int)
                        < 0x1_0000_0000_0000_0000_0000) by (nonlinear_arith)
                        requires
                            0 <= c as int <= 0x4000,
                            0 <= g.triangle_count as int <= 0xFFFF_FFFF_FFFF_FFFF,
                    ;
                    let cur = state.commands@;
                    assert forall|pp: int|
                        #![trigger cur[pp]]
                        fbase.len() <= pp < cur.len() && cur[pp] is Draw implies exists|
                        b: int,
                        q: int,
                        prog: u32,
                    |
                        #![trigger shadow_uniform_block(cur, pp, prog, face_view_projection_spec(light_pos, light_radius, index_face(fi as int)), batch_storage.batches@[b].instances@[q], batch_storage.batches@[b].is_skinned, light_pos)]
                        0 <= b < batch_storage.batches@.len() && 0 <= q
                            < batch_storage.batches@[b].instances@.len() && instance_visible(
                            batch_storage.batches@[b].instances@[q],
                            *graph,
                            face_frustum_spec(light_pos, light_radius, index_face(fi as int)),
                        ) && shadow_uniform_block(
                            cur,
                            pp,
                            prog,
                            face_view_projection_spec(
                                light_pos,
                                light_radius,
                                index_face(fi as int),
                            ),
                            batch_storage.batches@[b].instances@[q],
                            batch_storage.batches@[b].is_skinned,
                            light_pos,
                        ) by {
                        if pp < pre.len() {
                            assert(cur[pp] == cur.subrange(0, pre.len() as int)[pp]);
                            assert(pre[pp] is Draw);
                            let (b, q, prog) = choose|b: int, q: int, prog: u32|
                                #![trigger shadow_uniform_block(pre, pp, prog, face_view_projection_spec(light_pos, light_radius, index_face(fi as int)), batch_storage.batches@[b].instances@[q], batch_storage.batches@[b].is_skinned, light_pos)]
                                0 <= b < batch_storage.batches@.len() && 0 <= q
                                    < batch_storage.batches@[b].instances@.len()
                                    && instance_visible(
                                    batch_storage.batches@[b].instances@[q],
                                    *graph,
                                    face_frustum_spec(
                                        light_pos,
                                        light_radius,
                                        index_face(fi as int),
                                    ),
                                ) && shadow_uniform_block(
                                    pre,
                                    pp,
                                    prog,
                                    face_view_projection_spec(
                                        light_pos,
                                        light_radius,
                                        index_face(fi as int),
                                    ),
                                    batch_storage.batches@[b].instances@[q],
                                    batch_storage.batches@[b].is_skinned,
                                    light_pos,
                                );
                            lemma_block_stable(
                                pre,
                                cur,
                                pp,
                                prog,
                                face_view_projection_spec(
                                    light_pos,
                                    light_radius,
                                    index_face(fi as int),
                                ),
                                batch_storage.batches@[b].instances@[q],
                                batch_storage.batches@[b].is_skinned,
                                light_pos,
                            );
                        } else {
                            let q = choose|q: int|
                                #![trigger shadow_uniform_block(cur, pp, p, light_view_projection, batch.instances@[q], batch.is_skinned, light_pos)]
                                0 <= q < batch.instances@.len() && instance_visible(
                                    batch.instances@[q],
                                    *graph,
                                    frustum,
                                ) && shadow_uniform_block(
                                    cur,
                                    pp,
                                    p,
                                    light_view_projection,
                                    batch.instances@[q],
                                    batch.is_skinned,
                                    light_pos,
                                );
                            assert(shadow_uniform_block(
                                cur,
                                pp,
                                p,
                                face_view_projection_spec(
                                    light_pos,
                                    light_radius,
                                    index_face(fi as int),
                                ),
                                batch_storage.batches@[bj as int].instances@[q],
                                batch_storage.batches@[bj as int].is_skinned,
                                light_pos,
                            ));
                            assert(instance_visible(
                                batch_storage.batches@[bj as int].instances@[q],
                                *graph,
                                face_frustum_spec(light_pos, light_radius, index_face(fi as int)),
                            ));
                        }
                    }
                }
                face_draws = face_draws + c;
                let wide: u128 = (c as u128) * (g.triangle_count() as u128);
                let add: usize = if wide > usize::MAX as u128 {
                    usize::MAX
                } else {
                    wide as usize
                };
                face_tris = if add > usize::MAX - face_tris {
                    usize::MAX
                } else {
                    face_tris + add
                };
            },
            None => {},
        }
        bj = bj + 1;
    }
    proof {
        assert(batch_storage.batches@.subrange(0, batch_storage.batches@.len() as int)
            =~= batch_storage.batches@);
        assert(state.commands@[j_face] == state.commands@.subrange(0, anchor.len() as int)[j_face]);
        assert(state.commands@[k_clear] == state.commands@.subrange(
            0,
            anchor.len() as int,
        )[k_clear]);
        crate::framework::state::lemma_prefix_trans(fbase, anchor, state.commands@);
    }
    (face_draws, face_tris)
}

/// Device ids one batch's resolution may consume: its geometry upload
/// and one program per shader pass.
pub open spec fn batch_id_cost(b: Batch) -> int {
    3 + match b.material.data {
        Option::Some(d) => d.passes@.len() as int,
        Option::None => 0,
    }
}

/// Device ids resolving all batches may consume.
pub open spec fn shadow_id_budget(batches: Seq<Batch>) -> int
    decreases batches.len(),
{
    if batches.len() == 0 {
        0
    } else {
        shadow_id_budget(batches.drop_last()) + batch_id_cost(batches.last())
    }
}

proof fn lemma_budget_step(batches: Seq<Batch>, k: int)
    requires
        0 <= k < batches.len(),
    ensures
        shadow_id_budget(batches.subrange(0, k + 1)) == shadow_id_budget(batches.subrange(0, k))
            + batch_id_cost(batches[k]),
{
    assert(batches.subrange(0, k + 1).drop_last() =~= batches.subrange(0, k));
    assert(batches.subrange(0, k + 1).last() == batches[k]);
}

proof fn lemma_budget_nonneg(batches: Seq<Batch>)
    ensures
        0 <= shadow_id_budget(batches),
    decreases batches.len(),
{
    if batches.len() > 0 {
        lemma_budget_nonneg(batches.drop_last());
    }
}

proof fn lemma_budget_prefix(batches: Seq<Batch>, k: int)
    requires
        0 <= k <= batches.len(),
    ensures
        shadow_id_budget(batches.subrange(0, k)) <= shadow_id_budget(batches),
    decreases batches.len() - k,
{
    if k < batches.len() {
        lemma_budget_step(batches, k);
        lemma_budget_prefix(batches, k + 1);
        lemma_budget_nonneg(batches.subrange(0, k + 1));
        assert(batch_id_cost(batches[k]) >= 3);
    } else {
        assert(batches.subrange(0, k) =~= batches);
    }
}

/// A prefix's caster total never exceeds the whole total.
proof fn lemma_may_cast_total_prefix(batches: Seq<Batch>, graph: Graph, k: int)
    requires
        0 <= k <= batches.len(),
    ensures
        may_cast_total(batches.subrange(0, k), graph) <= may_cast_total(batches, graph),
    decreases batches.len() - k,
{
    if k < batches.len() {
        lemma_may_cast_total_step(batches, graph, k);
        lemma_may_cast_total_prefix(batches, graph, k + 1);
        lemma_may_cast_nonneg(batches[k].instances@, graph);
    } else {
        assert(batches.subrange(0, k) =~= batches);
    }
}

/// The caster total is bounded by the instance counts.
proof fn lemma_may_cast_total_bound(batches: Seq<Batch>, graph: Graph, per_batch: int)
    requires
        per_batch >= 0,
        forall|b: int|
            0 <= b < batches.len() ==> (#[trigger] batches[b]).instances@.len() <= per_batch,
    ensures
        0 <= may_cast_total(batches, graph) <= batches.len() * per_batch,
    decreases batches.len(),
{
    if batches.len() > 0 {
        lemma_may_cast_total_bound(batches.drop_last(), graph, per_batch);
        lemma_may_cast_nonneg(batches.last().instances@, graph);
        assert((batches.len() - 1) * per_batch + per_batch == batches.len() * per_batch)
            by (nonlinear_arith);
    }
}

/// The cube-map face of an index, in the order the pass walks them.
pub fn face_from_index(i: usize) -> (r: CubeMapFace)
    requires
        i < 6,
    ensures
        r == index_face(i as int),
{
    if i == 0 {
        CubeMapFace::PositiveX
    } else if i == 1 {
        CubeMapFace::NegativeX
    } else if i == 2 {
        CubeMapFace::PositiveY
    } else if i == 3 {
        CubeMapFace::NegativeY
    } else if i == 4 {
        CubeMapFace::PositiveZ
    } else {
        CubeMapFace::NegativeZ
    }
}

/// The face walked at each index.
pub open spec fn index_face(i: int) -> CubeMapFace {
    if i == 0 {
        CubeMapFace::PositiveX
    } else if i == 1 {
        CubeMapFace::NegativeX
    } else if i == 2 {
        CubeMapFace::PositiveY
    } else if i == 3 {
        CubeMapFace::NegativeY
    } else if i == 4 {
        CubeMapFace::PositiveZ
    } else {
        CubeMapFace::NegativeZ
    }
}

/// An executable view-projection product whose factors match the
/// face's spec matrices equals the face's spec view-projection.
#[verifier::spinoff_prover]
proof fn lemma_face_vp_value(
    lvp: Mat4,
    projection: Mat4,
    view: Mat4,
    eye: FxVec3,
    radius: Fx,
    face: CubeMapFace,
)
    requires
        projection == face_projection_spec(radius),
        view == face_view_spec(eye, face),
        forall|i: int, j: int|
            0 <= i < 4 && 0 <= j < 4 ==> #[trigger] lvp.m[j * 4 + i].raw
                == crate::math::mat_mul_entry_raw(projection, view, i, j),
    ensures
        lvp == face_view_projection_spec(eye, radius, face),
{
    let svp = face_view_projection_spec(eye, radius, face);
    assert(lvp.m[0] == svp.m[0]) by {
        assert(lvp.m[0int * 4 + 0].raw == crate::math::mat_mul_entry_raw(projection, view, 0, 0));
    };
    assert(lvp.m[1] == svp.m[1]) by {
        assert(lvp.m[0int * 4 + 1].raw == crate::math::mat_mul_entry_raw(projection, view, 1, 0));
    };
    assert(lvp.m[2] == svp.m[2]) by {
        assert(lvp.m[0int * 4 + 2].raw == crate::math::mat_mul_entry_raw(projection, view, 2, 0));
    };
    assert(lvp.m[3] == svp.m[3]) by {
        assert(lvp.m[0int * 4 + 3].raw == crate::math::mat_mul_entry_raw(projection, view, 3, 0));
    };
    assert(lvp.m[4] == svp.m[4]) by {
        assert(lvp.m[1int * 4 + 0].raw == crate::math::mat_mul_entry_raw(projection, view, 0, 1));
    };
    assert(lvp.m[5] == svp.m[5]) by {
        assert(lvp.m[1int * 4 + 1].raw == crate::math::mat_mul_entry_raw(projection, view, 1, 1));
    };
    assert(lvp.m[6] == svp.m[6]) by {
        assert(lvp.m[1int * 4 + 2].raw == crate::math::mat_mul_entry_raw(projection, view, 2, 1));
    };
    assert(lvp.m[7] == svp.m[7]) by {
        assert(lvp.m[1int * 4 + 3].raw == crate::math::mat_mul_entry_raw(projection, view, 3, 1));
    };
    assert(lvp.m[8] == svp.m[8]) by {
        assert(lvp.m[2int * 4 + 0].raw == crate::math::mat_mul_entry_raw(projection, view, 0, 2));
    };
    assert(lvp.m[9] == svp.m[9]) by {
        assert(lvp.m[2int * 4 + 1].raw == crate::math::mat_mul_entry_raw(projection, view, 1, 2));
    };
    assert(lvp.m[10] == svp.m[10]) by {
        assert(lvp.m[2int * 4 + 2].raw == crate::math::mat_mul_entry_raw(projection, view, 2, 2));
    };
    assert(lvp.m[11] == svp.m[11]) by {
        assert(lvp.m[2int * 4 + 3].raw == crate::math::mat_mul_entry_raw(projection, view, 3, 2));
    };
    assert(lvp.m[12] == svp.m[12]) by {
        assert(lvp.m[3int * 4 + 0].raw == crate::math::mat_mul_entry_raw(projection, view, 0, 3));
    };
    assert(lvp.m[13] == svp.m[13]) by {
        assert(lvp.m[3int * 4 + 1].raw == crate::math::mat_mul_entry_raw(projection, view, 1, 3));
    };
    assert(lvp.m[14] == svp.m[14]) by {
        assert(lvp.m[3int * 4 + 2].raw == crate::math::mat_mul_entry_raw(projection, view, 2, 3));
    };
    assert(lvp.m[15] == svp.m[15]) by {
        assert(lvp.m[3int * 4 + 3].raw == crate::math::mat_mul_entry_raw(projection, view, 3, 3));
    };
    assert(lvp.m =~= svp.m);
}

/// Whether a batch resolves for the shadow pass against a shader-cache
/// state: both of its snapshots are loaded and the cached shader set of
/// its material carries a PointShadow pass.
pub open spec fn batch_shadow_ready(b: Batch, sh: Seq<CacheEntry<ShaderSet>>) -> bool {
    &&& b.material.data is Some
    &&& b.data.data is Some
    &&& store_lookup(sh, b.material.handle) matches Some(e) && pass_find(
        e.value.passes@,
        RenderPassKind::PointShadow,
        0,
    ) < e.value.passes@.len()
}

/// How many draws one batch contributes to one face: its visible
/// instances when it resolves, nothing otherwise.
pub open spec fn batch_face_draws(
    b: Batch,
    sh: Seq<CacheEntry<ShaderSet>>,
    graph: Graph,
    fr: Frustum,
) -> int {
    if batch_shadow_ready(b, sh) {
        visible_count(b.instances@, graph, fr)
    } else {
        0
    }
}

/// How many draws all batches contribute to one face.
pub open spec fn face_draw_total(
    batches: Seq<Batch>,
    sh: Seq<CacheEntry<ShaderSet>>,
    graph: Graph,
    fr: Frustum,
) -> int
    decreases batches.len(),
{
    if batches.len() == 0 {
        0
    } else {
        face_draw_total(batches.drop_last(), sh, graph, fr) + batch_face_draws(
            batches.last(),
            sh,
            graph,
            fr,
        )
    }
}

proof fn lemma_face_total_step(
    batches: Seq<Batch>,
    sh: Seq<CacheEntry<ShaderSet>>,
    graph: Graph,
    fr: Frustum,
    k: int,
)
    requires
        0 <= k < batches.len(),
    ensures
        face_draw_total(batches.subrange(0, k + 1), sh, graph, fr) == face_draw_total(
            batches.subrange(0, k),
            sh,
            graph,
            fr,
        ) + batch_face_draws(batches[k], sh, graph, fr),
{
    assert(batches.subrange(0, k + 1).drop_last() =~= batches.subrange(0, k));
    assert(batches.subrange(0, k + 1).last() == batches[k]);
}

/// Draws of the first `n` faces, in face order.
pub open spec fn shadow_total_upto(
    n: int,
    batches: Seq<Batch>,
    sh: Seq<CacheEntry<ShaderSet>>,
    graph: Graph,
    eye: FxVec3,
    radius: Fx,
) -> int
    decreases n,
{
    if n <= 0 {
        0
    } else {
        shadow_total_upto(n - 1, batches, sh, graph, eye, radius) + face_draw_total(
            batches,
            sh,
            graph,
            face_frustum_spec(eye, radius, index_face(n - 1)),
        )
    }
}

/// The exact number of draws the shadow pass performs for one light:
/// over all six faces, the visible instances of every resolving batch,
/// judged against that face's frustum.
pub open spec fn shadow_draw_total(
    batches: Seq<Batch>,
    sh: Seq<CacheEntry<ShaderSet>>,
    graph: Graph,
    eye: FxVec3,
    radius: Fx,
) -> int {
    shadow_total_upto(6, batches, sh, graph, eye, radius)
}

/// The viewport every face of a cascade is rendered into.
pub open spec fn shadow_viewport(size: int, cascade: int) -> Rect {
    Rect {
        x: 0,
        y: 0,
        w: cascade_size_spec(size, cascade) as i32,
        h: cascade_size_spec(size, cascade) as i32,
    }
}

/// Renders the six cube faces of one point light at one of three
/// quality cascades.
pub struct PointShadowMapRenderer {
    pub precision: ShadowMapPrecision,
    pub cascades: Vec<FrameBuffer>,
    pub size: usize,
}

/// Well-formedness: three cascades, each with a cube-map colour
/// attachment (so faces can be selected) behind a depth attachment.
pub open spec fn shadow_wf(r: PointShadowMapRenderer) -> bool {
    &&& r.cascades@.len() == 3
    &&& forall|i: int|
        0 <= i < 3 ==> (#[trigger] r.cascades@[i]).color_attachments@.len() == 1
            && r.cascades@[i].color_attachments@[0].texture.kind is Cube
}

/// The shape every cascade is built with: one cube colour map of the
/// cascade's size at half-float precision, behind a square depth
/// texture of the same size at the chosen precision.
pub open spec fn cascade_shape(fb: FrameBuffer, size: int, precision: ShadowMapPrecision) -> bool {
    &&& fb.color_attachments@.len() == 1
    &&& fb.color_attachments@[0].texture.kind == (GpuTextureKind::Cube {
        width: size as usize,
        height: size as usize,
    })
    &&& fb.color_attachments@[0].texture.pixel_kind == PixelKind::F16
    &&& fb.depth_attachment matches Some(depth) && depth.texture.kind
        == (GpuTextureKind::Rectangle { width: size as usize, height: size as usize })
        && depth.texture.pixel_kind == (match precision {
        ShadowMapPrecision::Full => PixelKind::D32F,
        ShadowMapPrecision::Half => PixelKind::D16,
    })
}

/// Builds one cascade: a square depth texture and a cube colour map of
/// the same size behind one framebuffer.
fn make_cascade(
    state: &mut PipelineState,
    size: usize,
    precision: ShadowMapPrecision,
) -> (r: Result<FrameBuffer, FrameworkError>)
    requires
        old(state).next_id as int + 4 < 0x1_0000_0000,
    ensures
        r is Ok,
        r is Ok ==> {
            &&& cascade_shape(r->Ok_0, size as int, precision)
            &&& final(state).next_id <= old(state).next_id + 3
            &&& final(state).cache == old(state).cache
            &&& draw_seq(final(state).commands@) == draw_seq(old(state).commands@)
        },
{
    let depth_kind = match precision {
        ShadowMapPrecision::Full => PixelKind::D32F,
        ShadowMapPrecision::Half => PixelKind::D16,
    };
    let mut depth = match GpuTexture::new(
        state,
        GpuTextureKind::Rectangle { width: size, height: size },
        depth_kind,
        MinificationFilter::Nearest,
        MagnificationFilter::Nearest,
        1,
        None,
    ) {
        Ok(t) => t,
        Err(e) => {
            proof {
                assert(false);
            }
            return Err(e);
        },
    };
    depth.set_minification_filter(state, MinificationFilter::Nearest);
    depth.set_magnification_filter(state, MagnificationFilter::Nearest);
    depth.set_wrap(state, Coordinate::S, WrapMode::ClampToEdge);
    depth.set_wrap(state, Coordinate::T, WrapMode::ClampToEdge);
    let cube_map = match GpuTexture::new(
        state,
        GpuTextureKind::Cube { width: size, height: size },
        PixelKind::F16,
        MinificationFilter::Linear,
        MagnificationFilter::Linear,
        1,
        None,
    ) {
        Ok(t) => t,
        Err(e) => {
            proof {
                assert(false);
            }
            return Err(e);
        },
    };
    cube_map.set_wrap(state, Coordinate::S, WrapMode::ClampToEdge);
    cube_map.set_wrap(state, Coordinate::T, WrapMode::ClampToEdge);
    cube_map.set_wrap(state, Coordinate::R, WrapMode::ClampToEdge);
    let mut colors: Vec<Attachment> = Vec::new();
    colors.push(Attachment { kind: AttachmentKind::Color, texture: cube_map });
    let fb = match FrameBuffer::new(
        state,
        Some(Attachment { kind: AttachmentKind::Depth, texture: depth }),
        colors,
    ) {
        Ok(f) => f,
        Err(e) => {
            proof {
                assert(false);
            }
            return Err(e);
        },
    };
    Ok(fb)
}

impl PointShadowMapRenderer {
    /// Builds the three cascade framebuffers (base, half and quarter
    /// resolution) at the chosen precision.
    pub fn new(
        state: &mut PipelineState,
        size: usize,
        precision: ShadowMapPrecision,
    ) -> (r: Result<PointShadowMapRenderer, FrameworkError>)
        requires
            1 <= size <= 16384,
            old(state).next_id as int + 16 < 0x1_0000_0000,
        ensures
            r is Ok,
            r is Ok ==> {
                &&& shadow_wf(r->Ok_0)
                &&& r->Ok_0.size == size
                &&& r->Ok_0.precision == precision
                &&& forall|i: int|
                    0 <= i < 3 ==> cascade_shape(
                        #[trigger] r->Ok_0.cascades@[i],
                        cascade_size_spec(size as int, i),
                        precision,
                    )
                &&& final(state).cache == old(state).cache
                &&& draw_seq(final(state).commands@) == draw_seq(old(state).commands@)
            },
    {
        let c0 = match make_cascade(state, cascade_size(size, 0), precision) {
            Ok(f) => f,
            Err(e) => {
                proof {
                    assert(false);
                }
                return Err(e);
            },
        };
        let c1 = match make_cascade(state, cascade_size(size, 1), precision) {
            Ok(f) => f,
            Err(e) => {
                proof {
                    assert(false);
                }
                return Err(e);
            },
        };
        let c2 = match make_cascade(state, cascade_size(size, 2), precision) {
            Ok(f) => f,
            Err(e) => {
                proof {
                    assert(false);
                }
                return Err(e);
            },
        };
        let mut cascades: Vec<FrameBuffer> = Vec::new();
        cascades.push(c0);
        cascades.push(c1);
        cascades.push(c2);
        Ok(PointShadowMapRenderer { precision, cascades, size })
    }

    /// The base (cascade zero) resolution.
    pub fn base_size(&self) -> (r: usize)
        ensures
            r == self.size,
    {
        self.size
    }

    /// The depth precision the cascades were built with.
    pub fn precision(&self) -> (r: ShadowMapPrecision)
        ensures
            r == self.precision,
    {
        self.precision
    }

    /// The cube-map texture of one cascade, for the lighting pass to
    /// read.
    pub fn cascade_texture(&self, cascade: usize) -> (r: u32)
        requires
            shadow_wf(*self),
            cascade < 3,
        ensures
            r == self.cascades@[cascade as int].color_attachments@[0].texture.id,
    {
        self.cascades[cascade].color_attachments()[0].texture.id()
    }

    /// Renders all six cube faces of the light at the chosen cascade.
    /// Each batch's shader and geometry resolve once through the caches
    /// (lookups of an unchanged handle are idempotent, so per-face
    /// resolution would return the same objects); a batch whose material
    /// lacks a PointShadow pass, or whose snapshots are unloaded, is
    /// silently skipped and contributes no draws. Each face is selected
    /// on the cube map and cleared to white at depth one; every draw
    /// runs under the fixed shadow state (back faces culled, depth test
    /// and write on, no blending, no stencil), and the draw count equals
    /// exactly the per-face visible instances of the resolving batches.
    /// A handle names one immutable snapshot within the frame, which the
    /// two agreement preconditions state.
    #[verifier::rlimit(100)]
    #[verifier::spinoff_prover]
    pub fn render(
        &mut self,
        state: &mut PipelineState,
        graph: &Graph,
        light_pos: FxVec3,
        light_radius: Fx,
        geom_cache: &mut GeometryCache,
        cascade: usize,
        batch_storage: &BatchStorage,
        shader_cache: &mut ShaderCache,
    ) -> (stats: RenderPassStatistics)
        requires
            shadow_wf(*old(self)),
            cascade < 3,
            1 <= old(self).size <= 16384,
            store_wf(old(geom_cache).entries@),
            store_wf(old(shader_cache).entries@),
            old(geom_cache).builds as int + batch_storage.batches@.len()
                < 0xFFFF_FFFF_FFFF_FFFF,
            old(shader_cache).builds as int + batch_storage.batches@.len()
                < 0xFFFF_FFFF_FFFF_FFFF,
            old(state).next_id as int + shadow_id_budget(batch_storage.batches@)
                < 0xFFFF_FFFF,
            batch_storage.batches@.len() <= 0x1000,
            forall|b: int|
                0 <= b < batch_storage.batches@.len() ==> (#[trigger] batch_storage.batches@[b]).instances@.len()
                    <= 0x4000,
            forall|a: int, c: int|
                0 <= a < batch_storage.batches@.len() && 0 <= c < batch_storage.batches@.len()
                    && (#[trigger] batch_storage.batches@[a]).material.handle == (
                #[trigger] batch_storage.batches@[c]).material.handle
                    ==> batch_storage.batches@[a].material == batch_storage.batches@[c].material,
            forall|a: int, c: int|
                0 <= a < batch_storage.batches@.len() && 0 <= c < batch_storage.batches@.len()
                    && (#[trigger] batch_storage.batches@[a]).data.handle == (
                #[trigger] batch_storage.batches@[c]).data.handle
                    ==> batch_storage.batches@[a].data == batch_storage.batches@[c].data,
        ensures
            *final(self) == *old(self),
            store_wf(final(geom_cache).entries@),
            store_wf(final(shader_cache).entries@),
            stats.draw_calls as int == shadow_draw_total(
                batch_storage.batches@,
                final(shader_cache).entries@,
                *graph,
                light_pos,
                light_radius,
            ),
            draw_seq(final(state).commands@).len() == draw_seq(old(state).commands@).len()
                + stats.draw_calls,
            final(state).commands@.subrange(0, old(state).commands@.len() as int) == old(
                state,
            ).commands@,
            forall|j: int|
                draw_seq(old(state).commands@).len() <= j < draw_seq(
                    final(state).commands@,
                ).len() ==> ((#[trigger] draw_seq(final(state).commands@)[j])
                    matches DeviceCommand::Draw { framebuffer, params, .. } && framebuffer == old(
                    self,
                ).cascades@[cascade as int].id && params == shadow_pass_params()),
            forall|f: int|
                #![trigger index_face(f)]
                0 <= f < 6 ==> exists|j: int, k: int|
                    old(state).commands@.len() <= j < k < final(state).commands@.len()
                        && final(state).commands@[j] == (DeviceCommand::SetCubeMapFace {
                        framebuffer: old(self).cascades@[cascade as int].id,
                        face: index_face(f),
                    }) && final(state).commands@[k] == (DeviceCommand::ClearTarget {
                        framebuffer: old(self).cascades@[cascade as int].id,
                        viewport: shadow_viewport(old(self).size as int, cascade as int),
                        color: Some(crate::math::Color { r: 255, g: 255, b: 255, a: 255 }),
                        depth: Some(Fx { raw: FX_ONE }),
                        stencil: None,
                    }),
            forall|p: int|
                #![trigger final(state).commands@[p]]
                old(state).commands@.len() <= p < final(state).commands@.len()
                    && final(state).commands@[p] is Draw ==> shadow_pass_draw_sourced(
                    final(state).commands@,
                    p,
                    batch_storage.batches@,
                    *graph,
                    light_pos,
                    light_radius,
                ),
    {
        let ghost batches_seq = batch_storage.batches@;
        let ghost n0 = state.next_id;
        let ghost base = state.commands@;
        proof {
            lemma_budget_nonneg(batches_seq);
            assert(batches_seq.subrange(0, 0) =~= Seq::<Batch>::empty());
        }
        let mut resolved: Vec<Option<(u32, GeometryBuffer)>> = Vec::new();
        let mut bi: usize = 0;
        while bi < batch_storage.batches.len()
            invariant
                bi <= batch_storage.batches@.len(),
                batch_storage.batches@ == batches_seq,
                batches_seq.len() <= 0x1000,
                resolved@.len() == bi,
                store_wf(geom_cache.entries@),
                store_wf(shader_cache.entries@),
                geom_cache.builds as int <= old(geom_cache).builds + bi,
                shader_cache.builds as int <= old(shader_cache).builds + bi,
                old(geom_cache).builds as int + batches_seq.len() < 0xFFFF_FFFF_FFFF_FFFF,
                old(shader_cache).builds as int + batches_seq.len() < 0xFFFF_FFFF_FFFF_FFFF,
                state.next_id as int <= n0 + shadow_id_budget(batches_seq.subrange(0, bi as int)),
                n0 + shadow_id_budget(batches_seq) < 0xFFFF_FFFF,
                state.commands@.len() >= base.len(),
                state.commands@.subrange(0, base.len() as int) == base,
                draw_seq(state.commands@) == draw_seq(base),
                forall|b: int|
                    0 <= b < bi ==> ((#[trigger] resolved@[b]) is Some <==> batch_shadow_ready(
                        batches_seq[b],
                        shader_cache.entries@,
                    )),
                forall|b: int|
                    0 <= b < bi && (#[trigger] batches_seq[b]).material.data is Some
                        ==> store_hit(
                        shader_cache.entries@,
                        batches_seq[b].material.handle,
                        batches_seq[b].material.version,
                    ),
                forall|a: int, c: int|
                    0 <= a < batches_seq.len() && 0 <= c < batches_seq.len() && (
                    #[trigger] batches_seq[a]).material.handle == (
                    #[trigger] batches_seq[c]).material.handle ==> batches_seq[a].material
                        == batches_seq[c].material,
            decreases batches_seq.len() - bi,
        {
            proof {
                lemma_budget_step(batches_seq, bi as int);
                lemma_budget_prefix(batches_seq, bi as int + 1);
                lemma_budget_nonneg(batches_seq.subrange(0, bi as int));
            }
            let batch = &batch_storage.batches[bi];
            let ghost pre = state.commands@;
            let ghost pre_sh = shader_cache.entries@;
            let has_shader = shader_cache.get(state, &batch.material);
            proof {
                assert(state.commands@.subrange(0, pre.len() as int) =~= pre);
                crate::framework::state::lemma_prefix_trans(base, pre, state.commands@);
                // Earlier batches keep their resolution against the new
                // cache state: a repeated handle is an identical
                // snapshot (so the lookup hit and changed nothing), and
                // a different handle's entry is untouched.
                if batch.material.data is Some && !store_hit(
                    pre_sh,
                    batch.material.handle,
                    batch.material.version,
                ) {
                    lemma_store_find_char(shader_cache.entries@, batch.material.handle, 0);
                }
                assert forall|b: int|
                    0 <= b < bi && (#[trigger] batches_seq[b]).material.handle
                        != batch.material.handle implies store_lookup(
                    shader_cache.entries@,
                    batches_seq[b].material.handle,
                ) == store_lookup(pre_sh, batches_seq[b].material.handle) by {
                    let hb = batches_seq[b].material.handle;
                    if batch.material.data is None {
                        lemma_store_evict_lookup(pre_sh, batch.material.handle, hb);
                    } else if !store_hit(
                        pre_sh,
                        batch.material.handle,
                        batch.material.version,
                    ) {
                        let e = shader_cache.entries@[store_find(
                            shader_cache.entries@,
                            batch.material.handle,
                            0,
                        )];
                        lemma_store_put_lookup(pre_sh, e, hb);
                    }
                };
            }
            let program = if has_shader {
                shader_cache.pass_program(batch.material.handle, RenderPassKind::PointShadow)
            } else {
                None
            };
            let ghost pre = state.commands@;
            let geometry = geom_cache.get(state, &batch.data);
            proof {
                assert(state.commands@.subrange(0, pre.len() as int) =~= pre);
                crate::framework::state::lemma_prefix_trans(base, pre, state.commands@);
            }
            match (program, geometry) {
                (Some(p), Some(g)) => {
                    resolved.push(Some((p, g)));
                },
                _ => {
                    resolved.push(None);
                },
            }
            bi = bi + 1;
            proof {
                lemma_store_find_char(shader_cache.entries@, batch.material.handle, 0);
            }
        }
        proof {
            assert(batches_seq.subrange(0, batches_seq.len() as int) =~= batches_seq);
        }
        let ghost sh_end = shader_cache.entries@;
        let framebuffer = &self.cascades[cascade];
        let view_size = cascade_size(self.size, cascade);
        let view_size_i32: i32 = if view_size > 0x7FFF {
            0x7FFF
        } else {
            view_size as i32
        };
        let viewport = Rect { x: 0, y: 0, w: view_size_i32, h: view_size_i32 };
        proof {
            assert(viewport == shadow_viewport(self.size as int, cascade as int));
        }
        let projection = face_projection_matrix(light_radius);
        let mut draws: usize = 0;
        let mut tris: usize = 0;
        let mut fi: usize = 0;
        proof {
            assert forall|p: int|
                base.len() <= p < state.commands@.len() implies !((#[trigger] state.commands@[p])
                is Draw) by {
                crate::framework::state::lemma_draw_seq_same_len_no_draws(
                    base,
                    state.commands@,
                    p,
                );
            }
        }
        while fi < 6
            invariant
                fi <= 6,
                batch_storage.batches@ == batches_seq,
                batches_seq.len() <= 0x1000,
                resolved@.len() == batches_seq.len(),
                forall|b: int|
                    0 <= b < batches_seq.len() ==> (#[trigger] batches_seq[b]).instances@.len()
                        <= 0x4000,
                forall|b: int|
                    0 <= b < batches_seq.len() ==> ((#[trigger] resolved@[b]) is Some
                        <==> batch_shadow_ready(batches_seq[b], sh_end)),
                shader_cache.entries@ == sh_end,
                *self == *old(self),
                shadow_wf(*self),
                cascade < 3,
                1 <= self.size <= 16384,
                framebuffer == &self.cascades@[cascade as int],
                viewport == shadow_viewport(self.size as int, cascade as int),
                projection == face_projection_spec(light_radius),
                draws as int == shadow_total_upto(
                    fi as int,
                    batches_seq,
                    sh_end,
                    *graph,
                    light_pos,
                    light_radius,
                ),
                draws as int <= fi as int * 0x400_0000,
                state.commands@.len() >= base.len(),
                state.commands@.subrange(0, base.len() as int) == base,
                base == old(state).commands@,
                draw_seq(state.commands@).len() == draw_seq(base).len() + draws,
                forall|j: int|
                    draw_seq(base).len() <= j < draw_seq(state.commands@).len() ==> ((
                    #[trigger] draw_seq(state.commands@)[j])
                        matches DeviceCommand::Draw { framebuffer: fbid, params, .. } && fbid
                        == self.cascades@[cascade as int].id && params == shadow_pass_params()),
                forall|f: int|
                    #![trigger index_face(f)]
                    0 <= f < fi ==> exists|j: int, k: int|
                        base.len() <= j < k < state.commands@.len() && state.commands@[j] == (
                        DeviceCommand::SetCubeMapFace {
                            framebuffer: self.cascades@[cascade as int].id,
                            face: index_face(f),
                        }) && state.commands@[k] == (DeviceCommand::ClearTarget {
                            framebuffer: self.cascades@[cascade as int].id,
                            viewport: shadow_viewport(self.size as int, cascade as int),
                            color: Some(crate::math::Color { r: 255, g: 255, b: 255, a: 255 }),
                            depth: Some(Fx { raw: FX_ONE }),
                            stencil: None,
                        }),
                forall|p: int|
                    #![trigger state.commands@[p]]
                    base.len() <= p < state.commands@.len() && state.commands@[p] is Draw
                        ==> shadow_pass_draw_sourced(
                        state.commands@,
                        p,
                        batch_storage.batches@,
                        *graph,
                        light_pos,
                        light_radius,
                    ),
            decreases 6 - fi,
        {
            let ghost pre = state.commands@;
            let face_counts = render_face(
                state,
                framebuffer,
                viewport,
                projection,
                fi,
                &resolved,
                batch_storage,
                graph,
                light_pos,
                light_radius,
                Ghost(sh_end),
            );
            let c_draws = face_counts.0;
            let c_tris = face_counts.1;
            proof {
                crate::framework::state::lemma_prefix_trans(base, pre, state.commands@);
                let cur = state.commands@;
                assert(c_draws as int <= 0x400_0000 && draws as int + c_draws as int <= (fi as int
                    + 1) * 0x400_0000 && draws as int + c_draws as int <= 0x1800_0000)
                    by (nonlinear_arith)
                    requires
                        draws as int <= fi as int * 0x400_0000,
                        c_draws as int <= batches_seq.len() * 0x4000,
                        batches_seq.len() <= 0x1000,
                        0 <= fi < 6,
                        0 <= draws,
                        0 <= c_draws,
                ;
                // Every earlier face's selection and clear survive the
                // append; this face's sit where render_face put them.
                assert forall|f: int|
                    #![trigger index_face(f)]
                    0 <= f < fi as int + 1 implies exists|j: int, k: int|
                    base.len() <= j < k < cur.len() && cur[j] == (DeviceCommand::SetCubeMapFace {
                        framebuffer: self.cascades@[cascade as int].id,
                        face: index_face(f),
                    }) && cur[k] == (DeviceCommand::ClearTarget {
                        framebuffer: self.cascades@[cascade as int].id,
                        viewport: shadow_viewport(self.size as int, cascade as int),
                        color: Some(crate::math::Color { r: 255, g: 255, b: 255, a: 255 }),
                        depth: Some(Fx { raw: FX_ONE }),
                        stencil: None,
                    }) by {
                    if f < fi as int {
                        let (j, k) = choose|j: int, k: int|
                            base.len() <= j < k < pre.len() && pre[j] == (
                            DeviceCommand::SetCubeMapFace {
                                framebuffer: self.cascades@[cascade as int].id,
                                face: index_face(f),
                            }) && pre[k] == (DeviceCommand::ClearTarget {
                                framebuffer: self.cascades@[cascade as int].id,
                                viewport: shadow_viewport(self.size as int, cascade as int),
                                color: Some(
                                    crate::math::Color { r: 255, g: 255, b: 255, a: 255 },
                                ),
                                depth: Some(Fx { raw: FX_ONE }),
                                stencil: None,
                            });
                        assert(cur[j] == cur.subrange(0, pre.len() as int)[j]);
                        assert(cur[k] == cur.subrange(0, pre.len() as int)[k]);
                    } else {
                        let k = choose|k: int|
                            pre.len() < k < cur.len() && cur[k] == (DeviceCommand::ClearTarget {
                                framebuffer: framebuffer.id,
                                viewport,
                                color: Some(
                                    crate::math::Color { r: 255, g: 255, b: 255, a: 255 },
                                ),
                                depth: Some(Fx { raw: FX_ONE }),
                                stencil: None,
                            });
                        assert(cur[pre.len() as int] == (DeviceCommand::SetCubeMapFace {
                            framebuffer: self.cascades@[cascade as int].id,
                            face: index_face(f),
                        }));
                    }
                }
                // Earlier draws keep their source blocks; the new ones
                // carry this face's.
                assert forall|p: int|
                    #![trigger cur[p]]
                    base.len() <= p < cur.len() && cur[p] is Draw implies shadow_pass_draw_sourced(
                    cur,
                    p,
                    batch_storage.batches@,
                    *graph,
                    light_pos,
                    light_radius,
                ) by {
                    if p < pre.len() {
                        assert(cur[p] == cur.subrange(0, pre.len() as int)[p]);
                        assert(pre[p] is Draw);
                        lemma_sourced_stable(
                            pre,
                            cur,
                            p,
                            batch_storage.batches@,
                            *graph,
                            light_pos,
                            light_radius,
                        );
                    } else {
                        let (b, q, prog) = choose|b: int, q: int, prog: u32|
                            #![trigger shadow_uniform_block(cur, p, prog, face_view_projection_spec(light_pos, light_radius, index_face(fi as int)), batch_storage.batches@[b].instances@[q], batch_storage.batches@[b].is_skinned, light_pos)]
                            0 <= b < batch_storage.batches@.len() && 0 <= q
                                < batch_storage.batches@[b].instances@.len() && instance_visible(
                                batch_storage.batches@[b].instances@[q],
                                *graph,
                                face_frustum_spec(light_pos, light_radius, index_face(fi as int)),
                            ) && shadow_uniform_block(
                                cur,
                                p,
                                prog,
                                face_view_projection_spec(
                                    light_pos,
                                    light_radius,
                                    index_face(fi as int),
                                ),
                                batch_storage.batches@[b].instances@[q],
                                batch_storage.batches@[b].is_skinned,
                                light_pos,
                            );
                        assert(0 <= (fi as int) && (fi as int) < 6);
                        assert(shadow_pass_draw_sourced(
                            cur,
                            p,
                            batch_storage.batches@,
                            *graph,
                            light_pos,
                            light_radius,
                        ));
                    }
                }
            }
            draws = draws + c_draws;
            tris = if c_tris > usize::MAX - tris {
                usize::MAX
            } else {
                tris + c_tris
            };
            fi = fi + 1;
            proof {
                assert(draws as int == shadow_total_upto(
                    fi as int,
                    batches_seq,
                    sh_end,
                    *graph,
                    light_pos,
                    light_radius,
                ));
            }
        }
        RenderPassStatistics { draw_calls: draws, triangles_rendered: tris }
    }
}

} // verus!
