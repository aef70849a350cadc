//! Framebuffer wrapper: zero-or-one depth attachment plus colour
//! attachments of one common size, and the draw entry point every pass
//! goes through.

use vstd::prelude::*;
use crate::fixed::Fx;
use crate::framework::error::FrameworkError;
use crate::framework::geometry_buffer::{DrawCallStatistics, GeometryBuffer};
use crate::framework::gpu_program::{GpuProgram, UniformLocation};
use crate::framework::gpu_texture::{kind_size, CubeMapFace, GpuTexture, GpuTextureKind};
use crate::framework::state::{
    draw_seq, DeviceCommand, DrawParameters, PipelineState, RenderState, UniformValue,
};
use crate::math::{Color, Rect};

verus! {

/// What an attachment is used for.
#[derive(Clone, Copy, Debug, PartialEq, Eq, Structural)]
pub enum AttachmentKind {
    Color,
    Depth,
    DepthStencil,
}

/// One framebuffer attachment: a role and the texture backing it.
#[derive(Clone, Debug, PartialEq, Eq)]
pub struct Attachment {
    pub kind: AttachmentKind,
    pub texture: GpuTexture,
}

/// All attachments of a framebuffer share one size.
pub open spec fn attachments_same_size(
    depth: Option<Attachment>,
    colors: Seq<Attachment>,
) -> bool {
    ({
        let base = if depth is Some {
            kind_size(depth->0.texture.kind)
        } else if colors.len() > 0 {
            kind_size(colors[0].texture.kind)
        } else {
            (0, 0)
        };
        &&& (depth is Some ==> kind_size(depth->0.texture.kind) == base)
        &&& forall|i: int| 0 <= i < colors.len() ==> kind_size(#[trigger] colors[i].texture.kind) == base
    })
}

/// A device framebuffer object with its attachments. Draws against it
/// are restricted to a caller-supplied viewport rectangle.
#[derive(Clone, Debug, PartialEq, Eq)]
pub struct FrameBuffer {
    pub id: u32,
    pub depth_attachment: Option<Attachment>,
    pub color_attachments: Vec<Attachment>,
}

/// The draw call this module appends to the log for one draw: the
/// stencil fields snapshot the configuration the draw ran under.
pub open spec fn draw_command(
    fb: u32,
    geometry: u32,
    program: u32,
    params: DrawParameters,
    stencil_func: crate::framework::state::StencilFunc,
    stencil_op: crate::framework::state::StencilOp,
    stencil_mask: u32,
    start_triangle: int,
    triangle_count: int,
) -> DeviceCommand {
    DeviceCommand::Draw {
        framebuffer: fb,
        geometry,
        program,
        params,
        stencil_func,
        stencil_op,
        stencil_mask,
        start_triangle: start_triangle as usize,
        triangle_count: triangle_count as usize,
    }
}

/// The uniform commands one draw call issues, in list order, right
/// before its draw command.
pub open spec fn uniform_commands(us: Seq<(UniformLocation, UniformValue)>) -> Seq<DeviceCommand> {
    Seq::new(
        us.len(),
        |k: int|
            DeviceCommand::SetUniform { program: us[k].0.program, slot: us[k].0.slot, value: us[k].1 },
    )
}

impl FrameBuffer {
    /// Creates a framebuffer from attachments. Fails exactly when the
    /// attachments do not share one size (or the id space is spent).
    pub fn new(
        state: &mut PipelineState,
        depth_attachment: Option<Attachment>,
        color_attachments: Vec<Attachment>,
    ) -> (r: Result<FrameBuffer, FrameworkError>)
        ensures
            r is Ok <==> attachments_same_size(depth_attachment, color_attachments@) && old(
                state,
            ).next_id < 0xFFFF_FFFFu32,
            r is Ok ==> {
                &&& r->Ok_0.id == old(state).next_id
                &&& r->Ok_0.depth_attachment == depth_attachment
                &&& r->Ok_0.color_attachments@ == color_attachments@
                &&& final(state).next_id == old(state).next_id + 1
                &&& final(state).commands@.len() == old(state).commands@.len() + 1
                &&& final(state).commands@.subrange(0, old(state).commands@.len() as int) == old(
                    state,
                ).commands@
                &&& final(state).commands@.last() matches DeviceCommand::CreateFrameBuffer {
                    id,
                    ..
                } && id == old(state).next_id
                &&& final(state).cache == old(state).cache
                &&& draw_seq(final(state).commands@) == draw_seq(old(state).commands@)
            },
            !attachments_same_size(depth_attachment, color_attachments@) ==> r == Result::<
                FrameBuffer,
                FrameworkError,
            >::Err(FrameworkError::AttachmentSizeMismatch) && *final(state) == *old(state),
    {
        let (base_w, base_h) = if let Some(d) = &depth_attachment {
            size_of_kind(&d.texture.kind)
        } else if color_attachments.len() > 0 {
            size_of_kind(&color_attachments[0].texture.kind)
        } else {
            (0, 0)
        };
        let mut i: usize = 0;
        while i < color_attachments.len()
            invariant
                i <= color_attachments@.len(),
                forall|j: int|
                    0 <= j < i ==> kind_size(#[trigger] color_attachments@[j].texture.kind) == (
                    base_w as int,
                    base_h as int,
                ),
                (base_w as int, base_h as int) == if depth_attachment is Some {
                    kind_size(depth_attachment->0.texture.kind)
                } else if color_attachments@.len() > 0 {
                    kind_size(color_attachments@[0].texture.kind)
                } else {
                    (0int, 0int)
                },
            decreases color_attachments@.len() - i,
        {
            let (w, h) = size_of_kind(&color_attachments[i].texture.kind);
            if w != base_w || h != base_h {
                return Err(FrameworkError::AttachmentSizeMismatch);
            }
            i = i + 1;
        }
        if state.next_id == 0xFFFF_FFFFu32 {
            return Err(FrameworkError::TooManyObjects);
        }
        let id = state.alloc_id();
        let depth_texture = match &depth_attachment {
            Some(d) => Some(d.texture.id),
            None => None,
        };
        let mut color_textures: Vec<u32> = Vec::new();
        let mut k: usize = 0;
        while k < color_attachments.len()
            invariant
                k <= color_attachments@.len(),
            decreases color_attachments@.len() - k,
        {
            color_textures.push(color_attachments[k].texture.id);
            k = k + 1;
        }
        let ghost pre = state.commands@;
        state.push_command(
            DeviceCommand::CreateFrameBuffer { id, depth_texture, color_textures },
        );
        proof {
            assert(state.commands@.subrange(0, pre.len() as int) =~= pre);
        }
        Ok(FrameBuffer { id, depth_attachment, color_attachments })
    }

    /// The colour attachments.
    pub fn color_attachments(&self) -> (r: &Vec<Attachment>)
        ensures
            r@ == self.color_attachments@,
    {
        &self.color_attachments
    }

    /// The device id of the first colour attachment's texture: how later
    /// passes read what this framebuffer rendered.
    pub fn color_texture_id(&self) -> (r: Option<u32>)
        ensures
            self.color_attachments@.len() > 0 ==> r == Some(
                self.color_attachments@[0].texture.id,
            ),
            self.color_attachments@.len() == 0 ==> r is None,
    {
        if self.color_attachments.len() > 0 {
            Some(self.color_attachments[0].texture.id())
        } else {
            None
        }
    }

    /// Points the first colour attachment (a cube map) at one face.
    /// Fails exactly when the first colour attachment is not a cube map.
    pub fn set_cubemap_face(
        &self,
        state: &mut PipelineState,
        face: CubeMapFace,
    ) -> (r: Result<(), FrameworkError>)
        ensures
            r is Ok <==> self.color_attachments@.len() > 0
                && self.color_attachments@[0].texture.kind is Cube,
            r is Ok ==> final(state).commands@ == old(state).commands@.push(
                DeviceCommand::SetCubeMapFace { framebuffer: self.id, face },
            ) && final(state).cache == old(state).cache && final(state).next_id == old(
                state,
            ).next_id && draw_seq(final(state).commands@) == draw_seq(old(state).commands@),
            r is Err ==> r->Err_0 == FrameworkError::AttachmentNotCubeMap && *final(state) == *old(
                state,
            ),
    {
        if self.color_attachments.len() == 0 {
            return Err(FrameworkError::AttachmentNotCubeMap);
        }
        let is_cube = match &self.color_attachments[0].texture.kind {
            GpuTextureKind::Cube { .. } => true,
            _ => false,
        };
        if !is_cube {
            return Err(FrameworkError::AttachmentNotCubeMap);
        }
        state.push_command(DeviceCommand::SetCubeMapFace { framebuffer: self.id, face });
        Ok(())
    }

    /// Clears the given parts of this framebuffer inside `viewport`:
    /// binds the framebuffer (elided when already bound) and issues one
    /// clear call.
    pub fn clear(
        &self,
        state: &mut PipelineState,
        viewport: Rect,
        color: Option<Color>,
        depth: Option<Fx>,
        stencil: Option<u32>,
    )
        ensures
            final(state).cache == (RenderState { framebuffer: self.id, ..old(state).cache }),
            final(state).next_id == old(state).next_id,
            final(state).commands@ == if old(state).cache.framebuffer == self.id {
                old(state).commands@.push(
                    DeviceCommand::ClearTarget {
                        framebuffer: self.id,
                        viewport,
                        color,
                        depth,
                        stencil,
                    },
                )
            } else {
                old(state).commands@.push(DeviceCommand::BindFramebuffer(self.id)).push(
                    DeviceCommand::ClearTarget {
                        framebuffer: self.id,
                        viewport,
                        color,
                        depth,
                        stencil,
                    },
                )
            },
            draw_seq(final(state).commands@) == draw_seq(old(state).commands@),
    {
        state.set_framebuffer(self.id);
        state.push_command(
            DeviceCommand::ClearTarget { framebuffer: self.id, viewport, color, depth, stencil },
        );
    }

    /// Draws the whole bound triangle list of a geometry buffer into
    /// this framebuffer: binds target, viewport, draw parameters and
    /// program through the eliding state setters, issues the collected
    /// uniform values, and appends exactly one draw call.
    pub fn draw(
        &self,
        geometry: &GeometryBuffer,
        state: &mut PipelineState,
        viewport: Rect,
        program: &GpuProgram,
        params: &DrawParameters,
        uniforms: Vec<(UniformLocation, UniformValue)>,
    ) -> (stats: DrawCallStatistics)
        ensures
            stats.triangles == geometry.triangle_count,
            final(state).cache == (RenderState {
                framebuffer: self.id,
                viewport,
                program: Some(program.id),
                color_write: params.color_write,
                depth_write: params.depth_write,
                depth_test: params.depth_test,
                blend: params.blend,
                stencil_test: params.stencil_test,
                cull_face: params.cull_face,
                culling: params.culling,
                ..old(state).cache
            }),
            final(state).next_id == old(state).next_id,
            final(state).commands@.len() > old(state).commands@.len(),
            final(state).commands@.len() >= old(state).commands@.len() + uniforms@.len() + 1,
            final(state).commands@.subrange(0, old(state).commands@.len() as int) == old(
                state,
            ).commands@,
            final(state).commands@.last() == draw_command(
                self.id,
                geometry.id,
                program.id,
                *params,
                old(state).cache.stencil_func,
                old(state).cache.stencil_op,
                old(state).cache.stencil_mask,
                0,
                geometry.triangle_count as int,
            ),
            draw_seq(final(state).commands@) == draw_seq(old(state).commands@).push(
                draw_command(
                    self.id,
                    geometry.id,
                    program.id,
                    *params,
                    old(state).cache.stencil_func,
                    old(state).cache.stencil_op,
                    old(state).cache.stencil_mask,
                    0,
                    geometry.triangle_count as int,
                ),
            ),
            final(state).commands@.subrange(
                final(state).commands@.len() - 1 - uniforms@.len(),
                final(state).commands@.len() as int,
            ) == uniform_commands(uniforms@).push(
                draw_command(
                    self.id,
                    geometry.id,
                    program.id,
                    *params,
                    old(state).cache.stencil_func,
                    old(state).cache.stencil_op,
                    old(state).cache.stencil_mask,
                    0,
                    geometry.triangle_count as int,
                ),
            ),
    {
        self.draw_range(geometry, state, viewport, program, params, uniforms, 0, geometry.triangle_count)
    }

    /// Draws a triangle range of a geometry buffer; shared body of
    /// [`FrameBuffer::draw`] and [`FrameBuffer::draw_part`].
    fn draw_range(
        &self,
        geometry: &GeometryBuffer,
        state: &mut PipelineState,
        viewport: Rect,
        program: &GpuProgram,
        params: &DrawParameters,
        uniforms: Vec<(UniformLocation, UniformValue)>,
        first_triangle: usize,
        count: usize,
    ) -> (stats: DrawCallStatistics)
        ensures
            stats.triangles == count,
            final(state).cache == (RenderState {
                framebuffer: self.id,
                viewport,
                program: Some(program.id),
                color_write: params.color_write,
                depth_write: params.depth_write,
                depth_test: params.depth_test,
                blend: params.blend,
                stencil_test: params.stencil_test,
                cull_face: params.cull_face,
                culling: params.culling,
                ..old(state).cache
            }),
            final(state).next_id == old(state).next_id,
            final(state).commands@.len() > old(state).commands@.len(),
            final(state).commands@.len() >= old(state).commands@.len() + uniforms@.len() + 1,
            final(state).commands@.subrange(0, old(state).commands@.len() as int) == old(
                state,
            ).commands@,
            final(state).commands@.last() == draw_command(
                self.id,
                geometry.id,
                program.id,
                *params,
                old(state).cache.stencil_func,
                old(state).cache.stencil_op,
                old(state).cache.stencil_mask,
                first_triangle as int,
                count as int,
            ),
            draw_seq(final(state).commands@) == draw_seq(old(state).commands@).push(
                draw_command(
                    self.id,
                    geometry.id,
                    program.id,
                    *params,
                    old(state).cache.stencil_func,
                    old(state).cache.stencil_op,
                    old(state).cache.stencil_mask,
                    first_triangle as int,
                    count as int,
                ),
            ),
            final(state).commands@.subrange(
                final(state).commands@.len() - 1 - uniforms@.len(),
                final(state).commands@.len() as int,
            ) == uniform_commands(uniforms@).push(
                draw_command(
                    self.id,
                    geometry.id,
                    program.id,
                    *params,
                    old(state).cache.stencil_func,
                    old(state).cache.stencil_op,
                    old(state).cache.stencil_mask,
                    first_triangle as int,
                    count as int,
                ),
            ),
    {
        let ghost base = state.commands@;
        state.set_framebuffer(self.id);
        proof {
            assert(state.commands@.subrange(0, base.len() as int) =~= base);
        }
        let ghost s1 = state.commands@;
        state.set_viewport(viewport);
        proof {
            assert(state.commands@.subrange(0, base.len() as int) =~= s1.subrange(
                0,
                base.len() as int,
            ));
        }
        let ghost s2 = state.commands@;
        state.apply_draw_parameters(params);
        proof {
            assert(state.commands@.subrange(0, base.len() as int) =~= s2.subrange(
                0,
                base.len() as int,
            ));
        }
        let ghost s3 = state.commands@;
        state.set_program(Some(program.id));
        proof {
            assert(state.commands@.subrange(0, base.len() as int) =~= s3.subrange(
                0,
                base.len() as int,
            ));
        }
        let mut us = uniforms;
        let ghost orig = us@;
        let ghost s0 = state.commands@;
        let ghost mut done: int = 0;
        proof {
            assert(orig.subrange(0, orig.len() as int) =~= orig);
            assert(uniform_commands(orig.subrange(0, 0)) =~= Seq::<DeviceCommand>::empty());
            assert(state.commands@ =~= s0 + uniform_commands(orig.subrange(0, 0)));
        }
        while us.len() > 0
            invariant
                0 <= done <= orig.len(),
                done + us@.len() == orig.len(),
                us@ == orig.subrange(done, orig.len() as int),
                state.commands@ == s0 + uniform_commands(orig.subrange(0, done)),
                state.cache == (RenderState {
                    framebuffer: self.id,
                    viewport,
                    program: Some(program.id),
                    color_write: params.color_write,
                    depth_write: params.depth_write,
                    depth_test: params.depth_test,
                    blend: params.blend,
                    stencil_test: params.stencil_test,
                    cull_face: params.cull_face,
                    culling: params.culling,
                    ..old(state).cache
                }),
                state.next_id == old(state).next_id,
                state.commands@.len() >= base.len(),
                state.commands@.subrange(0, base.len() as int) == base,
                draw_seq(state.commands@) == draw_seq(base),
            decreases us.len(),
        {
            let ghost us_pre = us@;
            let (location, value) = us.remove(0);
            let ghost pre = state.commands@;
            state.push_command(
                DeviceCommand::SetUniform {
                    program: location.program,
                    slot: location.slot,
                    value,
                },
            );
            proof {
                assert(state.commands@.subrange(0, base.len() as int) =~= pre.subrange(
                    0,
                    base.len() as int,
                ));
                assert((location, value) == us_pre[0]);
                assert(us_pre[0] == orig[done]);
                done = done + 1;
                assert(us@ =~= orig.subrange(done, orig.len() as int));
                assert(state.commands@ =~= s0 + uniform_commands(orig.subrange(0, done)));
            }
        }
        let cmd = DeviceCommand::Draw {
            framebuffer: self.id,
            geometry: geometry.id,
            program: program.id,
            params: *params,
            stencil_func: state.cache.stencil_func,
            stencil_op: state.cache.stencil_op,
            stencil_mask: state.cache.stencil_mask,
            start_triangle: first_triangle,
            triangle_count: count,
        };
        let ghost pre = state.commands@;
        state.push_command(cmd);
        proof {
            assert(state.commands@.subrange(0, base.len() as int) =~= pre.subrange(
                0,
                base.len() as int,
            ));
            assert(orig.subrange(0, orig.len() as int) =~= orig);
            assert(state.commands@.subrange(
                state.commands@.len() - 1 - orig.len(),
                state.commands@.len() as int,
            ) =~= uniform_commands(orig).push(cmd));
        }
        DrawCallStatistics { triangles: count }
    }

    /// Draws part of a geometry buffer's triangle list. Fails exactly
    /// when the range lies outside the bound triangles; nothing is
    /// issued then.
    pub fn draw_part(
        &self,
        geometry: &GeometryBuffer,
        state: &mut PipelineState,
        viewport: Rect,
        program: &GpuProgram,
        params: &DrawParameters,
        uniforms: Vec<(UniformLocation, UniformValue)>,
        first_triangle: usize,
        count: usize,
    ) -> (r: Result<DrawCallStatistics, FrameworkError>)
        ensures
            r is Ok <==> first_triangle + count <= geometry.triangle_count,
            r is Err ==> r->Err_0 == (FrameworkError::InvalidElementRange {
                start: first_triangle,
                end: (if first_triangle + count <= usize::MAX {
                    (first_triangle + count) as usize
                } else {
                    usize::MAX
                }),
                total: geometry.triangle_count,
            }) && *final(state) == *old(state),
            r is Ok ==> {
                &&& r->Ok_0.triangles == count
                &&& final(state).cache == (RenderState {
                    framebuffer: self.id,
                    viewport,
                    program: Some(program.id),
                    color_write: params.color_write,
                    depth_write: params.depth_write,
                    depth_test: params.depth_test,
                    blend: params.blend,
                    stencil_test: params.stencil_test,
                    cull_face: params.cull_face,
                    culling: params.culling,
                    ..old(state).cache
                })
                &&& final(state).next_id == old(state).next_id
                &&& final(state).commands@.len() > old(state).commands@.len()
                &&& final(state).commands@.len() >= old(state).commands@.len() + uniforms@.len()
                    + 1
                &&& final(state).commands@.subrange(0, old(state).commands@.len() as int) == old(
                    state,
                ).commands@
                &&& final(state).commands@.last() == draw_command(
                    self.id,
                    geometry.id,
                    program.id,
                    *params,
                    old(state).cache.stencil_func,
                    old(state).cache.stencil_op,
                    old(state).cache.stencil_mask,
                    first_triangle as int,
                    count as int,
                )
                &&& draw_seq(final(state).commands@) == draw_seq(old(state).commands@).push(
                    draw_command(
                        self.id,
                        geometry.id,
                        program.id,
                        *params,
                        old(state).cache.stencil_func,
                        old(state).cache.stencil_op,
                        old(state).cache.stencil_mask,
                        first_triangle as int,
                        count as int,
                    ),
                )
                &&& final(state).commands@.subrange(
                    final(state).commands@.len() - 1 - uniforms@.len(),
                    final(state).commands@.len() as int,
                ) == uniform_commands(uniforms@).push(
                    draw_command(
                        self.id,
                        geometry.id,
                        program.id,
                        *params,
                        old(state).cache.stencil_func,
                        old(state).cache.stencil_op,
                        old(state).cache.stencil_mask,
                        first_triangle as int,
                        count as int,
                    ),
                )
            },
    {
        if first_triangle > geometry.triangle_count() || count > geometry.triangle_count()
            - first_triangle {
            return Err(
                FrameworkError::InvalidElementRange {
                    start: first_triangle,
                    end: if count <= usize::MAX - first_triangle {
                        first_triangle + count
                    } else {
                        usize::MAX
                    },
                    total: geometry.triangle_count(),
                },
            );
        }
        Ok(self.draw_range(geometry, state, viewport, program, params, uniforms, first_triangle, count))
    }
}

/// Executable twin of [`kind_size`].
fn size_of_kind(kind: &GpuTextureKind) -> (r: (usize, usize))
    ensures
        (r.0 as int, r.1 as int) == kind_size(*kind),
{
    match kind {
        GpuTextureKind::Rectangle { width, height } => (*width, *height),
        GpuTextureKind::Cube { width, height } => (*width, *height),
        GpuTextureKind::Volume { width, height, .. } => (*width, *height),
    }
}

} // verus!
