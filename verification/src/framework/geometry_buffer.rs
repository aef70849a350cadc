//! Geometry buffer wrapper: owns a device vertex/index buffer pair that
//! can be re-filled with per-frame data without reallocation.

use vstd::prelude::*;
use crate::framework::error::FrameworkError;
use crate::framework::state::{DeviceCommand, PipelineState};

verus! {

/// What one element of the index buffer describes.
#[derive(Clone, Copy, Debug, PartialEq, Eq, Structural)]
pub enum ElementKind {
    Triangle,
    Line,
}

/// Usage hint for the vertex storage.
#[derive(Clone, Copy, Debug, PartialEq, Eq, Structural)]
pub enum GeometryBufferKind {
    StaticDraw,
    DynamicDraw,
}

/// Statistics of a single draw call.
#[derive(Clone, Copy, Debug, PartialEq, Eq, Structural)]
pub struct DrawCallStatistics {
    pub triangles: usize,
}

/// A device geometry buffer: the wrapper tracks how many vertices and
/// triangles are currently bound, which is what the draw statistics
/// report.
#[derive(Clone, Copy, Debug, PartialEq, Eq)]
pub struct GeometryBuffer {
    pub id: u32,
    pub element_kind: ElementKind,
    pub kind: GeometryBufferKind,
    pub vertex_count: usize,
    pub triangle_count: usize,
}

impl GeometryBuffer {
    /// Creates an empty geometry buffer on the device.
    pub fn new(
        state: &mut PipelineState,
        element_kind: ElementKind,
        kind: GeometryBufferKind,
    ) -> (r: Result<GeometryBuffer, FrameworkError>)
        ensures
            old(state).next_id < 0xFFFF_FFFFu32 ==> r is Ok,
            r is Ok ==> {
                &&& r->Ok_0 == (GeometryBuffer {
                    id: old(state).next_id,
                    element_kind,
                    kind,
                    vertex_count: 0,
                    triangle_count: 0,
                })
                &&& final(state).next_id == old(state).next_id + 1
                &&& final(state).commands@ == old(state).commands@.push(
                    DeviceCommand::CreateGeometryBuffer { id: old(state).next_id },
                )
                &&& final(state).cache == old(state).cache
                &&& crate::framework::state::draw_seq(final(state).commands@)
                    == crate::framework::state::draw_seq(old(state).commands@)
            },
            r is Err ==> r->Err_0 == FrameworkError::TooManyObjects && *final(state) == *old(state),
    {
        if state.next_id == 0xFFFF_FFFFu32 {
            return Err(FrameworkError::TooManyObjects);
        }
        let id = state.alloc_id();
        state.push_command(DeviceCommand::CreateGeometryBuffer { id });
        Ok(GeometryBuffer { id, element_kind, kind, vertex_count: 0, triangle_count: 0 })
    }

    /// Re-uploads the whole vertex buffer; `count` vertices are bound
    /// afterwards.
    pub fn set_buffer_data(&mut self, state: &mut PipelineState, count: usize)
        ensures
            *final(self) == (GeometryBuffer { vertex_count: count, ..*old(self) }),
            final(state).commands@ == old(state).commands@.push(
                DeviceCommand::UploadVertices { buffer: old(self).id, count },
            ),
            final(state).cache == old(state).cache,
            final(state).next_id == old(state).next_id,
            crate::framework::state::draw_seq(final(state).commands@)
                == crate::framework::state::draw_seq(old(state).commands@),
    {
        self.vertex_count = count;
        state.push_command(DeviceCommand::UploadVertices { buffer: self.id, count });
    }

    /// Re-uploads the triangle list; `count` triangles are bound
    /// afterwards and reported by subsequent draw statistics.
    pub fn set_triangles(&mut self, state: &mut PipelineState, count: usize)
        ensures
            *final(self) == (GeometryBuffer { triangle_count: count, ..*old(self) }),
            final(state).commands@ == old(state).commands@.push(
                DeviceCommand::UploadTriangles { buffer: old(self).id, count },
            ),
            final(state).cache == old(state).cache,
            final(state).next_id == old(state).next_id,
            crate::framework::state::draw_seq(final(state).commands@)
                == crate::framework::state::draw_seq(old(state).commands@),
    {
        self.triangle_count = count;
        state.push_command(DeviceCommand::UploadTriangles { buffer: self.id, count });
    }

    /// How many triangles are currently bound.
    pub fn triangle_count(&self) -> (r: usize)
        ensures
            r == self.triangle_count,
    {
        self.triangle_count
    }

    /// How many vertices are currently bound.
    pub fn vertex_count(&self) -> (r: usize)
        ensures
            r == self.vertex_count,
    {
        self.vertex_count
    }
}

} // verus!
