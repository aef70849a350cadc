//! GPU texture wrapper: owns one device texture object and describes its
//! kind, pixel format and sampling parameters.

use vstd::prelude::*;
use crate::framework::error::FrameworkError;
use crate::framework::state::{DeviceCommand, PipelineState};

verus! {

/// The shape of a texture.
#[derive(Clone, Copy, Debug, PartialEq, Eq, Structural)]
pub enum GpuTextureKind {
    Rectangle { width: usize, height: usize },
    Cube { width: usize, height: usize },
    Volume { width: usize, height: usize, depth: usize },
}

/// Pixel storage formats used by the render passes.
#[derive(Clone, Copy, Debug, PartialEq, Eq, Structural)]
pub enum PixelKind {
    F32,
    F16,
    D32F,
    D16,
    RGBA8,
    RGB8,
    R8,
}

/// Minification filters.
#[derive(Clone, Copy, Debug, PartialEq, Eq, Structural)]
pub enum MinificationFilter {
    Nearest,
    Linear,
    LinearMipMapLinear,
}

/// Magnification filters.
#[derive(Clone, Copy, Debug, PartialEq, Eq, Structural)]
pub enum MagnificationFilter {
    Nearest,
    Linear,
}

/// Texture coordinate axes for wrap modes.
#[derive(Clone, Copy, Debug, PartialEq, Eq, Structural)]
pub enum Coordinate {
    S,
    T,
    R,
}

/// Texture wrap modes.
#[derive(Clone, Copy, Debug, PartialEq, Eq, Structural)]
pub enum WrapMode {
    Repeat,
    ClampToEdge,
    MirroredRepeat,
}

/// The six faces of a cube map.
#[derive(Clone, Copy, Debug, PartialEq, Eq, Structural)]
pub enum CubeMapFace {
    PositiveX,
    NegativeX,
    PositiveY,
    NegativeY,
    PositiveZ,
    NegativeZ,
}

/// Width and height of a texture kind (depth ignored).
pub open spec fn kind_size(kind: GpuTextureKind) -> (int, int) {
    match kind {
        GpuTextureKind::Rectangle { width, height } => (width as int, height as int),
        GpuTextureKind::Cube { width, height } => (width as int, height as int),
        GpuTextureKind::Volume { width, height, .. } => (width as int, height as int),
    }
}

/// A device texture object. Exclusively owned by one logical slot (a
/// cache entry, a framebuffer attachment or a pass-local variable);
/// passes that read it elsewhere hold its id.
#[derive(Clone, Copy, Debug, PartialEq, Eq)]
pub struct GpuTexture {
    pub id: u32,
    pub kind: GpuTextureKind,
    pub pixel_kind: PixelKind,
    pub minification_filter: MinificationFilter,
    pub magnification_filter: MagnificationFilter,
    pub mip_count: usize,
}

impl GpuTexture {
    /// Creates a texture on the device, optionally uploading initial
    /// data. The new texture carries a fresh device id.
    pub fn new(
        state: &mut PipelineState,
        kind: GpuTextureKind,
        pixel_kind: PixelKind,
        minification_filter: MinificationFilter,
        magnification_filter: MagnificationFilter,
        mip_count: usize,
        data: Option<&Vec<u8>>,
    ) -> (r: Result<GpuTexture, FrameworkError>)
        ensures
            old(state).next_id < 0xFFFF_FFFFu32 ==> r is Ok,
            r is Ok ==> {
                &&& r->Ok_0 == (GpuTexture {
                    id: old(state).next_id,
                    kind,
                    pixel_kind,
                    minification_filter,
                    magnification_filter,
                    mip_count,
                })
                &&& final(state).next_id == old(state).next_id + 1
                &&& final(state).commands@ == old(state).commands@.push(
                    DeviceCommand::CreateTexture {
                        id: old(state).next_id,
                        kind,
                        pixel_kind,
                        minification_filter,
                        magnification_filter,
                        mip_count,
                        with_data: data is Some,
                    },
                )
                &&& final(state).cache == old(state).cache
                &&& crate::framework::state::draw_seq(final(state).commands@)
                    == crate::framework::state::draw_seq(old(state).commands@)
            },
            r is Err ==> {
                &&& r->Err_0 == FrameworkError::TooManyObjects
                &&& *final(state) == *old(state)
            },
    {
        if state.next_id == 0xFFFF_FFFFu32 {
            return Err(FrameworkError::TooManyObjects);
        }
        let id = state.alloc_id();
        state.push_command(
            DeviceCommand::CreateTexture {
                id,
                kind,
                pixel_kind,
                minification_filter,
                magnification_filter,
                mip_count,
                with_data: data.is_some(),
            },
        );
        Ok(
            GpuTexture {
                id,
                kind,
                pixel_kind,
                minification_filter,
                magnification_filter,
                mip_count,
            },
        )
    }

    /// The device id of this texture.
    pub fn id(&self) -> (r: u32)
        ensures
            r == self.id,
    {
        self.id
    }

    /// Sets the wrap mode of one coordinate axis.
    pub fn set_wrap(&self, state: &mut PipelineState, coordinate: Coordinate, wrap: WrapMode)
        ensures
            final(state).commands@ == old(state).commands@.push(
                DeviceCommand::SetTextureWrap { texture: self.id, coordinate, wrap },
            ),
            final(state).cache == old(state).cache,
            final(state).next_id == old(state).next_id,
            crate::framework::state::draw_seq(final(state).commands@)
                == crate::framework::state::draw_seq(old(state).commands@),
    {
        state.push_command(DeviceCommand::SetTextureWrap { texture: self.id, coordinate, wrap });
    }

    /// Sets the minification filter.
    pub fn set_minification_filter(&mut self, state: &mut PipelineState, filter: MinificationFilter)
        ensures
            *final(self) == (GpuTexture { minification_filter: filter, ..*old(self) }),
            final(state).commands@ == old(state).commands@.push(
                DeviceCommand::SetTextureMinificationFilter { texture: old(self).id, filter },
            ),
            final(state).cache == old(state).cache,
            final(state).next_id == old(state).next_id,
            crate::framework::state::draw_seq(final(state).commands@)
                == crate::framework::state::draw_seq(old(state).commands@),
    {
        self.minification_filter = filter;
        state.push_command(
            DeviceCommand::SetTextureMinificationFilter { texture: self.id, filter },
        );
    }

    /// Sets the magnification filter.
    pub fn set_magnification_filter(
        &mut self,
        state: &mut PipelineState,
        filter: MagnificationFilter,
    )
        ensures
            *final(self) == (GpuTexture { magnification_filter: filter, ..*old(self) }),
            final(state).commands@ == old(state).commands@.push(
                DeviceCommand::SetTextureMagnificationFilter { texture: old(self).id, filter },
            ),
            final(state).cache == old(state).cache,
            final(state).next_id == old(state).next_id,
            crate::framework::state::draw_seq(final(state).commands@)
                == crate::framework::state::draw_seq(old(state).commands@),
    {
        self.magnification_filter = filter;
        state.push_command(
            DeviceCommand::SetTextureMagnificationFilter { texture: self.id, filter },
        );
    }
}

} // verus!
