//! Errors of the device framework layer.

use vstd::prelude::*;

verus! {

/// Why a framework operation failed. Construction-time errors (shaders,
/// framebuffers) are fatal to the renderer being built; per-frame errors
/// are absorbed by the caller with a logged fallback.
#[derive(Clone, Debug, PartialEq, Eq)]
pub enum FrameworkError {
    /// A shader stage failed to compile; carries the shader's name and
    /// the compiler's message.
    ShaderCompilationFailed { shader_name: Vec<u8>, error_message: Vec<u8> },
    /// A program failed to link; carries the program's name and the
    /// linker's message.
    ShaderLinkingFailed { shader_name: Vec<u8>, error_message: Vec<u8> },
    /// A uniform name was not found in a linked program.
    UnableToFindShaderUniform(Vec<u8>),
    /// A framebuffer was built from attachments of differing sizes.
    AttachmentSizeMismatch,
    /// A framebuffer was asked for a cube-map face but its colour
    /// attachment is not a cube map.
    AttachmentNotCubeMap,
    /// A device object could not be created because the id space is
    /// exhausted.
    TooManyObjects,
    /// A geometry buffer draw range lies outside the bound triangles.
    InvalidElementRange { start: usize, end: usize, total: usize },
}

} // verus!
