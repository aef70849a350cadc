//! Shader programs: source preparation, compile/link outcome handling,
//! uniform lookup, and the uniform binding builder used by draw calls.
//!
//! The device model does not run a GLSL compiler; the verdict of the real
//! driver enters as a [`CompileOutcome`] event, and this module decides
//! what is created, registered and reported for each verdict.

use vstd::prelude::*;
use crate::fixed::Fx;
use crate::framework::error::FrameworkError;
use crate::framework::state::{DeviceCommand, Mat2, Mat3, PipelineState, UniformValue};
use crate::math::{Color, FxVec2, FxVec3, FxVec4, Mat4};
use vstd::string::StringSliceAdditionalSpecFns;

verus! {

/// First index at or after `from` where `b` occurs in `s`, or `s.len()`.
pub open spec fn first_at(s: Seq<u8>, b: u8, from: int) -> int
    decreases s.len() - from,
{
    if from < 0 || from >= s.len() {
        s.len() as int
    } else if s[from] == b {
        from
    } else {
        first_at(s, b, from + 1)
    }
}

/// Copies all of `src` onto the end of `dst`.
fn append_bytes(dst: &mut Vec<u8>, src: &[u8])
    ensures
        final(dst)@ == old(dst)@ + src@,
{
    let mut i: usize = 0;
    while i < src.len()
        invariant
            i <= src@.len(),
            dst@ == old(dst)@ + src@.subrange(0, i as int),
        decreases src@.len() - i,
    {
        dst.push(src[i]);
        i = i + 1;
        proof {
            assert(old(dst)@ + src@.subrange(0, i as int) =~= (old(dst)@ + src@.subrange(
                0,
                i as int - 1,
            )).push(src@[i as int - 1]));
        }
    }
    proof {
        assert(src@.subrange(0, src@.len() as int) =~= src@);
    }
}

/// Copies `src[from..to]` onto the end of `dst`.
fn append_byte_range(dst: &mut Vec<u8>, src: &[u8], from: usize, to: usize)
    requires
        from <= to <= src@.len(),
    ensures
        final(dst)@ == old(dst)@ + src@.subrange(from as int, to as int),
{
    let mut i: usize = from;
    while i < to
        invariant
            from <= i <= to <= src@.len(),
            dst@ == old(dst)@ + src@.subrange(from as int, i as int),
        decreases to - i,
    {
        dst.push(src[i]);
        i = i + 1;
        proof {
            assert(old(dst)@ + src@.subrange(from as int, i as int) =~= (old(dst)@
                + src@.subrange(from as int, i as int - 1)).push(src@[i as int - 1]));
        }
    }
}

/// Whether two byte strings are equal.
pub fn bytes_eq(a: &[u8], b: &[u8]) -> (r: bool)
    ensures
        r == (a@ == b@),
{
    if a.len() != b.len() {
        proof {
            assert(a@ != b@);
        }
        return false;
    }
    let mut i: usize = 0;
    while i < a.len()
        invariant
            i <= a@.len(),
            a@.len() == b@.len(),
            forall|j: int| 0 <= j < i ==> a@[j] == b@[j],
        decreases a@.len() - i,
    {
        if a[i] != b[i] {
            return false;
        }
        i = i + 1;
    }
    proof {
        assert(a@ =~= b@);
    }
    true
}

/// Finds the first occurrence of `b` in `s`, matching [`first_at`].
fn find_byte(s: &[u8], b: u8, from: usize) -> (r: usize)
    requires
        from <= s@.len(),
    ensures
        r == first_at(s@, b, from as int),
        from <= r <= s@.len(),
        r < s@.len() ==> s@[r as int] == b,
{
    let mut i: usize = from;
    while i < s.len()
        invariant
            from <= i <= s@.len(),
            first_at(s@, b, from as int) == first_at(s@, b, i as int),
        decreases s@.len() - i,
    {
        if s[i] == b {
            return i;
        }
        i = i + 1;
    }
    i
}

/// What merging the shared chunk into a source yields: spliced in after
/// the first `#` directive line when there is one (at the end when that
/// line is unterminated), prepended otherwise.
pub open spec fn prepared_source(code: Seq<u8>, shared: Seq<u8>) -> Seq<u8> {
    let hash = first_at(code, 35, 0);
    if hash < code.len() {
        let nl = first_at(code, 10, hash);
        if nl < code.len() {
            code.subrange(0, nl + 1) + shared + code.subrange(nl + 1, code.len() as int)
        } else {
            code + shared
        }
    } else {
        shared + code
    }
}

/// The bytes of the shared shader chunk.
pub open spec fn shared_source_bytes() -> Seq<u8> {
    "\n// include 'shared.glsl'\nvec3 srgb_to_linear(vec3 c) { return pow(c, vec3(2.2)); }\nfloat luminance(vec3 c) { return dot(c, vec3(0.2126, 0.7152, 0.0722)); }\n// end of include\n".spec_bytes()
}

/// The shared shader chunk merged into every shader source before it is
/// handed to the device.
pub fn shared_source_text() -> (r: &'static str)
    ensures
        r.spec_bytes() == shared_source_bytes(),
{
    "\n// include 'shared.glsl'\nvec3 srgb_to_linear(vec3 c) { return pow(c, vec3(2.2)); }\nfloat luminance(vec3 c) { return dot(c, vec3(0.2126, 0.7152, 0.0722)); }\n// end of include\n"
}

/// Merges the shared chunk into a shader source: after the first line
/// holding a `#` directive when there is one, else in front of the whole
/// source.
pub fn prepare_source_code(code: &[u8], shared: &[u8]) -> (r: Vec<u8>)
    ensures
        r@ == prepared_source(code@, shared@),
{
    let mut merged: Vec<u8> = Vec::new();
    let hash = find_byte(code, 35, 0);
    if hash < code.len() {
        let nl = find_byte(code, 10, hash);
        if nl == code.len() {
            append_bytes(&mut merged, code);
            append_bytes(&mut merged, shared);
            proof {
                assert(merged@ =~= code@ + shared@);
            }
            return merged;
        }
        let end = nl + 1;
        append_byte_range(&mut merged, code, 0, end);
        append_bytes(&mut merged, shared);
        append_byte_range(&mut merged, code, end, code.len());
        proof {
            assert(merged@ =~= code@.subrange(0, nl + 1) + shared@ + code@.subrange(
                nl + 1,
                code@.len() as int,
            ));
        }
    } else {
        append_bytes(&mut merged, shared);
        append_bytes(&mut merged, code);
        proof {
            assert(merged@ =~= shared@ + code@);
        }
    }
    merged
}

/// The real driver's verdict on compiling and linking a program: the
/// event handed back by the backend that ran the device's compiler.
#[derive(Clone, Debug, PartialEq)]
pub enum CompileOutcome {
    /// The vertex stage failed with this compiler message.
    VertexError(Vec<u8>),
    /// The fragment stage failed with this compiler message.
    FragmentError(Vec<u8>),
    /// Both stages compiled but the program failed to link.
    LinkError(Vec<u8>),
    /// The program linked; these uniform names were resolved.
    Linked { uniforms: Vec<String> },
}

/// The location of one uniform inside a linked program.
#[derive(Clone, Copy, Debug, PartialEq, Eq, Structural)]
pub struct UniformLocation {
    pub program: u32,
    pub slot: usize,
}

/// First index at or after `from` of a uniform whose bytes equal `name`,
/// or `us.len()`.
pub open spec fn uniform_at(us: Seq<String>, name: Seq<u8>, from: int) -> int
    decreases us.len() - from,
{
    if from < 0 || from >= us.len() {
        us.len() as int
    } else if vstd::utf8::encode_utf8(us[from]@) == name {
        from
    } else {
        uniform_at(us, name, from + 1)
    }
}

/// Whether a linked outcome resolves the given uniform name.
pub open spec fn has_uniform(us: Seq<String>, name: Seq<u8>) -> bool {
    uniform_at(us, name, 0) < us.len()
}

/// A linked shader program: its device id and the uniform names the
/// driver resolved for it.
#[derive(Clone, Debug, PartialEq)]
pub struct GpuProgram {
    pub id: u32,
    pub uniforms: Vec<String>,
}

impl GpuProgram {
    /// Builds a program from vertex and fragment sources under the
    /// driver verdict `outcome`. On success the program is created on
    /// the device with both sources prepared by
    /// [`prepare_source_code`]; a failed verdict is reported as the
    /// matching framework error carrying the stage's decorated name.
    pub fn from_source(
        state: &mut PipelineState,
        name: &str,
        vertex_source: &[u8],
        fragment_source: &[u8],
        outcome: CompileOutcome,
    ) -> (r: Result<GpuProgram, FrameworkError>)
        requires
            old(state).next_id < 0xFFFF_FFFFu32,
        ensures
            r is Ok <==> outcome is Linked,
            r is Ok ==> {
                &&& r->Ok_0.id == old(state).next_id
                &&& r->Ok_0.uniforms == outcome->uniforms
                &&& final(state).next_id == old(state).next_id + 1
                &&& final(state).cache == old(state).cache
                &&& final(state).commands@.len() == old(state).commands@.len() + 1
                &&& final(state).commands@.subrange(0, old(state).commands@.len() as int) == old(
                    state,
                ).commands@
                &&& final(state).commands@.last() matches DeviceCommand::CreateProgram {
                    id,
                    vertex_source: vsb,
                    fragment_source: fsb,
                } && id == old(state).next_id && vsb@ == prepared_source(
                    vertex_source@,
                    shared_source_bytes(),
                ) && fsb@ == prepared_source(fragment_source@, shared_source_bytes())
            },
            outcome matches CompileOutcome::VertexError(m) ==> (r matches Result::Err(e)
                && e matches FrameworkError::ShaderCompilationFailed { shader_name, error_message }
                && shader_name@ == decorated_name(name.spec_bytes(), VERTEX_SUFFIX.spec_bytes())
                && error_message@ == m@ && *final(state) == *old(state)),
            outcome matches CompileOutcome::FragmentError(m) ==> (r matches Result::Err(e)
                && e matches FrameworkError::ShaderCompilationFailed { shader_name, error_message }
                && shader_name@ == decorated_name(name.spec_bytes(), FRAGMENT_SUFFIX.spec_bytes())
                && error_message@ == m@ && *final(state) == *old(state)),
            outcome matches CompileOutcome::LinkError(m) ==> (r matches Result::Err(e)
                && e matches FrameworkError::ShaderLinkingFailed { shader_name, error_message }
                && shader_name@ == name.spec_bytes() && error_message@ == m@ && *final(state)
                == *old(state)),
    {
        match outcome {
            CompileOutcome::VertexError(m) => Err(
                FrameworkError::ShaderCompilationFailed {
                    shader_name: make_decorated_name(name, VERTEX_SUFFIX),
                    error_message: m,
                },
            ),
            CompileOutcome::FragmentError(m) => Err(
                FrameworkError::ShaderCompilationFailed {
                    shader_name: make_decorated_name(name, FRAGMENT_SUFFIX),
                    error_message: m,
                },
            ),
            CompileOutcome::LinkError(m) => {
                let mut n: Vec<u8> = Vec::new();
                append_bytes(&mut n, name.as_bytes());
                proof {
                    assert(n@ =~= name.spec_bytes());
                }
                Err(FrameworkError::ShaderLinkingFailed { shader_name: n, error_message: m })
            },
            CompileOutcome::Linked { uniforms } => {
                let shared = shared_source_text();
                let vs = prepare_source_code(vertex_source, shared.as_bytes());
                let fs = prepare_source_code(fragment_source, shared.as_bytes());
                let id = state.alloc_id();
                state.push_command(
                    DeviceCommand::CreateProgram { id, vertex_source: vs, fragment_source: fs },
                );
                proof {
                    assert(state.commands@.subrange(0, old(state).commands@.len() as int)
                        =~= old(state).commands@);
                }
                Ok(GpuProgram { id, uniforms })
            },
        }
    }

    /// Looks a uniform up by name: the first resolved uniform with that
    /// name, or `UnableToFindShaderUniform` when the program has none.
    pub fn uniform_location(&self, name: &str) -> (r: Result<UniformLocation, FrameworkError>)
        ensures
            r is Ok <==> uniform_at(self.uniforms@, name.spec_bytes(), 0) < self.uniforms@.len(),
            r is Ok ==> r->Ok_0 == (UniformLocation {
                program: self.id,
                slot: uniform_at(self.uniforms@, name.spec_bytes(), 0) as usize,
            }),
            r is Err ==> (r->Err_0 matches FrameworkError::UnableToFindShaderUniform(n)
                && n@ == name.spec_bytes()),
    {
        let target = name.as_bytes();
        let mut i: usize = 0;
        while i < self.uniforms.len()
            invariant
                i <= self.uniforms@.len(),
                target@ == name.spec_bytes(),
                uniform_at(self.uniforms@, name.spec_bytes(), 0) == uniform_at(
                    self.uniforms@,
                    name.spec_bytes(),
                    i as int,
                ),
            decreases self.uniforms@.len() - i,
        {
            if bytes_eq(self.uniforms[i].as_str().as_bytes(), target) {
                return Ok(UniformLocation { program: self.id, slot: i });
            }
            i = i + 1;
        }
        let mut n: Vec<u8> = Vec::new();
        append_bytes(&mut n, target);
        proof {
            assert(n@ =~= name.spec_bytes());
        }
        Err(FrameworkError::UnableToFindShaderUniform(n))
    }

    /// Starts collecting uniform values for one draw through this
    /// program.
    pub fn bind(&self) -> (b: GpuProgramBinding)
        ensures
            b.program == self.id,
            b.active_sampler == 0,
            b.uniforms@.len() == 0,
    {
        GpuProgramBinding { program: self.id, active_sampler: 0, uniforms: Vec::new() }
    }
}

/// Suffix appended to a program name for its vertex stage in error
/// reports.
pub const VERTEX_SUFFIX: &'static str = "_VertexShader";

/// Suffix appended to a program name for its fragment stage in error
/// reports.
pub const FRAGMENT_SUFFIX: &'static str = "_FragmentShader";

/// A program name decorated with a stage suffix.
pub open spec fn decorated_name(name: Seq<u8>, suffix: Seq<u8>) -> Seq<u8> {
    name + suffix
}

fn make_decorated_name(name: &str, suffix: &str) -> (r: Vec<u8>)
    ensures
        r@ == decorated_name(name.spec_bytes(), suffix.spec_bytes()),
{
    let mut n: Vec<u8> = Vec::new();
    append_bytes(&mut n, name.as_bytes());
    append_bytes(&mut n, suffix.as_bytes());
    proof {
        assert(n@ =~= name.spec_bytes() + suffix.spec_bytes());
    }
    n
}

/// Collects the uniform values one draw call will carry; the framebuffer
/// draw turns the collected list into device commands.
pub struct GpuProgramBinding {
    pub program: u32,
    pub active_sampler: u32,
    pub uniforms: Vec<(UniformLocation, UniformValue)>,
}

impl GpuProgramBinding {
    /// Binds a texture to the next free sampler unit.
    pub fn set_texture(&mut self, location: &UniformLocation, texture: u32)
        requires
            old(self).active_sampler < 0xFFFF_FFFFu32,
        ensures
            final(self).uniforms@ == old(self).uniforms@.push(
                (*location, UniformValue::Sampler { unit: old(self).active_sampler, texture }),
            ),
            final(self).active_sampler == old(self).active_sampler + 1,
            final(self).program == old(self).program,
    {
        let unit = self.active_sampler;
        self.active_sampler = self.active_sampler + 1;
        self.uniforms.push((*location, UniformValue::Sampler { unit, texture }));
    }

    /// Sets a boolean uniform.
    pub fn set_bool(&mut self, location: &UniformLocation, value: bool)
        ensures
            final(self).uniforms@ == old(self).uniforms@.push(
                (*location, UniformValue::Bool(value)),
            ),
            final(self).active_sampler == old(self).active_sampler,
            final(self).program == old(self).program,
    {
        self.uniforms.push((*location, UniformValue::Bool(value)));
    }

    /// Sets a signed integer uniform.
    pub fn set_i32(&mut self, location: &UniformLocation, value: i32)
        ensures
            final(self).uniforms@ == old(self).uniforms@.push(
                (*location, UniformValue::Int(value)),
            ),
            final(self).active_sampler == old(self).active_sampler,
            final(self).program == old(self).program,
    {
        self.uniforms.push((*location, UniformValue::Int(value)));
    }

    /// Sets an unsigned integer uniform.
    pub fn set_u32(&mut self, location: &UniformLocation, value: u32)
        ensures
            final(self).uniforms@ == old(self).uniforms@.push(
                (*location, UniformValue::UInt(value)),
            ),
            final(self).active_sampler == old(self).active_sampler,
            final(self).program == old(self).program,
    {
        self.uniforms.push((*location, UniformValue::UInt(value)));
    }

    /// Sets a scalar uniform (handed to the shader as floating point by
    /// the backend).
    pub fn set_f32(&mut self, location: &UniformLocation, value: Fx)
        ensures
            final(self).uniforms@ == old(self).uniforms@.push(
                (*location, UniformValue::Scalar(value)),
            ),
            final(self).active_sampler == old(self).active_sampler,
            final(self).program == old(self).program,
    {
        self.uniforms.push((*location, UniformValue::Scalar(value)));
    }

    /// Sets a 2-vector uniform.
    pub fn set_vector2(&mut self, location: &UniformLocation, value: FxVec2)
        ensures
            final(self).uniforms@ == old(self).uniforms@.push(
                (*location, UniformValue::Vec2(value)),
            ),
            final(self).active_sampler == old(self).active_sampler,
            final(self).program == old(self).program,
    {
        self.uniforms.push((*location, UniformValue::Vec2(value)));
    }

    /// Sets a 3-vector uniform.
    pub fn set_vector3(&mut self, location: &UniformLocation, value: FxVec3)
        ensures
            final(self).uniforms@ == old(self).uniforms@.push(
                (*location, UniformValue::Vec3(value)),
            ),
            final(self).active_sampler == old(self).active_sampler,
            final(self).program == old(self).program,
    {
        self.uniforms.push((*location, UniformValue::Vec3(value)));
    }

    /// Sets a 4-vector uniform.
    pub fn set_vector4(&mut self, location: &UniformLocation, value: FxVec4)
        ensures
            final(self).uniforms@ == old(self).uniforms@.push(
                (*location, UniformValue::Vec4(value)),
            ),
            final(self).active_sampler == old(self).active_sampler,
            final(self).program == old(self).program,
    {
        self.uniforms.push((*location, UniformValue::Vec4(value)));
    }

    /// Sets an array of signed integers.
    pub fn set_i32_slice(&mut self, location: &UniformLocation, value: Vec<i32>)
        ensures
            final(self).uniforms@ == old(self).uniforms@.push(
                (*location, UniformValue::IntArray(value)),
            ),
            final(self).active_sampler == old(self).active_sampler,
            final(self).program == old(self).program,
    {
        self.uniforms.push((*location, UniformValue::IntArray(value)));
    }

    /// Sets an array of unsigned integers.
    pub fn set_u32_slice(&mut self, location: &UniformLocation, value: Vec<u32>)
        ensures
            final(self).uniforms@ == old(self).uniforms@.push(
                (*location, UniformValue::UIntArray(value)),
            ),
            final(self).active_sampler == old(self).active_sampler,
            final(self).program == old(self).program,
    {
        self.uniforms.push((*location, UniformValue::UIntArray(value)));
    }

    /// Sets an array of scalars.
    pub fn set_f32_slice(&mut self, location: &UniformLocation, value: Vec<Fx>)
        ensures
            final(self).uniforms@ == old(self).uniforms@.push(
                (*location, UniformValue::ScalarArray(value)),
            ),
            final(self).active_sampler == old(self).active_sampler,
            final(self).program == old(self).program,
    {
        self.uniforms.push((*location, UniformValue::ScalarArray(value)));
    }

    /// Sets an array of 2-vectors.
    pub fn set_vector2_slice(&mut self, location: &UniformLocation, value: Vec<FxVec2>)
        ensures
            final(self).uniforms@ == old(self).uniforms@.push(
                (*location, UniformValue::Vec2Array(value)),
            ),
            final(self).active_sampler == old(self).active_sampler,
            final(self).program == old(self).program,
    {
        self.uniforms.push((*location, UniformValue::Vec2Array(value)));
    }

    /// Sets an array of 3-vectors.
    pub fn set_vector3_slice(&mut self, location: &UniformLocation, value: Vec<FxVec3>)
        ensures
            final(self).uniforms@ == old(self).uniforms@.push(
                (*location, UniformValue::Vec3Array(value)),
            ),
            final(self).active_sampler == old(self).active_sampler,
            final(self).program == old(self).program,
    {
        self.uniforms.push((*location, UniformValue::Vec3Array(value)));
    }

    /// Sets an array of 4-vectors.
    pub fn set_vector4_slice(&mut self, location: &UniformLocation, value: Vec<FxVec4>)
        ensures
            final(self).uniforms@ == old(self).uniforms@.push(
                (*location, UniformValue::Vec4Array(value)),
            ),
            final(self).active_sampler == old(self).active_sampler,
            final(self).program == old(self).program,
    {
        self.uniforms.push((*location, UniformValue::Vec4Array(value)));
    }

    /// Sets a 2x2 matrix uniform.
    pub fn set_matrix2(&mut self, location: &UniformLocation, value: Mat2)
        ensures
            final(self).uniforms@ == old(self).uniforms@.push(
                (*location, UniformValue::Matrix2(value)),
            ),
            final(self).active_sampler == old(self).active_sampler,
            final(self).program == old(self).program,
    {
        self.uniforms.push((*location, UniformValue::Matrix2(value)));
    }

    /// Sets an array of 2x2 matrices.
    pub fn set_matrix2_array(&mut self, location: &UniformLocation, value: Vec<Mat2>)
        ensures
            final(self).uniforms@ == old(self).uniforms@.push(
                (*location, UniformValue::Matrix2Array(value)),
            ),
            final(self).active_sampler == old(self).active_sampler,
            final(self).program == old(self).program,
    {
        self.uniforms.push((*location, UniformValue::Matrix2Array(value)));
    }

    /// Sets a 3x3 matrix uniform.
    pub fn set_matrix3(&mut self, location: &UniformLocation, value: Mat3)
        ensures
            final(self).uniforms@ == old(self).uniforms@.push(
                (*location, UniformValue::Matrix3(value)),
            ),
            final(self).active_sampler == old(self).active_sampler,
            final(self).program == old(self).program,
    {
        self.uniforms.push((*location, UniformValue::Matrix3(value)));
    }

    /// Sets an array of 3x3 matrices.
    pub fn set_matrix3_array(&mut self, location: &UniformLocation, value: Vec<Mat3>)
        ensures
            final(self).uniforms@ == old(self).uniforms@.push(
                (*location, UniformValue::Matrix3Array(value)),
            ),
            final(self).active_sampler == old(self).active_sampler,
            final(self).program == old(self).program,
    {
        self.uniforms.push((*location, UniformValue::Matrix3Array(value)));
    }

    /// Sets a 4x4 matrix uniform.
    pub fn set_matrix4(&mut self, location: &UniformLocation, value: &Mat4)
        ensures
            final(self).uniforms@ == old(self).uniforms@.push(
                (*location, UniformValue::Matrix4(*value)),
            ),
            final(self).active_sampler == old(self).active_sampler,
            final(self).program == old(self).program,
    {
        self.uniforms.push((*location, UniformValue::Matrix4(*value)));
    }

    /// Sets an array of 4x4 matrices (bone palettes).
    pub fn set_matrix4_array(&mut self, location: &UniformLocation, value: Vec<Mat4>)
        ensures
            final(self).uniforms@ == old(self).uniforms@.push(
                (*location, UniformValue::Matrix4Array(value)),
            ),
            final(self).active_sampler == old(self).active_sampler,
            final(self).program == old(self).program,
    {
        self.uniforms.push((*location, UniformValue::Matrix4Array(value)));
    }

    /// Sets a colour uniform converted to linear space by the backend.
    pub fn set_linear_color(&mut self, location: &UniformLocation, value: Color)
        ensures
            final(self).uniforms@ == old(self).uniforms@.push(
                (*location, UniformValue::LinearColor(value)),
            ),
            final(self).active_sampler == old(self).active_sampler,
            final(self).program == old(self).program,
    {
        self.uniforms.push((*location, UniformValue::LinearColor(value)));
    }

    /// Sets a colour uniform handed over as its plain sRGB value.
    pub fn set_srgb_color(&mut self, location: &UniformLocation, value: Color)
        ensures
            final(self).uniforms@ == old(self).uniforms@.push(
                (*location, UniformValue::SrgbColor(value)),
            ),
            final(self).active_sampler == old(self).active_sampler,
            final(self).program == old(self).program,
    {
        self.uniforms.push((*location, UniformValue::SrgbColor(value)));
    }

    /// Takes the collected uniform values for a draw.
    pub fn into_uniforms(self) -> (r: Vec<(UniformLocation, UniformValue)>)
        ensures
            r@ == self.uniforms@,
    {
        self.uniforms
    }
}

} // verus!
