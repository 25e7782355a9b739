//! The compute pipeline: one shader program compiled once and reused.
//!
//! The program is the concatenation of a reusable noise library and the
//! grain-synthesis entry point. The noise module must precede the entry
//! module textually so the entry module's references to it resolve; the
//! contract of `combined_source` pins that order down.
use vstd::prelude::*;
use vstd::string::StringExecFns;
use crate::error::GrainError;
use crate::gpu;

verus! {

/// The text of the noise library, stated for specification; the exec
/// source functions below return exactly this text.
pub open spec fn noise_text() -> Seq<char> {
    "
fn hash2(p: vec2<f32>) -> f32 {
    let h = dot(p, vec2<f32>(127.1, 311.7));
    return fract(sin(h) * 43758.5453123);
}

fn value_noise(p: vec2<f32>) -> f32 {
    let i = floor(p);
    let f = fract(p);
    let u = f * f * (3.0 - 2.0 * f);
    let a = hash2(i);
    let b = hash2(i + vec2<f32>(1.0, 0.0));
    let c = hash2(i + vec2<f32>(0.0, 1.0));
    let d = hash2(i + vec2<f32>(1.0, 1.0));
    return mix(mix(a, b, u.x), mix(c, d, u.x), u.y);
}
"@
}

/// The text of the grain entry module, stated for specification.
pub open spec fn grain_text() -> Seq<char> {
    "
struct GrainUniforms {
    grain_amount: f32,
    grain_size: f32,
    width: f32,
    height: f32,
    seed: f32,
    pad0: f32,
    pad1: f32,
    pad2: f32,
}

@group(0) @binding(0) var output: texture_storage_2d<rgba8unorm, write>;
@group(0) @binding(1) var<uniform> params: GrainUniforms;

@compute @workgroup_size(8, 8, 1)
fn main(@builtin(global_invocation_id) gid: vec3<u32>) {
    let dims = textureDimensions(output);
    if (gid.x >= dims.x || gid.y >= dims.y) {
        return;
    }
    let scale = max(params.grain_size, 0.0001);
    let p = vec2<f32>(f32(gid.x), f32(gid.y)) / scale + vec2<f32>(params.seed, params.seed);
    let n = value_noise(p);
    let g = clamp(0.5 + (n - 0.5) * params.grain_amount, 0.0, 1.0);
    textureStore(output, vec2<i32>(i32(gid.x), i32(gid.y)), vec4<f32>(g, g, g, 1.0));
}
"@
}

/// The one program this crate ever compiles: the noise library, a line
/// break, the grain entry module. It is kept valid WGSL.
pub open spec fn shader_program_text() -> Seq<char> {
    noise_text() + "\n"@ + grain_text()
}

/// The shared noise library: hashing and value noise over the plane.
pub fn noise_source() -> (r: &'static str)
    ensures
        r@ == noise_text(),
{
    "
fn hash2(p: vec2<f32>) -> f32 {
    let h = dot(p, vec2<f32>(127.1, 311.7));
    return fract(sin(h) * 43758.5453123);
}

fn value_noise(p: vec2<f32>) -> f32 {
    let i = floor(p);
    let f = fract(p);
    let u = f * f * (3.0 - 2.0 * f);
    let a = hash2(i);
    let b = hash2(i + vec2<f32>(1.0, 0.0));
    let c = hash2(i + vec2<f32>(0.0, 1.0));
    let d = hash2(i + vec2<f32>(1.0, 1.0));
    return mix(mix(a, b, u.x), mix(c, d, u.x), u.y);
}
"
}

/// The grain-synthesis entry point. It is authored for an 8 by 8 workgroup
/// tile and bounds-checks every write, so over-dispatched threads from a
/// ceiling division write nothing.
pub fn grain_source() -> (r: &'static str)
    ensures
        r@ == grain_text(),
{
    "
struct GrainUniforms {
    grain_amount: f32,
    grain_size: f32,
    width: f32,
    height: f32,
    seed: f32,
    pad0: f32,
    pad1: f32,
    pad2: f32,
}

@group(0) @binding(0) var output: texture_storage_2d<rgba8unorm, write>;
@group(0) @binding(1) var<uniform> params: GrainUniforms;

@compute @workgroup_size(8, 8, 1)
fn main(@builtin(global_invocation_id) gid: vec3<u32>) {
    let dims = textureDimensions(output);
    if (gid.x >= dims.x || gid.y >= dims.y) {
        return;
    }
    let scale = max(params.grain_size, 0.0001);
    let p = vec2<f32>(f32(gid.x), f32(gid.y)) / scale + vec2<f32>(params.seed, params.seed);
    let n = value_noise(p);
    let g = clamp(0.5 + (n - 0.5) * params.grain_amount, 0.0, 1.0);
    textureStore(output, vec2<i32>(i32(gid.x), i32(gid.y)), vec4<f32>(g, g, g, 1.0));
}
"
}

/// The full program text: the noise library strictly before the entry
/// module, separated by a newline.
pub fn combined_source(noise: &str, grain: &str) -> (s: String)
    ensures
        s@ == noise@ + "\n"@ + grain@,
{
    let mut s = String::from_str(noise);
    s.append("\n");
    s.append(grain);
    s
}

/// An immutable compiled compute pipeline; created once, never mutated.
pub struct GrainComputePipeline {
    pub pipeline: wgpu::ComputePipeline,
}

impl GrainComputePipeline {
    /// Concatenate the noise library ahead of the grain entry module and
    /// compile the pair once, with the binding layout derived from the
    /// shader's own declarations. Compiling this fixed source succeeds;
    /// a failure inside the shader compiler would be a programming-time
    /// defect, not a runtime condition.
    pub fn new(device: &wgpu::Device) -> (r: Result<Self, GrainError>)
        ensures
            r is Ok,
    {
        let source = combined_source(noise_source(), grain_source());
        proof {
            assert(source@ == shader_program_text());
        }
        let module = gpu::create_shader_module(device, source);
        let pipeline = gpu::create_compute_pipeline(device, &module);
        Ok(GrainComputePipeline { pipeline })
    }
}

} // verus!
