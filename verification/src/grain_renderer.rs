//! The renderer: owns the output surface, the uniform buffer and the
//! binding set as one unit, and records one frame per `render` call.
//!
//! The three GPU resources are only ever created together, by `new`; a
//! resolution change means building a whole new renderer and dropping the
//! old one, so a binding set can never outlive the surface or buffer it was
//! built from.
use vstd::prelude::*;
use vstd::bytes::u32_to_le_bytes;
use vstd::bytes::spec_u32_to_le_bytes;
use vstd::bytes::lemma_auto_spec_u32_to_from_le_bytes;
use crate::compute_pipeline::GrainComputePipeline;
use crate::error::GrainError;
use crate::gpu;

verus! {

/// The edge of one workgroup tile: the shader is authored for 8 by 8.
pub const WORKGROUP_EDGE: u32 = 8;

/// Uniform parameters handed to the compute shader each frame.
///
/// The shader reads five 32-bit floats; each field here holds the raw
/// IEEE-754 bit pattern of one of them, so this crate can lay the record
/// out byte-for-byte without floating-point arithmetic. The host-side
/// editor converts its fractional values to bit patterns at the boundary.
#[derive(Debug, Clone, Copy, PartialEq, Eq, Structural)]
pub struct GrainParams {
    pub grain_amount: u32,
    pub grain_size: u32,
    pub width: u32,
    pub height: u32,
    pub seed: u32,
}

impl GrainParams {
    /// The exact 32-byte uniform record: five little-endian words followed
    /// by 12 padding zero bytes, matching the device's 32-byte stride.
    pub open spec fn bytes_spec(&self) -> Seq<u8> {
        spec_u32_to_le_bytes(self.grain_amount) + spec_u32_to_le_bytes(self.grain_size)
            + spec_u32_to_le_bytes(self.width) + spec_u32_to_le_bytes(self.height)
            + spec_u32_to_le_bytes(self.seed) + Seq::new(12, |i: int| 0u8)
    }

    /// Serialize the record for upload.
    pub fn to_bytes(&self) -> (v: Vec<u8>)
        ensures
            v@ == self.bytes_spec(),
            v@.len() == 32,
    {
        proof {
            lemma_auto_spec_u32_to_from_le_bytes();
        }
        let mut v = u32_to_le_bytes(self.grain_amount);
        let mut w = u32_to_le_bytes(self.grain_size);
        v.append(&mut w);
        let mut w = u32_to_le_bytes(self.width);
        v.append(&mut w);
        let mut w = u32_to_le_bytes(self.height);
        v.append(&mut w);
        let mut w = u32_to_le_bytes(self.seed);
        v.append(&mut w);
        let ghost base = v@;
        let mut i: usize = 0;
        while i < 12
            invariant
                0 <= i <= 12,
                v@ == base + Seq::new(i as nat, |j: int| 0u8),
            decreases 12 - i,
        {
            v.push(0u8);
            proof {
                assert(v@ =~= base + Seq::new((i + 1) as nat, |j: int| 0u8));
            }
            i = i + 1;
        }
        proof {
            assert(v@ =~= self.bytes_spec());
        }
        v
    }
}

impl Default for GrainParams {
    /// Half-strength grain of unit size on a 512 by 512 surface, seed zero.
    /// The words are the bit patterns of 0.5, 1.0, 512.0, 512.0 and 0.0.
    fn default() -> (r: Self)
        ensures
            r == (GrainParams {
                grain_amount: 0x3F000000u32,
                grain_size: 0x3F800000u32,
                width: 0x44000000u32,
                height: 0x44000000u32,
                seed: 0u32,
            }),
    {
        GrainParams {
            grain_amount: 0x3F000000,
            grain_size: 0x3F800000,
            width: 0x44000000,
            height: 0x44000000,
            seed: 0,
        }
    }
}

/// Workgroups dispatched along one axis of `dim` pixels: the ceiling of
/// `dim / 8`.
pub open spec fn workgroup_count(dim: u32) -> int {
    (dim + 7) / 8
}

/// The ceiling division, computed without overflow.
pub fn dispatch_size(dim: u32) -> (n: u32)
    ensures
        n == workgroup_count(dim),
{
    dim / 8 + (if dim % 8 != 0 {
        1
    } else {
        0
    })
}

/// Full coverage, and nothing more: the dispatched workgroups cover every
/// pixel of the axis, and even one workgroup fewer would leave pixels
/// uncovered. Over-dispatch within the last tile is bounds-checked in the
/// shader.
pub proof fn lemma_dispatch_covers(dim: u32)
    requires
        dim >= 1,
    ensures
        WORKGROUP_EDGE * workgroup_count(dim) >= dim,
        WORKGROUP_EDGE * (workgroup_count(dim) - 1) < dim,
{
}

/// The sizing of the end-to-end scenario: a 64 by 64 surface renders with
/// exactly an 8 by 8 by 1 workgroup grid (`render`'s contract fixes the
/// third axis and the single submission per frame).
pub proof fn lemma_dispatch_grid_64()
    ensures
        workgroup_count(64) == 8,
{
}

/// What one `render` call did: the bytes it uploaded, the single dispatch
/// it recorded, and how many command buffers it submitted.
pub ghost struct FrameTrace {
    pub uploaded: Seq<u8>,
    pub workgroups: (u32, u32, u32),
    pub submits: nat,
}

/// Renders the grain texture with the compute pipeline. Owns the output
/// texture, the uniform buffer and the bind group as an indivisible triple.
pub struct GrainRenderer {
    pipeline: GrainComputePipeline,
    output_texture: wgpu::Texture,
    bind_group_layout: wgpu::BindGroupLayout,
    bind_group: wgpu::BindGroup,
    params_buffer: wgpu::Buffer,
    width: u32,
    height: u32,
}

impl GrainRenderer {
    pub closed spec fn spec_width(&self) -> u32 {
        self.width
    }

    pub closed spec fn spec_height(&self) -> u32 {
        self.height
    }

    /// Both dimensions sit inside the device's texture limit, so every
    /// dispatch count derived from them is in range too.
    pub open spec fn wf(&self) -> bool {
        &&& 1 <= self.spec_width() <= 8192
        &&& 1 <= self.spec_height() <= 8192
    }

    /// Build the pipeline and the full resource triple for a `width` by
    /// `height` output: the storage texture, a 32-byte uniform buffer, and
    /// the bind group tying texture view (slot 0) and buffer (slot 1) to
    /// the pipeline's derived layout. Always succeeds once a device
    /// exists; the dimensions are bounded by the device's default
    /// texture limit.
    pub fn new(device: &wgpu::Device, width: u32, height: u32) -> (r: Result<GrainRenderer,
        GrainError,
    >)
        requires
            1 <= width <= 8192,
            1 <= height <= 8192,
        ensures
            r is Ok,
            r matches Ok(g) ==> g.spec_width() == width && g.spec_height() == height && g.wf(),
    {
        let pipeline = match GrainComputePipeline::new(device) {
            Ok(p) => p,
            Err(e) => {
                return Err(e);
            },
        };
        let output_texture = gpu::create_output_texture(device, width, height);
        let params_buffer = gpu::create_uniform_buffer(device, 32);
        let bind_group_layout = gpu::bind_group_layout_of(&pipeline.pipeline, 0);
        let texture_view = gpu::create_texture_view(&output_texture);
        let bind_group = gpu::create_bind_group(
            device,
            &bind_group_layout,
            &texture_view,
            &params_buffer,
        );
        Ok(
            GrainRenderer {
                pipeline,
                output_texture,
                bind_group_layout,
                bind_group,
                params_buffer,
                width,
                height,
            },
        )
    }

    /// Record and submit one frame: overwrite the whole uniform buffer with
    /// the serialized parameters, record exactly one dispatch of
    /// `⌈width/8⌉ × ⌈height/8⌉ × 1` workgroups against the owned binding
    /// set, and submit exactly one command buffer. Returns without waiting
    /// for device completion; a reader of the output texture must wait for
    /// the queue first.
    pub fn render(&self, device: &wgpu::Device, queue: &wgpu::Queue, params: &GrainParams) -> (t:
        Ghost<FrameTrace>)
        requires
            self.wf(),
        ensures
            t@.uploaded == params.bytes_spec(),
            t@.workgroups.0 == workgroup_count(self.spec_width()),
            t@.workgroups.1 == workgroup_count(self.spec_height()),
            t@.workgroups.2 == 1,
            t@.submits == 1,
    {
        let bytes = params.to_bytes();
        gpu::write_buffer(queue, &self.params_buffer, bytes.as_slice());
        let mut encoder = gpu::create_command_encoder(device);
        let mut pass = gpu::begin_compute_pass(&mut encoder);
        gpu::set_pipeline(&mut pass, &self.pipeline.pipeline);
        gpu::set_bind_group(&mut pass, &self.bind_group);
        let wx = dispatch_size(self.width);
        let wy = dispatch_size(self.height);
        gpu::dispatch_workgroups(&mut pass, wx, wy, 1);
        gpu::end_compute_pass(pass);
        let command_buffer = gpu::finish_encoder(encoder);
        gpu::submit(queue, command_buffer);
        Ghost(FrameTrace { uploaded: bytes@, workgroups: (wx, wy, 1), submits: 1 })
    }

    /// The renderable artifact: the texture the last submitted dispatch
    /// writes.
    pub fn output_texture(&self) -> &wgpu::Texture {
        &self.output_texture
    }

    pub fn width(&self) -> (w: u32)
        ensures
            w == self.spec_width(),
    {
        self.width
    }

    pub fn height(&self) -> (h: u32)
        ensures
            h == self.spec_height(),
    {
        self.height
    }
}

} // verus!
