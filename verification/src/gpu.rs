//! Trusted bindings to the `wgpu` compute API.
//!
//! Every GPU object is opaque here: the verified engine code decides what is
//! created, what bytes are uploaded and how many workgroups are dispatched,
//! and each binding below performs exactly one `wgpu` call with those
//! decisions. Nothing about the device's behaviour is assumed beyond what
//! each item's comment states.
use vstd::prelude::*;

verus! {

#[verifier::external_type_specification]
#[verifier::external_body]
pub struct ExDevice(wgpu::Device);

#[verifier::external_type_specification]
#[verifier::external_body]
pub struct ExQueue(wgpu::Queue);

#[verifier::external_type_specification]
#[verifier::external_body]
pub struct ExShaderModule(wgpu::ShaderModule);

#[verifier::external_type_specification]
#[verifier::external_body]
pub struct ExComputePipeline(wgpu::ComputePipeline);

#[verifier::external_type_specification]
#[verifier::external_body]
pub struct ExBindGroupLayout(wgpu::BindGroupLayout);

#[verifier::external_type_specification]
#[verifier::external_body]
pub struct ExBindGroup(wgpu::BindGroup);

#[verifier::external_type_specification]
#[verifier::external_body]
pub struct ExTexture(wgpu::Texture);

#[verifier::external_type_specification]
#[verifier::external_body]
pub struct ExTextureView(wgpu::TextureView);

#[verifier::external_type_specification]
#[verifier::external_body]
pub struct ExBuffer(wgpu::Buffer);

#[verifier::external_type_specification]
#[verifier::external_body]
pub struct ExCommandEncoder(wgpu::CommandEncoder);

#[verifier::external_type_specification]
#[verifier::external_body]
pub struct ExCommandBuffer(wgpu::CommandBuffer);

#[verifier::external_type_specification]
#[verifier::external_body]
pub struct ExComputePass<'a>(wgpu::ComputePass<'a>);

/// Relies on `wgpu::Device::create_shader_module`: compiles WGSL source
/// into a shader module. Source that does not compile raises a validation
/// error, which panics under the default error handler, so only the
/// crate's one fixed program — kept valid WGSL — is admitted.
#[verifier::external_body]
pub(crate) fn create_shader_module(device: &wgpu::Device, source: String) -> wgpu::ShaderModule
    requires
        source@ == crate::compute_pipeline::shader_program_text(),
{
    device.create_shader_module(
        wgpu::ShaderModuleDescriptor {
            label: Some("Grain Compute Shader"),
            source: wgpu::ShaderSource::Wgsl(source.into()),
        },
    )
}

/// Relies on `wgpu::Device::create_compute_pipeline` with `layout: None`:
/// builds a pipeline for the module's sole `main` entry point, deriving the
/// binding layout from the shader's own declarations.
#[verifier::external_body]
pub(crate) fn create_compute_pipeline(
    device: &wgpu::Device,
    module: &wgpu::ShaderModule,
) -> wgpu::ComputePipeline {
    device.create_compute_pipeline(
        &wgpu::ComputePipelineDescriptor {
            label: Some("Grain Pipeline"),
            layout: None,
            module,
            entry_point: Some("main"),
            compilation_options: Default::default(),
            cache: None,
        },
    )
}

/// Relies on `wgpu::ComputePipeline::get_bind_group_layout`: returns the
/// auto-derived layout for one bind group of the pipeline. An index with no
/// bind group raises a validation error, and the grain shader declares
/// group 0 only, so only index 0 is admitted.
#[verifier::external_body]
pub(crate) fn bind_group_layout_of(
    pipeline: &wgpu::ComputePipeline,
    index: u32,
) -> wgpu::BindGroupLayout
    requires
        index == 0,
{
    pipeline.get_bind_group_layout(index)
}

/// Relies on `wgpu::Device::create_texture`: allocates a `width` by
/// `height` two-dimensional texture of format `Rgba8Unorm`, usable as a
/// compute write target, a sampled texture, and a copy source. A zero
/// dimension, or one above `max_texture_dimension_2d` — 8192 under the
/// default limits this crate's devices are requested with — raises a
/// validation error, so both dimensions are kept in `[1, 8192]`.
#[verifier::external_body]
pub(crate) fn create_output_texture(
    device: &wgpu::Device,
    width: u32,
    height: u32,
) -> wgpu::Texture
    requires
        1 <= width <= 8192,
        1 <= height <= 8192,
{
    device.create_texture(
        &wgpu::TextureDescriptor {
            label: Some("Grain Output Texture"),
            size: wgpu::Extent3d { width, height, depth_or_array_layers: 1 },
            mip_level_count: 1,
            sample_count: 1,
            dimension: wgpu::TextureDimension::D2,
            format: wgpu::TextureFormat::Rgba8Unorm,
            usage: wgpu::TextureUsages::STORAGE_BINDING | wgpu::TextureUsages::TEXTURE_BINDING
                | wgpu::TextureUsages::COPY_SRC,
            view_formats: &[],
        },
    )
}

/// Relies on `wgpu::Texture::create_view`: a full default view of the
/// texture.
#[verifier::external_body]
pub(crate) fn create_texture_view(texture: &wgpu::Texture) -> wgpu::TextureView {
    texture.create_view(&wgpu::TextureViewDescriptor::default())
}

/// Relies on `wgpu::Device::create_buffer`: allocates a `size`-byte uniform
/// buffer the host can copy into. An oversized request raises a validation
/// error; the crate only ever allocates the one 32-byte parameter record,
/// so exactly that size is admitted.
#[verifier::external_body]
pub(crate) fn create_uniform_buffer(device: &wgpu::Device, size: u64) -> wgpu::Buffer
    requires
        size == 32,
{
    device.create_buffer(
        &wgpu::BufferDescriptor {
            label: Some("Grain Params Buffer"),
            size,
            usage: wgpu::BufferUsages::UNIFORM | wgpu::BufferUsages::COPY_DST,
            mapped_at_creation: false,
        },
    )
}

/// Relies on `wgpu::Device::create_bind_group`: binds slot 0 to the texture
/// view (the write target) and slot 1 to the whole uniform buffer, under
/// the given layout.
#[verifier::external_body]
pub(crate) fn create_bind_group(
    device: &wgpu::Device,
    layout: &wgpu::BindGroupLayout,
    view: &wgpu::TextureView,
    buffer: &wgpu::Buffer,
) -> wgpu::BindGroup {
    device.create_bind_group(
        &wgpu::BindGroupDescriptor {
            label: Some("Grain Bind Group"),
            layout,
            entries: &[
                wgpu::BindGroupEntry {
                    binding: 0,
                    resource: wgpu::BindingResource::TextureView(view),
                },
                wgpu::BindGroupEntry { binding: 1, resource: buffer.as_entire_binding() },
            ],
        },
    )
}

/// Relies on `wgpu::Queue::write_buffer`: schedules a full overwrite of the
/// buffer, starting at offset 0, with exactly the given bytes. The data
/// must fit the buffer and its length must be a multiple of 4, else the
/// write raises a validation error; every buffer written here is the
/// 32-byte parameter buffer, so exactly 32 bytes are admitted (that the
/// opaque `buffer` is that buffer cannot be stated here).
#[verifier::external_body]
pub(crate) fn write_buffer(queue: &wgpu::Queue, buffer: &wgpu::Buffer, data: &[u8])
    requires
        data@.len() == 32,
{
    queue.write_buffer(buffer, 0, data);
}

/// Relies on `wgpu::Device::create_command_encoder`: a fresh encoder with
/// no recorded commands.
#[verifier::external_body]
pub(crate) fn create_command_encoder(device: &wgpu::Device) -> wgpu::CommandEncoder {
    device.create_command_encoder(
        &wgpu::CommandEncoderDescriptor { label: Some("Grain Compute Encoder") },
    )
}

/// Relies on `wgpu::CommandEncoder::begin_compute_pass`: opens one compute
/// pass on the encoder. The pass must be dropped (`end_compute_pass`)
/// before the encoder is finished.
#[verifier::external_body]
pub(crate) fn begin_compute_pass(encoder: &mut wgpu::CommandEncoder) -> wgpu::ComputePass<
    'static,
> {
    encoder.begin_compute_pass(
        &wgpu::ComputePassDescriptor { label: Some("Grain Compute Pass"), timestamp_writes: None },
    ).forget_lifetime()
}

/// Relies on `wgpu::ComputePass::set_pipeline`: makes the pipeline active
/// for subsequent dispatches in this pass.
#[verifier::external_body]
pub(crate) fn set_pipeline(pass: &mut wgpu::ComputePass<'static>, pipeline: &wgpu::ComputePipeline) {
    pass.set_pipeline(pipeline);
}

/// Relies on `wgpu::ComputePass::set_bind_group`: binds the group at index
/// 0 with no dynamic offsets.
#[verifier::external_body]
pub(crate) fn set_bind_group(pass: &mut wgpu::ComputePass<'static>, group: &wgpu::BindGroup) {
    pass.set_bind_group(0, group, &[]);
}

/// Relies on `wgpu::ComputePass::dispatch_workgroups`: records exactly one
/// dispatch of `x` by `y` by `z` workgroups. A count above
/// `max_compute_workgroups_per_dimension` (65535 under the default limits)
/// records an error that panics when the encoder is finished, so each
/// count is bounded.
#[verifier::external_body]
pub(crate) fn dispatch_workgroups(pass: &mut wgpu::ComputePass<'static>, x: u32, y: u32, z: u32)
    requires
        x <= 65535,
        y <= 65535,
        z <= 65535,
{
    pass.dispatch_workgroups(x, y, z);
}

/// Relies on `wgpu::ComputePass`'s drop: ends the pass, sealing what was
/// recorded into the encoder it was begun on.
#[verifier::external_body]
pub(crate) fn end_compute_pass(pass: wgpu::ComputePass<'static>) {
    drop(pass);
}

/// Relies on `wgpu::CommandEncoder::finish`: seals the encoder into a
/// submittable command buffer.
#[verifier::external_body]
pub(crate) fn finish_encoder(encoder: wgpu::CommandEncoder) -> wgpu::CommandBuffer {
    encoder.finish()
}

/// Relies on `wgpu::Queue::submit`: hands exactly one command buffer to
/// the queue; buffers submitted to the same queue execute in submission
/// order.
#[verifier::external_body]
pub(crate) fn submit(queue: &wgpu::Queue, buffer: wgpu::CommandBuffer) {
    let _ = queue.submit([buffer]);
}

} // verus!
