//! Shared handles to the execution device and its single submission queue.
use vstd::prelude::*;

verus! {

/// The compute-capable device and its submission queue, acquired once at
/// startup and shared by every GPU-owning component. `wgpu` handles are
/// internally reference-counted, so the context can be cloned freely.
pub struct GpuContext {
    pub device: wgpu::Device,
    pub queue: wgpu::Queue,
}

impl GpuContext {
    /// Wrap already-acquired handles. Acquisition itself (instance,
    /// adapter, device request) happens outside this crate; when no
    /// compute-capable device exists the caller surfaces
    /// [`crate::error::GrainError::GpuInit`] and does not construct a
    /// context at all.
    pub fn new(device: wgpu::Device, queue: wgpu::Queue) -> (r: Self)
        ensures
            r.device == device,
            r.queue == queue,
    {
        GpuContext { device, queue }
    }
}

} // verus!
