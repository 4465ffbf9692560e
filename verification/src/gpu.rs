//! The four stages of the compute pipeline: device negotiation, resource
//! allocation, kernel dispatch, and the transfer-and-sync readback.
//!
//! Every call into the GPU library stands behind a trusted wrapper whose
//! contract states only what that library's source shows; the arithmetic that
//! feeds the descriptors (row stride, buffer size, workgroup grid) and the
//! depadding of the readback bytes are verified in `crate::layout`.

use crate::layout::{
    compute_work_group_count, depad_rows, padded_bytes_per_row, spec_depad, spec_grid_dim,
    spec_output_buffer_size, spec_padded_row_bytes, TILE_SIZE,
};
use std::io::Write;
use vstd::prelude::*;

verus! {

// ----- Declarations of the GPU library's opaque handle types -----

#[verifier::external_type_specification]
#[verifier::external_body]
pub struct ExInstance(wgpu::Instance);

#[verifier::external_type_specification]
#[verifier::external_body]
pub struct ExAdapter(wgpu::Adapter);

#[verifier::external_type_specification]
#[verifier::external_body]
pub struct ExDevice(wgpu::Device);

#[verifier::external_type_specification]
#[verifier::external_body]
pub struct ExQueue(wgpu::Queue);

#[verifier::external_type_specification]
#[verifier::external_body]
pub struct ExTexture(wgpu::Texture);

#[verifier::external_type_specification]
#[verifier::external_body]
pub struct ExBuffer(wgpu::Buffer);

#[verifier::external_type_specification]
#[verifier::external_body]
pub struct ExShaderModule(wgpu::ShaderModule);

#[verifier::external_type_specification]
#[verifier::external_body]
pub struct ExComputePipeline(wgpu::ComputePipeline);

#[verifier::external_type_specification]
#[verifier::external_body]
pub struct ExBindGroup(wgpu::BindGroup);

#[verifier::external_type_specification]
#[verifier::external_body]
pub struct ExCommandEncoder(wgpu::CommandEncoder);

// ----- Error taxonomy -----

/// A terminal failure of one pipeline stage. Every synchronous stage surfaces
/// its error immediately; later stages are never entered after a failure.
#[derive(Debug, Clone, PartialEq, Eq)]
pub enum GpuError {
    /// No adapter matched the selection criteria (primary backends,
    /// high-performance preference, headless).
    AdapterUnavailable,
    /// The adapter rejected the device-and-queue negotiation; carries the
    /// backend's diagnostic.
    DeviceRequestFailed(String),
    /// The device reported resource exhaustion while a texture or the
    /// readback buffer was allocated; carries the device's diagnostic.
    AllocationFailed(String),
    /// The asynchronous map of the readback buffer resolved to an error;
    /// carries the backend's diagnostic.
    MapFailed(String),
}

// ----- Handles owned by the pipeline -----

/// The opened logical device and its command queue, exclusively owned by the
/// single thread that drives the pipeline.
pub struct DeviceHandle {
    device: wgpu::Device,
    queue: wgpu::Queue,
}

/// The input texture (binding source, copy destination), the output texture
/// (copy source, storage target), and the image dimensions they were built
/// for.
pub struct ImageTextures {
    input: wgpu::Texture,
    output: wgpu::Texture,
    width: u32,
    height: u32,
}

impl ImageTextures {
    /// The image width the textures were allocated for.
    pub closed spec fn spec_width(self) -> u32 {
        self.width
    }

    /// The image height the textures were allocated for.
    pub closed spec fn spec_height(self) -> u32 {
        self.height
    }
}

/// The row-aligned linear readback buffer (copy destination, map-readable).
/// `size` is the exact byte size the buffer was created with.
pub struct ReadbackBuffer {
    buffer: wgpu::Buffer,
    size: u64,
}

impl ReadbackBuffer {
    /// The exact byte size the buffer was created with.
    pub closed spec fn spec_size(self) -> u64 {
        self.size
    }
}

/// The compiled kernel program together with the bind group that associates
/// the input texture view with slot 0 and the output texture view with
/// slot 1 of the kernel's declared binding layout.
pub struct KernelPipeline {
    pipeline: wgpu::ComputePipeline,
    bind_group: wgpu::BindGroup,
}

// ----- Trusted wrappers around the GPU library -----

/// Relies on wgpu::Instance::new: enumerates only the primary (non-fallback)
/// backends.
#[verifier::external_body]
fn new_instance() -> wgpu::Instance {
    wgpu::Instance::new(wgpu::InstanceDescriptor {
        backends: wgpu::Backends::PRIMARY,
        ..wgpu::InstanceDescriptor::new_without_display_handle()
    })
}

/// Relies on wgpu::Instance::request_adapter: yields an adapter with a
/// high-performance preference and no presentation surface, or nothing when
/// no adapter matches. Whether an adapter exists depends on the machine, so
/// nothing is promised of the outcome.
#[verifier::external_body]
fn request_adapter(instance: &wgpu::Instance) -> Option<wgpu::Adapter> {
    pollster::block_on(instance.request_adapter(&wgpu::RequestAdapterOptions {
        power_preference: wgpu::PowerPreference::HighPerformance,
        force_fallback_adapter: false,
        compatible_surface: None,
        apply_limit_buckets: false,
    }))
        .ok()
}

/// Relies on wgpu::Adapter::request_device with default feature and limit
/// negotiation: yields the device and its queue, or the backend's diagnostic
/// when the negotiation is rejected.
#[verifier::external_body]
fn request_device(adapter: &wgpu::Adapter) -> Result<(wgpu::Device, wgpu::Queue), String> {
    pollster::block_on(adapter.request_device(&wgpu::DeviceDescriptor::default()))
        .map_err(|e| format!("{e}"))
}

/// Relies on wgpu::Device::on_uncaptured_error: forwards asynchronous
/// device-level errors to the diagnostic stream without aborting the caller.
#[verifier::external_body]
fn install_error_sink(device: &wgpu::Device) {
    device.on_uncaptured_error(std::sync::Arc::new(|e: wgpu::Error| {
        let _ = writeln!(std::io::stderr().lock(), "uncaptured device error: {e}");
    }));
}

/// Relies on wgpu::Device::create_texture inside an out-of-memory error
/// scope (Device::push_error_scope, ErrorScopeGuard::pop): the input texture,
/// a 2D 4-byte-per-pixel normalized texture usable as a binding source and a
/// copy destination, or the device's diagnostic on resource exhaustion.
#[verifier::external_body]
fn create_input_texture(device: &wgpu::Device, width: u32, height: u32) -> Result<
    wgpu::Texture,
    String,
> {
    let scope = device.push_error_scope(wgpu::ErrorFilter::OutOfMemory);
    let texture = device.create_texture(&wgpu::TextureDescriptor {
        label: Some("input texture"),
        size: wgpu::Extent3d { width, height, depth_or_array_layers: 1 },
        mip_level_count: 1, sample_count: 1, dimension: wgpu::TextureDimension::D2,
        format: wgpu::TextureFormat::Rgba8Unorm,
        view_formats: &[wgpu::TextureFormat::Rgba8Unorm],
        usage: wgpu::TextureUsages::TEXTURE_BINDING | wgpu::TextureUsages::COPY_DST,
    });
    match pollster::block_on(scope.pop()) {
        None => Ok(texture),
        Some(e) => Err(format!("{e}")),
    }
}

/// Relies on wgpu::Device::create_texture inside an out-of-memory error
/// scope: the output texture, a 2D 4-byte-per-pixel normalized texture usable
/// as a copy source and a storage target, or the device's diagnostic on
/// resource exhaustion.
#[verifier::external_body]
fn create_output_texture(device: &wgpu::Device, width: u32, height: u32) -> Result<
    wgpu::Texture,
    String,
> {
    let scope = device.push_error_scope(wgpu::ErrorFilter::OutOfMemory);
    let texture = device.create_texture(&wgpu::TextureDescriptor {
        label: Some("output texture"),
        size: wgpu::Extent3d { width, height, depth_or_array_layers: 1 },
        mip_level_count: 1, sample_count: 1, dimension: wgpu::TextureDimension::D2,
        format: wgpu::TextureFormat::Rgba8Unorm,
        view_formats: &[wgpu::TextureFormat::Rgba8Unorm],
        usage: wgpu::TextureUsages::COPY_SRC | wgpu::TextureUsages::STORAGE_BINDING,
    });
    match pollster::block_on(scope.pop()) {
        None => Ok(texture),
        Some(e) => Err(format!("{e}")),
    }
}

/// Relies on wgpu::Device::create_buffer inside an out-of-memory error
/// scope: a copy-destination, map-readable buffer of exactly `size` bytes
/// (create_buffer returns a buffer of the descriptor's `size`), or the
/// device's diagnostic on resource exhaustion.
#[verifier::external_body]
fn create_readback_buffer(device: &wgpu::Device, size: u64) -> (r: Result<ReadbackBuffer, String>)
    ensures
        r matches Ok(b) ==> b.size == size,
{
    let scope = device.push_error_scope(wgpu::ErrorFilter::OutOfMemory);
    let buffer = device.create_buffer(&wgpu::BufferDescriptor {
        label: Some("output buffer"),
        size,
        usage: wgpu::BufferUsages::COPY_DST | wgpu::BufferUsages::MAP_READ,
        mapped_at_creation: false,
    });
    match pollster::block_on(scope.pop()) {
        None => Ok(ReadbackBuffer { buffer, size }),
        Some(e) => Err(format!("{e}")),
    }
}

/// Relies on wgpu::Queue::write_texture: schedules the upload of the tightly
/// packed pixel bytes into the texture, one image with a row stride of
/// `width * 4` bytes.
#[verifier::external_body]
fn write_input_texture(queue: &wgpu::Queue, texture: &wgpu::Texture, pixels: &Vec<u8>, width: u32, height: u32)
    requires
        width * 4 <= u32::MAX,
        pixels@.len() == height * (width * 4),
{
    queue.write_texture(
        texture.as_image_copy(),
        pixels.as_slice(),
        wgpu::TexelCopyBufferLayout { offset: 0, bytes_per_row: Some(4 * width), rows_per_image: None },
        wgpu::Extent3d { width, height, depth_or_array_layers: 1 },
    );
}

/// Relies on wgpu::Device::create_shader_module: compiles the opaque kernel
/// program.
#[verifier::external_body]
fn create_shader_module(device: &wgpu::Device, source: &str) -> wgpu::ShaderModule {
    device.create_shader_module(wgpu::ShaderModuleDescriptor {
        label: Some("kernel"),
        source: wgpu::ShaderSource::Wgsl(source.into()),
    })
}

/// Relies on wgpu::Device::create_compute_pipeline: builds the pipeline for
/// the named entry point, deriving the binding layout from the kernel's
/// declared resource bindings.
#[verifier::external_body]
fn create_pipeline(device: &wgpu::Device, module: &wgpu::ShaderModule, entry_point: &str) -> wgpu::ComputePipeline {
    device.create_compute_pipeline(&wgpu::ComputePipelineDescriptor {
        label: Some("kernel pipeline"),
        layout: None,
        module,
        entry_point: Some(entry_point),
        compilation_options: Default::default(),
        cache: None,
    })
}

/// Relies on wgpu::Device::create_bind_group with the pipeline's derived
/// layout (ComputePipeline::get_bind_group_layout, Texture::create_view):
/// binds the input texture view to slot 0 and the output texture view to
/// slot 1.
#[verifier::external_body]
fn create_bind_group(device: &wgpu::Device, pipeline: &wgpu::ComputePipeline, input: &wgpu::Texture, output: &wgpu::Texture) -> wgpu::BindGroup {
    let input_view = input.create_view(&wgpu::TextureViewDescriptor::default());
    let output_view = output.create_view(&wgpu::TextureViewDescriptor::default());
    device.create_bind_group(&wgpu::BindGroupDescriptor {
        label: Some("texture bind group"),
        layout: &pipeline.get_bind_group_layout(0),
        entries: &[
            wgpu::BindGroupEntry { binding: 0, resource: wgpu::BindingResource::TextureView(&input_view) },
            wgpu::BindGroupEntry { binding: 1, resource: wgpu::BindingResource::TextureView(&output_view) },
        ],
    })
}

/// Relies on wgpu::Device::create_command_encoder: opens an empty command
/// sequence.
#[verifier::external_body]
fn create_command_encoder(device: &wgpu::Device) -> wgpu::CommandEncoder {
    device.create_command_encoder(&wgpu::CommandEncoderDescriptor { label: None })
}

/// Relies on wgpu::CommandEncoder::begin_compute_pass and the pass methods
/// set_pipeline, set_bind_group and dispatch_workgroups: records one compute
/// pass that binds the resource group at index 0 and issues a single
/// (x, y, 1) dispatch, then closes the pass.
#[verifier::external_body]
fn record_compute_pass(encoder: &mut wgpu::CommandEncoder, pipeline: &wgpu::ComputePipeline, bind_group: &wgpu::BindGroup, x: u32, y: u32) {
    let mut pass = encoder.begin_compute_pass(&wgpu::ComputePassDescriptor {
        label: Some("kernel pass"),
        timestamp_writes: None,
    });
    pass.set_pipeline(pipeline);
    pass.set_bind_group(0, bind_group, &[]);
    pass.dispatch_workgroups(x, y, 1);
}

/// Relies on wgpu::CommandEncoder::copy_texture_to_buffer: records the
/// device-to-host copy whose destination row stride is `padded_row` bytes.
#[verifier::external_body]
fn record_copy_to_buffer(encoder: &mut wgpu::CommandEncoder, texture: &wgpu::Texture, buffer: &ReadbackBuffer, width: u32, height: u32, padded_row: u32) {
    encoder.copy_texture_to_buffer(
        texture.as_image_copy(),
        wgpu::TexelCopyBufferInfo {
            buffer: &buffer.buffer,
            layout: wgpu::TexelCopyBufferLayout {
                offset: 0, bytes_per_row: Some(padded_row), rows_per_image: Some(height),
            },
        },
        wgpu::Extent3d { width, height, depth_or_array_layers: 1 },
    );
}

/// Relies on wgpu::Queue::submit (and CommandEncoder::finish): closes the
/// command sequence and submits it atomically; the recorded operations
/// execute on the device in submission order and the call does not block.
#[verifier::external_body]
fn submit_commands(queue: &wgpu::Queue, encoder: wgpu::CommandEncoder) {
    queue.submit(Some(encoder.finish()));
}

/// Relies on wgpu::Buffer::map_async for read access, wgpu::Device::poll
/// with an indefinite wait (the pipeline's one suspension point), and
/// BufferSlice::get_mapped_range, whose view spans the whole mapped buffer:
/// on success, exactly `buffer.size` bytes; on failure, the backend's
/// diagnostic.
#[verifier::external_body]
fn map_and_read(device: &wgpu::Device, buffer: &ReadbackBuffer) -> (r: Result<Vec<u8>, String>)
    requires
        buffer.size <= usize::MAX,
    ensures
        r matches Ok(v) ==> v@.len() == buffer.size,
{
    let slice = buffer.buffer.slice(..);
    slice.map_async(wgpu::MapMode::Read, |_| {});
    device.poll(wgpu::PollType::wait_indefinitely()).map_err(|e| format!("{e}"))?;
    let view = slice.get_mapped_range().map_err(|e| format!("{e}"))?;
    let data = view.to_vec();
    drop(view);
    buffer.buffer.unmap();
    Ok(data)
}

// ----- Verified outcome mapping, one function per stage error -----

/// An adapter must exist for the run to go on: a missing adapter is exactly
/// the `AdapterUnavailable` failure.
pub fn require_adapter<A>(adapter: Option<A>) -> (r: Result<A, GpuError>)
    ensures
        adapter matches Some(a) ==> (r matches Ok(x) && x == a),
        adapter is None ==> (r matches Err(e) && e == GpuError::AdapterUnavailable),
{
    match adapter {
        Some(a) => Ok(a),
        None => Err(GpuError::AdapterUnavailable),
    }
}

/// A rejected device negotiation is exactly the `DeviceRequestFailed`
/// failure, carrying the backend's diagnostic.
pub fn device_outcome<D>(outcome: Result<D, String>) -> (r: Result<D, GpuError>)
    ensures
        outcome matches Ok(d) ==> (r matches Ok(x) && x == d),
        outcome matches Err(m) ==> (r matches Err(e) && e == GpuError::DeviceRequestFailed(m)),
{
    match outcome {
        Ok(d) => Ok(d),
        Err(m) => Err(GpuError::DeviceRequestFailed(m)),
    }
}

/// Reported resource exhaustion is exactly the `AllocationFailed` failure,
/// carrying the device's diagnostic.
pub fn allocation_outcome<T>(outcome: Result<T, String>) -> (r: Result<T, GpuError>)
    ensures
        outcome matches Ok(t) ==> (r matches Ok(x) && x == t),
        outcome matches Err(m) ==> (r matches Err(e) && e == GpuError::AllocationFailed(m)),
{
    match outcome {
        Ok(t) => Ok(t),
        Err(m) => Err(GpuError::AllocationFailed(m)),
    }
}

/// An asynchronous map that resolved to an error is exactly the `MapFailed`
/// failure, carrying the backend's diagnostic.
pub fn map_outcome<T>(outcome: Result<T, String>) -> (r: Result<T, GpuError>)
    ensures
        outcome matches Ok(t) ==> (r matches Ok(x) && x == t),
        outcome matches Err(m) ==> (r matches Err(e) && e == GpuError::MapFailed(m)),
{
    match outcome {
        Ok(t) => Ok(t),
        Err(m) => Err(GpuError::MapFailed(m)),
    }
}

// ----- The four stages -----

/// Enumerate the primary backends, select a compute-capable adapter with a
/// high-performance preference and no presentation surface, and open its
/// logical device and queue with default feature and limit negotiation.
/// Installs the out-of-band error sink on the device.
pub fn establish() -> (r: Result<DeviceHandle, GpuError>)
    ensures
        r matches Err(e) ==> e is AdapterUnavailable || e is DeviceRequestFailed,
{
    let instance = new_instance();
    let adapter = match require_adapter(request_adapter(&instance)) {
        Ok(a) => a,
        Err(e) => {
            return Err(e);
        },
    };
    match device_outcome(request_device(&adapter)) {
        Ok((device, queue)) => {
            install_error_sink(&device);
            Ok(DeviceHandle { device, queue })
        },
        Err(e) => Err(e),
    }
}

/// Allocate the input texture, the output texture, and the row-aligned
/// readback buffer sized `height * spec_padded_row_bytes(width)` exactly.
pub fn create_image_pair(dev: &DeviceHandle, width: u32, height: u32) -> (r: Result<
    (ImageTextures, ReadbackBuffer),
    GpuError,
>)
    requires
        width >= 1,
        height >= 1,
        width * 4 + 255 <= usize::MAX,
        spec_output_buffer_size(width as int, height as int) <= u64::MAX,
    ensures
        r matches Ok(pair) ==> {
            &&& pair.0.spec_width() == width
            &&& pair.0.spec_height() == height
            &&& pair.1.spec_size() == spec_output_buffer_size(width as int, height as int)
        },
        r matches Err(e) ==> e is AllocationFailed,
{
    let padded_row: usize = padded_bytes_per_row(width);
    let size: u64 = height as u64 * padded_row as u64;
    let input = match allocation_outcome(create_input_texture(&dev.device, width, height)) {
        Ok(t) => t,
        Err(e) => {
            return Err(e);
        },
    };
    let output = match allocation_outcome(create_output_texture(&dev.device, width, height)) {
        Ok(t) => t,
        Err(e) => {
            return Err(e);
        },
    };
    let buffer = match allocation_outcome(create_readback_buffer(&dev.device, size)) {
        Ok(b) => b,
        Err(e) => {
            return Err(e);
        },
    };
    Ok((ImageTextures { input, output, width, height }, buffer))
}

/// Schedule the upload of the tightly packed source pixels into the input
/// texture.
pub fn upload_pixels(dev: &DeviceHandle, textures: &ImageTextures, pixels: &Vec<u8>)
    requires
        textures.spec_width() * 4 <= u32::MAX,
        pixels@.len() == textures.spec_height() * (textures.spec_width() * 4),
{
    write_input_texture(&dev.queue, &textures.input, pixels, textures.width, textures.height);
}

/// Compile the opaque kernel program, build its compute pipeline with the
/// binding layout derived from the kernel's declared bindings, and bind the
/// input texture view to slot 0 and the output texture view to slot 1.
pub fn build_pipeline(dev: &DeviceHandle, textures: &ImageTextures, kernel_source: &str, entry_point: &str) -> (r: KernelPipeline)
{
    let module = create_shader_module(&dev.device, kernel_source);
    let pipeline = create_pipeline(&dev.device, &module, entry_point);
    let bind_group = create_bind_group(&dev.device, &pipeline, &textures.input, &textures.output);
    KernelPipeline { pipeline, bind_group }
}

/// Open a command encoder for the run's single command sequence.
pub fn open_command_sequence(dev: &DeviceHandle) -> wgpu::CommandEncoder {
    create_command_encoder(&dev.device)
}

/// Record one compute pass that dispatches the kernel over a 16x16-tiled
/// workgroup grid covering the whole image, and report the grid used.
pub fn dispatch(encoder: &mut wgpu::CommandEncoder, kernel: &KernelPipeline, width: u32, height: u32) -> (grid: (u32, u32))
    requires
        width >= 1,
        height >= 1,
    ensures
        grid.0 == spec_grid_dim(width as int, TILE_SIZE as int),
        grid.1 == spec_grid_dim(height as int, TILE_SIZE as int),
        grid.0 * TILE_SIZE >= width && (grid.0 - 1) * TILE_SIZE < width,
        grid.1 * TILE_SIZE >= height && (grid.1 - 1) * TILE_SIZE < height,
{
    let grid = compute_work_group_count((width, height), (TILE_SIZE, TILE_SIZE));
    proof {
        crate::layout::lemma_grid_covers(width as int, TILE_SIZE as int);
        crate::layout::lemma_grid_covers(height as int, TILE_SIZE as int);
    }
    record_compute_pass(encoder, &kernel.pipeline, &kernel.bind_group, grid.0, grid.1);
    grid
}

/// Record the device-to-host copy with the padded row stride, submit the
/// full command sequence, await the asynchronous map of the readback buffer,
/// and strip the row padding: on success, exactly the image's
/// `height * width * 4` tightly packed pixel bytes.
pub fn readback(dev: &DeviceHandle, textures: &ImageTextures, buffer: ReadbackBuffer, encoder: wgpu::CommandEncoder) -> (r: Result<Vec<u8>, GpuError>)
    requires
        textures.spec_width() >= 1,
        textures.spec_width() * 4 + 255 <= usize::MAX,
        spec_padded_row_bytes(textures.spec_width() as int) <= u32::MAX,
        buffer.spec_size() == spec_output_buffer_size(
            textures.spec_width() as int,
            textures.spec_height() as int,
        ),
        buffer.spec_size() <= usize::MAX,
    ensures
        r matches Ok(pixels) ==> pixels@.len() == textures.spec_height() * (textures.spec_width()
            * 4),
        r matches Ok(pixels) ==> exists|raw: Seq<u8>|
            raw.len() == buffer.spec_size() && pixels@ == #[trigger] spec_depad(
                raw,
                textures.spec_width() as int,
                textures.spec_height() as int,
            ),
        r matches Err(e) ==> e is MapFailed,
{
    let mut encoder = encoder;
    let padded_row: usize = padded_bytes_per_row(textures.width);
    record_copy_to_buffer(
        &mut encoder,
        &textures.output,
        &buffer,
        textures.width,
        textures.height,
        padded_row as u32,
    );
    submit_commands(&dev.queue, encoder);
    let padded_data = match map_outcome(map_and_read(&dev.device, &buffer)) {
        Ok(v) => v,
        Err(e) => {
            return Err(e);
        },
    };
    let pixels = depad_rows(&padded_data, textures.width, textures.height);
    proof {
        assert(pixels@ == spec_depad(padded_data@, textures.width as int, textures.height as int));
    }
    Ok(pixels)
}

/// Run the whole pipeline once, in strict dependency order: negotiate the
/// device, allocate the resources, upload the pixels, dispatch the kernel,
/// and read the result back depadded. On success the result holds exactly
/// `height * width * 4` tightly packed pixel bytes.
pub fn run_compute(kernel_source: &str, entry_point: &str, width: u32, height: u32, pixels: &Vec<u8>) -> (r: Result<Vec<u8>, GpuError>)
    requires
        width >= 1,
        height >= 1,
        width * 4 <= u32::MAX,
        width * 4 + 255 <= usize::MAX,
        spec_padded_row_bytes(width as int) <= u32::MAX,
        spec_output_buffer_size(width as int, height as int) <= u64::MAX,
        spec_output_buffer_size(width as int, height as int) <= usize::MAX,
        pixels@.len() == height * (width * 4),
    ensures
        r matches Ok(out) ==> out@.len() == height * (width * 4),
        r matches Ok(out) ==> exists|raw: Seq<u8>|
            raw.len() == spec_output_buffer_size(width as int, height as int) && out@
                == #[trigger] spec_depad(raw, width as int, height as int),
{
    let dev = match establish() {
        Ok(d) => d,
        Err(e) => {
            return Err(e);
        },
    };
    let (textures, buffer) = match create_image_pair(&dev, width, height) {
        Ok(pair) => pair,
        Err(e) => {
            return Err(e);
        },
    };
    upload_pixels(&dev, &textures, pixels);
    let kernel = build_pipeline(&dev, &textures, kernel_source, entry_point);
    let mut encoder = open_command_sequence(&dev);
    dispatch(&mut encoder, &kernel, width, height);
    readback(&dev, &textures, buffer, encoder)
}

} // verus!
