//! Declarations and thin wrappers for the GPU backend.
//!
//! Everything in this module is the trusted boundary towards `wgpu`: each
//! wrapper's body holds one backend call (plus argument conversion), and its
//! contract states only what the backend documents.

use vstd::prelude::*;

use wgpu::util::DeviceExt;

use crate::texture::MAX_TEXTURE_DIMENSION;

verus! {

#[verifier::external_type_specification]
#[verifier::external_body]
pub struct ExInstance(wgpu::Instance);

#[verifier::external_type_specification]
#[verifier::external_body]
pub struct ExAdapter(wgpu::Adapter);

#[verifier::external_type_specification]
#[verifier::external_body]
pub struct ExDevice(wgpu::Device);

#[verifier::external_type_specification]
#[verifier::external_body]
pub struct ExQueue(wgpu::Queue);

#[verifier::external_type_specification]
#[verifier::external_body]
pub struct ExSurface<'window>(wgpu::Surface<'window>);

#[verifier::external_type_specification]
#[verifier::external_body]
#[verifier::reject_recursive_types(V)]
pub struct ExSurfaceConfiguration<V>(wgpu_types::SurfaceConfiguration<V>);

#[verifier::external_type_specification]
#[verifier::external_body]
pub struct ExSurfaceTexture(wgpu::SurfaceTexture);

#[verifier::external_type_specification]
#[verifier::external_body]
pub struct ExTexture(wgpu::Texture);

#[verifier::external_type_specification]
#[verifier::external_body]
pub struct ExTextureView(wgpu::TextureView);

#[verifier::external_type_specification]
#[verifier::external_body]
pub struct ExTextureFormat(wgpu::TextureFormat);

#[verifier::external_type_specification]
#[verifier::external_body]
pub struct ExSampler(wgpu::Sampler);

#[verifier::external_type_specification]
#[verifier::external_body]
pub struct ExBuffer(wgpu::Buffer);

#[verifier::external_type_specification]
#[verifier::external_body]
pub struct ExBindGroup(wgpu::BindGroup);

#[verifier::external_type_specification]
#[verifier::external_body]
pub struct ExBindGroupLayout(wgpu::BindGroupLayout);

#[verifier::external_type_specification]
#[verifier::external_body]
pub struct ExPipelineLayout(wgpu::PipelineLayout);

#[verifier::external_type_specification]
#[verifier::external_body]
pub struct ExShaderModule(wgpu::ShaderModule);

#[verifier::external_type_specification]
#[verifier::external_body]
pub struct ExRenderPipeline(wgpu::RenderPipeline);

#[verifier::external_type_specification]
#[verifier::external_body]
pub struct ExCommandEncoder(wgpu::CommandEncoder);

#[verifier::external_type_specification]
#[verifier::external_body]
pub struct ExRenderPass<'a>(wgpu::RenderPass<'a>);

#[verifier::external_type_specification]
#[verifier::external_body]
pub struct ExColor(wgpu::Color);

#[verifier::external_type_specification]
#[verifier::external_body]
pub struct ExVertexBufferLayout<'a>(wgpu::VertexBufferLayout<'a>);

/// Why acquiring the next presentable frame failed, mirroring the backend's
/// surface error variants.  `Outdated` and `Lost` are transient: the surface
/// configuration merely has to be applied again.  The other two are fatal.
#[derive(Clone, Copy, PartialEq, Eq, Structural, Debug)]
pub enum SurfaceStatus {
    Timeout,
    Outdated,
    Lost,
    OutOfMemory,
}

/// Relies on wgpu::Color::BLACK: opaque black.
#[verifier::external_body]
pub(crate) fn color_black() -> (r: wgpu::Color) {
    wgpu::Color::BLACK
}

/// Relies on wgpu::Instance::request_adapter (driven to completion with
/// pollster), asking for an adapter compatible with the given surface.
/// Whether an adapter exists depends on the machine, so nothing is promised
/// of the outcome.
#[verifier::external_body]
pub(crate) fn request_adapter(
    instance: &wgpu::Instance,
    surface: &wgpu::Surface<'static>,
) -> (r: Option<wgpu::Adapter>) {
    pollster::block_on(instance.request_adapter(&wgpu::RequestAdapterOptions {
        power_preference: wgpu::PowerPreference::default(),
        compatible_surface: Some(surface),
        force_fallback_adapter: false,
    }))
}

/// Relies on wgpu::Adapter::request_device (driven to completion with
/// pollster), asking for a device with no extra features and the downlevel
/// webgl2 limits.  Success depends on the machine, so nothing is promised of
/// the outcome.
#[verifier::external_body]
pub(crate) fn request_device(adapter: &wgpu::Adapter) -> (r: Option<(wgpu::Device, wgpu::Queue)>) {
    pollster::block_on(adapter.request_device(
        &wgpu::DeviceDescriptor {
            required_features: wgpu::Features::empty(),
            required_limits: wgpu::Limits::downlevel_webgl2_defaults(),
            label: None,
        },
        None,
    ))
    .ok()
}

/// Relies on wgpu::Surface::get_default_config: `None` exactly when the
/// surface is incompatible with the adapter.
#[verifier::external_body]
pub(crate) fn surface_default_config(
    surface: &wgpu::Surface<'static>,
    adapter: &wgpu::Adapter,
    width: u32,
    height: u32,
) -> (r: Option<wgpu::SurfaceConfiguration>) {
    surface.get_default_config(adapter, width, height)
}

/// Relies on the `format` field of wgpu::SurfaceConfiguration: the texture
/// format the surface was configured with.
#[verifier::external_body]
pub(crate) fn config_format(config: &wgpu::SurfaceConfiguration) -> (r: wgpu::TextureFormat) {
    config.format
}

/// Relies on wgpu::Surface::configure, after recording the new size in the
/// configuration.  The backend rejects a zero extent, and one above the
/// device's maximum 2d texture dimension (2048 under the downlevel webgl2
/// limits requested at setup), hence the bounds.
#[verifier::external_body]
pub(crate) fn configure_surface(
    surface: &wgpu::Surface<'static>,
    device: &wgpu::Device,
    config: &mut wgpu::SurfaceConfiguration,
    width: u32,
    height: u32,
)
    requires
        0 < width <= MAX_TEXTURE_DIMENSION,
        0 < height <= MAX_TEXTURE_DIMENSION,
{
    config.width = width;
    config.height = height;
    surface.configure(device, config);
}

/// Relies on wgpu::util::DeviceExt::create_buffer_init with uniform and
/// copy-destination usage: the buffer holds exactly the given bytes.
#[verifier::external_body]
pub(crate) fn create_uniform_buffer(device: &wgpu::Device, contents: &[u8]) -> (r: wgpu::Buffer) {
    device.create_buffer_init(&wgpu::util::BufferInitDescriptor {
        label: Some("Camera Buffer"),
        contents,
        usage: wgpu::BufferUsages::UNIFORM | wgpu::BufferUsages::COPY_DST,
    })
}

/// Relies on wgpu::util::DeviceExt::create_buffer_init with vertex usage:
/// the buffer holds exactly the given bytes.
#[verifier::external_body]
pub(crate) fn create_vertex_buffer(device: &wgpu::Device, contents: &[u8]) -> (r: wgpu::Buffer) {
    device.create_buffer_init(&wgpu::util::BufferInitDescriptor {
        label: None,
        contents,
        usage: wgpu::BufferUsages::VERTEX,
    })
}

/// Relies on wgpu::util::DeviceExt::create_buffer_init with index usage,
/// and on bytemuck::cast_slice to reinterpret the 16-bit indices as bytes.
#[verifier::external_body]
pub(crate) fn create_index_buffer(device: &wgpu::Device, indices: &Vec<u16>) -> (r: wgpu::Buffer) {
    device.create_buffer_init(&wgpu::util::BufferInitDescriptor {
        label: Some("Index Buffer"),
        contents: bytemuck::cast_slice(indices.as_slice()),
        usage: wgpu::BufferUsages::INDEX,
    })
}

/// Relies on wgpu::Device::create_bind_group_layout: one uniform-buffer
/// binding at slot 0, visible to the vertex stage, as the camera uniform
/// expects.
#[verifier::external_body]
pub(crate) fn create_camera_bind_group_layout(device: &wgpu::Device) -> (r:
    wgpu::BindGroupLayout) {
    let entry = wgpu::BindGroupLayoutEntry {
        binding: 0,
        visibility: wgpu::ShaderStages::VERTEX,
        ty: wgpu::BindingType::Buffer { ty: wgpu::BufferBindingType::Uniform, has_dynamic_offset: false, min_binding_size: None },
        count: None,
    };
    device.create_bind_group_layout(&wgpu::BindGroupLayoutDescriptor { entries: &[entry], label: Some("Camera_binding_group_layout") })
}

/// Relies on wgpu::Device::create_bind_group: binds the whole camera buffer
/// at slot 0 of the camera layout.
#[verifier::external_body]
pub(crate) fn create_camera_bind_group(
    device: &wgpu::Device,
    layout: &wgpu::BindGroupLayout,
    buffer: &wgpu::Buffer,
) -> (r: wgpu::BindGroup) {
    device.create_bind_group(&wgpu::BindGroupDescriptor {
        layout,
        entries: &[wgpu::BindGroupEntry { binding: 0, resource: buffer.as_entire_binding() }],
        label: Some("camera_binding_group"),
    })
}

/// Relies on wgpu::Queue::write_buffer at offset 0.  The data must not run
/// past the buffer's end; the graphics facade only passes camera payloads of
/// the exact length the camera buffer was created with.
#[verifier::external_body]
pub(crate) fn queue_write_buffer(queue: &wgpu::Queue, buffer: &wgpu::Buffer, data: &[u8]) {
    queue.write_buffer(buffer, 0, data);
}

/// Relies on wgpu::Device::create_texture: a 2d rgba8-srgb texture of the
/// given extent, usable as a binding and as a copy destination.  The
/// backend rejects a zero extent and one above the device's maximum 2d
/// texture dimension, hence the bounds.
#[verifier::external_body]
pub(crate) fn create_texture_2d(device: &wgpu::Device, width: u32, height: u32) -> (r:
    wgpu::Texture)
    requires
        0 < width <= MAX_TEXTURE_DIMENSION,
        0 < height <= MAX_TEXTURE_DIMENSION,
{
    device.create_texture(&wgpu::TextureDescriptor {
        size: wgpu::Extent3d { width, height, depth_or_array_layers: 1 },
        mip_level_count: 1,
        sample_count: 1,
        dimension: wgpu::TextureDimension::D2,
        format: wgpu::TextureFormat::Rgba8UnormSrgb,
        usage: wgpu::TextureUsages::TEXTURE_BINDING | wgpu::TextureUsages::COPY_DST,
        label: Some("Diffuse texture"),
        view_formats: &[],
    })
}

/// Relies on wgpu::Queue::write_texture: uploads a tightly packed rgba8
/// pixel buffer, four bytes per pixel, covering the whole texture.
#[verifier::external_body]
pub(crate) fn write_texture_rgba(
    queue: &wgpu::Queue,
    texture: &wgpu::Texture,
    width: u32,
    height: u32,
    data: &[u8],
)
    requires
        data@.len() == 4 * width * height,
{
    let target = wgpu::ImageCopyTexture { texture, mip_level: 0, origin: wgpu::Origin3d::ZERO, aspect: wgpu::TextureAspect::All };
    let layout = wgpu::ImageDataLayout { offset: 0, bytes_per_row: Some(4 * width), rows_per_image: Some(height) };
    queue.write_texture(target, data, layout, wgpu::Extent3d { width, height, depth_or_array_layers: 1 })
}

/// Relies on wgpu::Texture::create_view with the default view descriptor.
#[verifier::external_body]
pub(crate) fn create_texture_view(texture: &wgpu::Texture) -> (r: wgpu::TextureView) {
    texture.create_view(&wgpu::TextureViewDescriptor::default())
}

/// Relies on wgpu::Device::create_sampler: clamp-to-edge addressing with
/// linear magnification and nearest minification, as the texture binding
/// expects.
#[verifier::external_body]
pub(crate) fn create_sampler(device: &wgpu::Device) -> (r: wgpu::Sampler) {
    device.create_sampler(&wgpu::SamplerDescriptor {
        address_mode_u: wgpu::AddressMode::ClampToEdge,
        address_mode_v: wgpu::AddressMode::ClampToEdge,
        address_mode_w: wgpu::AddressMode::ClampToEdge,
        mag_filter: wgpu::FilterMode::Linear,
        min_filter: wgpu::FilterMode::Nearest,
        mipmap_filter: wgpu::FilterMode::Nearest,
        ..Default::default()
    })
}

/// Relies on wgpu::Device::create_bind_group_layout: a fragment-stage
/// texture binding at slot 0 and a filtering sampler binding at slot 1, the
/// fixed slot order of every texture resource.
#[verifier::external_body]
pub(crate) fn create_texture_bind_group_layout(device: &wgpu::Device) -> (r:
    wgpu::BindGroupLayout) {
    let texture_entry = wgpu::BindGroupLayoutEntry {
        binding: 0,
        visibility: wgpu::ShaderStages::FRAGMENT,
        ty: wgpu::BindingType::Texture { sample_type: wgpu::TextureSampleType::Float { filterable: true }, view_dimension: wgpu::TextureViewDimension::D2, multisampled: false },
        count: None,
    };
    let sampler_entry = wgpu::BindGroupLayoutEntry {
        binding: 1,
        visibility: wgpu::ShaderStages::FRAGMENT,
        ty: wgpu::BindingType::Sampler(wgpu::SamplerBindingType::Filtering),
        count: None,
    };
    device.create_bind_group_layout(&wgpu::BindGroupLayoutDescriptor { label: Some("Texture binding group layout"), entries: &[texture_entry, sampler_entry] })
}

/// Relies on wgpu::Device::create_bind_group: the texture view at slot 0
/// and its sampler at slot 1, matching the texture bind group layout.
#[verifier::external_body]
pub(crate) fn create_texture_bind_group(
    device: &wgpu::Device,
    layout: &wgpu::BindGroupLayout,
    view: &wgpu::TextureView,
    sampler: &wgpu::Sampler,
) -> (r: wgpu::BindGroup) {
    let entries = [
        wgpu::BindGroupEntry { binding: 0, resource: wgpu::BindingResource::TextureView(view) },
        wgpu::BindGroupEntry { binding: 1, resource: wgpu::BindingResource::Sampler(sampler) },
    ];
    device.create_bind_group(&wgpu::BindGroupDescriptor { label: Some("Texture bind group"), layout, entries: &entries })
}

/// Relies on wgpu::Device::create_pipeline_layout over the given bind group
/// layouts, in order, with no push constants.
#[verifier::external_body]
pub(crate) fn create_pipeline_layout(
    device: &wgpu::Device,
    layouts: &Vec<&wgpu::BindGroupLayout>,
) -> (r: wgpu::PipelineLayout) {
    device.create_pipeline_layout(&wgpu::PipelineLayoutDescriptor {
        label: None,
        bind_group_layouts: layouts.as_slice(),
        push_constant_ranges: &[],
    })
}

/// Relies on wgpu::Device::create_render_pipeline: the shader module's
/// `vs_main` and `fs_main` entry points over one vertex buffer of the given
/// layout, rendering to the given format with default fixed-function state.
/// The module must expose those two entry points with types matching the
/// layout; the embedder compiles the module and supplies the layout.
#[verifier::external_body]
pub(crate) fn create_render_pipeline(
    device: &wgpu::Device,
    layout: &wgpu::PipelineLayout,
    module: &wgpu::ShaderModule,
    format: &wgpu::TextureFormat,
    vertex_layout: wgpu::VertexBufferLayout<'static>,
) -> (r: wgpu::RenderPipeline) {
    device.create_render_pipeline(&wgpu::RenderPipelineDescriptor {
        label: None,
        layout: Some(layout),
        vertex: wgpu::VertexState { module, entry_point: "vs_main", buffers: &[vertex_layout] },
        fragment: Some(wgpu::FragmentState { module, entry_point: "fs_main", targets: &[Some((*format).into())] }),
        primitive: wgpu::PrimitiveState::default(),
        depth_stencil: None,
        multisample: wgpu::MultisampleState::default(),
        multiview: None,
    })
}

/// Relies on wgpu::Surface::get_current_texture, with the backend's error
/// variants carried over one for one.  Which outcome occurs depends on the
/// machine and the host window, so nothing is promised of it.
#[verifier::external_body]
pub(crate) fn acquire_frame(surface: &wgpu::Surface<'static>) -> (r: Result<
    wgpu::SurfaceTexture,
    SurfaceStatus,
>) {
    match surface.get_current_texture() {
        Ok(frame) => Ok(frame),
        Err(wgpu::SurfaceError::Timeout) => Err(SurfaceStatus::Timeout),
        Err(wgpu::SurfaceError::Outdated) => Err(SurfaceStatus::Outdated),
        Err(wgpu::SurfaceError::Lost) => Err(SurfaceStatus::Lost),
        Err(wgpu::SurfaceError::OutOfMemory) => Err(SurfaceStatus::OutOfMemory),
    }
}

/// Relies on wgpu::Texture::create_view for the frame's texture, with the
/// default view descriptor.
#[verifier::external_body]
pub(crate) fn frame_view(frame: &wgpu::SurfaceTexture) -> (r: wgpu::TextureView) {
    frame.texture.create_view(&wgpu::TextureViewDescriptor::default())
}

/// Relies on wgpu::Device::create_command_encoder.
#[verifier::external_body]
pub(crate) fn create_encoder(device: &wgpu::Device) -> (r: wgpu::CommandEncoder) {
    device.create_command_encoder(&wgpu::CommandEncoderDescriptor { label: Some("Render Encoder") })
}

/// Relies on wgpu::CommandEncoder::begin_render_pass: one colour attachment
/// on the given view, cleared to the given colour and stored.
#[verifier::external_body]
pub(crate) fn begin_clear_pass<'e>(
    encoder: &'e mut wgpu::CommandEncoder,
    view: &'e wgpu::TextureView,
    color: &wgpu::Color,
) -> (r: wgpu::RenderPass<'e>) {
    let attachment = wgpu::RenderPassColorAttachment {
        view,
        resolve_target: None,
        ops: wgpu::Operations { load: wgpu::LoadOp::Clear(*color), store: wgpu::StoreOp::Store },
    };
    encoder.begin_render_pass(&wgpu::RenderPassDescriptor {
        label: Some("Render Pass"),
        color_attachments: &[Some(attachment)],
        depth_stencil_attachment: None,
        occlusion_query_set: None,
        timestamp_writes: None,
    })
}

/// Relies on wgpu::RenderPass::set_pipeline.
#[verifier::external_body]
pub(crate) fn pass_set_pipeline<'a>(
    pass: &mut wgpu::RenderPass<'a>,
    pipeline: &'a wgpu::RenderPipeline,
) {
    pass.set_pipeline(pipeline);
}

/// Relies on wgpu::RenderPass::set_bind_group with no dynamic offsets.
#[verifier::external_body]
pub(crate) fn pass_set_bind_group<'a>(
    pass: &mut wgpu::RenderPass<'a>,
    index: u32,
    group: &'a wgpu::BindGroup,
) {
    pass.set_bind_group(index, group, &[]);
}

/// Relies on wgpu::RenderPass::set_vertex_buffer over the whole buffer at
/// slot 0.
#[verifier::external_body]
pub(crate) fn pass_set_vertex_buffer<'a>(
    pass: &mut wgpu::RenderPass<'a>,
    buffer: &'a wgpu::Buffer,
) {
    pass.set_vertex_buffer(0, buffer.slice(..));
}

/// Relies on wgpu::RenderPass::set_index_buffer over the whole buffer, with
/// 16-bit indices.
#[verifier::external_body]
pub(crate) fn pass_set_index_buffer<'a>(
    pass: &mut wgpu::RenderPass<'a>,
    buffer: &'a wgpu::Buffer,
) {
    pass.set_index_buffer(buffer.slice(..), wgpu::IndexFormat::Uint16);
}

/// Relies on wgpu::RenderPass::draw_indexed over the first `count` indices,
/// one instance.  The bound index buffer must hold at least `count` indices;
/// the facade draws with the count its buffers were created from.
#[verifier::external_body]
pub(crate) fn pass_draw_indexed(pass: &mut wgpu::RenderPass<'_>, count: u32) {
    pass.draw_indexed(0..count, 0, 0..1);
}

/// Relies on wgpu::RenderPass::draw over the first `count` vertices, one
/// instance.  The bound vertex buffer must hold at least `count` vertices;
/// the facade draws with the count its buffers were created from.
#[verifier::external_body]
pub(crate) fn pass_draw(pass: &mut wgpu::RenderPass<'_>, count: u32) {
    pass.draw(0..count, 0..1);
}

/// Relies on wgpu::CommandEncoder::finish and wgpu::Queue::submit: finishes
/// the recorded commands and submits them as one command buffer.
#[verifier::external_body]
pub(crate) fn submit(queue: &wgpu::Queue, encoder: wgpu::CommandEncoder) {
    queue.submit(std::iter::once(encoder.finish()));
}

/// Relies on wgpu::SurfaceTexture::present.
#[verifier::external_body]
pub(crate) fn present(frame: wgpu::SurfaceTexture) {
    frame.present();
}

} // verus!
