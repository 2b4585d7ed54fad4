use vstd::prelude::*;

use crate::gpu;
use crate::gpu::SurfaceStatus;
use crate::pipeline::Pipeline;
use crate::scene::SceneContext;
use crate::texture::{
    decode_texture_bytes, decoded_height, decoded_width, extent_ok, extent_supported,
    rgba_decodable, TextureError, TextureResource, MAX_TEXTURE_DIMENSION,
};

verus! {

/// Why acquiring the GPU context failed at setup.  These are fatal: the
/// embedder is expected to abort with the error's message.
#[derive(Clone, Copy, PartialEq, Eq, Structural, Debug)]
pub enum GraphicsError {
    NoCompatibleAdapter,
    NoDevice,
    NoSurfaceConfiguration,
}

impl GraphicsError {
    pub fn message(&self) -> &'static str {
        match self {
            GraphicsError::NoCompatibleAdapter => "no compatible GPU adapter is available",
            GraphicsError::NoDevice => "the GPU adapter refused to provide a device",
            GraphicsError::NoSurfaceConfiguration => "the surface is incompatible with the adapter",
        }
    }
}

/// Why a frame could not be rendered.  Only non-transient acquisition
/// failures are reported; an outdated or lost surface is recovered from
/// silently by reconfiguring it.
#[derive(Clone, Copy, PartialEq, Eq, Structural, Debug)]
pub enum RenderError {
    Acquire(SurfaceStatus),
}

/// Composes the GPU context and the presentable surface with the registries
/// of render pipelines and texture resources, the shared camera uniform
/// binding, and the clear colour.  The registries are append-only, and a
/// handle into them stays valid for the facade's whole lifetime.
pub struct Graphics {
    device: wgpu::Device,
    queue: wgpu::Queue,
    adapter: wgpu::Adapter,
    surface: wgpu::Surface<'static>,
    config: wgpu::SurfaceConfiguration,
    surface_format: wgpu::TextureFormat,
    width: u32,
    height: u32,
    clear_color: wgpu::Color,
    pipelines: Vec<Pipeline>,
    textures: Vec<TextureResource>,
    camera_bind_group_layout: wgpu::BindGroupLayout,
    camera_buffer: wgpu::Buffer,
    camera_bind_group: wgpu::BindGroup,
    camera_buffer_len: usize,
}

impl Graphics {
    /// The registered render pipelines, in registration order.
    pub closed spec fn pipelines(&self) -> Seq<Pipeline> {
        self.pipelines@
    }

    /// The registered texture resources, in registration order.
    pub closed spec fn textures(&self) -> Seq<TextureResource> {
        self.textures@
    }

    /// The colour the next frame is cleared to.
    pub closed spec fn clear_color(&self) -> wgpu::Color {
        self.clear_color
    }

    /// The surface width the facade last configured.
    pub closed spec fn width(&self) -> u32 {
        self.width
    }

    /// The surface height the facade last configured.
    pub closed spec fn height(&self) -> u32 {
        self.height
    }

    /// The byte length of the camera uniform buffer.
    pub closed spec fn camera_len(&self) -> nat {
        self.camera_buffer_len as nat
    }

    /// Well-formedness: the configured extent is non-zero and within the
    /// device's maximum 2d texture dimension, and every pipeline's texture
    /// handle points into the texture registry.
    pub open spec fn wf(&self) -> bool {
        &&& 0 < self.width() <= MAX_TEXTURE_DIMENSION
        &&& 0 < self.height() <= MAX_TEXTURE_DIMENSION
        &&& forall|i: int|
            0 <= i < self.pipelines().len() ==> ((#[trigger] self.pipelines()[i]).texture_index
                matches Some(t) ==> t < self.textures().len())
    }

    /// Acquires the GPU context for an already-created surface, configures
    /// the surface to the given non-zero extent, and sets up the camera
    /// uniform buffer from its initial contents.  Whether a compatible
    /// adapter and device exist depends on the machine; each setup step
    /// that can fail reports its own fatal error.
    pub fn new(
        instance: wgpu::Instance,
        surface: wgpu::Surface<'static>,
        width: u32,
        height: u32,
        clear_color: wgpu::Color,
        camera_uniform: &[u8],
    ) -> (r: Result<Graphics, GraphicsError>)
        requires
            0 < width <= MAX_TEXTURE_DIMENSION,
            0 < height <= MAX_TEXTURE_DIMENSION,
        ensures
            r matches Ok(g) ==> {
                &&& g.wf()
                &&& g.width() == width
                &&& g.height() == height
                &&& g.pipelines().len() == 0
                &&& g.textures().len() == 0
                &&& g.clear_color() == clear_color
                &&& g.camera_len() == camera_uniform@.len()
            },
    {
        let adapter = match gpu::request_adapter(&instance, &surface) {
            Some(a) => a,
            None => {
                return Err(GraphicsError::NoCompatibleAdapter);
            },
        };
        let dq = match gpu::request_device(&adapter) {
            Some(p) => p,
            None => {
                return Err(GraphicsError::NoDevice);
            },
        };
        let (device, queue) = dq;
        let mut config = match gpu::surface_default_config(&surface, &adapter, width, height) {
            Some(c) => c,
            None => {
                return Err(GraphicsError::NoSurfaceConfiguration);
            },
        };
        let surface_format = gpu::config_format(&config);
        gpu::configure_surface(&surface, &device, &mut config, width, height);
        let camera_buffer = gpu::create_uniform_buffer(&device, camera_uniform);
        let camera_bind_group_layout = gpu::create_camera_bind_group_layout(&device);
        let camera_bind_group = gpu::create_camera_bind_group(
            &device,
            &camera_bind_group_layout,
            &camera_buffer,
        );
        Ok(
            Graphics {
                device,
                queue,
                adapter,
                surface,
                config,
                surface_format,
                width,
                height,
                clear_color,
                pipelines: Vec::new(),
                textures: Vec::new(),
                camera_bind_group_layout,
                camera_buffer,
                camera_bind_group,
                camera_buffer_len: camera_uniform.len(),
            },
        )
    }

    /// Sets the colour the next frame is cleared to; it takes effect on the
    /// next `render`.
    pub fn set_clear_color(&mut self, color: wgpu::Color)
        ensures
            final(self).clear_color() == color,
            final(self).pipelines() == old(self).pipelines(),
            final(self).textures() == old(self).textures(),
            final(self).width() == old(self).width(),
            final(self).height() == old(self).height(),
            final(self).camera_len() == old(self).camera_len(),
    {
        self.clear_color = color;
    }

    /// Reconfigures the surface to a new extent, which must be non-zero
    /// and within the device's maximum 2d texture dimension.  This must be
    /// called synchronously on a host resize notification, before the next
    /// `render`.
    pub fn resize(&mut self, width: u32, height: u32)
        requires
            0 < width <= MAX_TEXTURE_DIMENSION,
            0 < height <= MAX_TEXTURE_DIMENSION,
        ensures
            final(self).width() == width,
            final(self).height() == height,
            final(self).pipelines() == old(self).pipelines(),
            final(self).textures() == old(self).textures(),
            final(self).clear_color() == old(self).clear_color(),
            final(self).camera_len() == old(self).camera_len(),
            old(self).wf() ==> final(self).wf(),
    {
        self.width = width;
        self.height = height;
        gpu::configure_surface(&self.surface, &self.device, &mut self.config, width, height);
    }

    /// Decodes encoded image bytes, uploads them to a fresh GPU texture
    /// with its sampler and binding descriptor, appends the resource to the
    /// texture registry and returns its stable handle.  Succeeds exactly
    /// when the bytes decode and the decoded image fits the device limits;
    /// it fails with `Decode` when the bytes are not a supported image and
    /// with `Extent` when the decoded image is empty or too large, and on
    /// failure nothing changes.
    pub fn load_texture(&mut self, bytes: &[u8]) -> (r: Result<usize, TextureError>)
        ensures
            r is Ok <==> rgba_decodable(bytes@) && extent_supported(
                decoded_width(bytes@),
                decoded_height(bytes@),
            ),
            !rgba_decodable(bytes@) ==> r == Result::<usize, TextureError>::Err(
                TextureError::Decode,
            ),
            rgba_decodable(bytes@) && !extent_supported(
                decoded_width(bytes@),
                decoded_height(bytes@),
            ) ==> r == Result::<usize, TextureError>::Err(TextureError::Extent),
            r matches Ok(h) ==> {
                &&& h == old(self).textures().len()
                &&& final(self).textures().len() == old(self).textures().len() + 1
                &&& final(self).textures()[h as int].width == decoded_width(bytes@)
                &&& final(self).textures()[h as int].height == decoded_height(bytes@)
                &&& (forall|i: int|
                    0 <= i < old(self).textures().len() ==> final(self).textures()[i] == old(
                        self,
                    ).textures()[i])
                &&& final(self).pipelines() == old(self).pipelines()
                &&& final(self).clear_color() == old(self).clear_color()
                &&& final(self).width() == old(self).width()
                &&& final(self).height() == old(self).height()
                &&& final(self).camera_len() == old(self).camera_len()
            },
            r is Err ==> *final(self) == *old(self),
            old(self).wf() ==> final(self).wf(),
    {
        let img = match decode_texture_bytes(bytes) {
            Ok(i) => i,
            Err(e) => {
                return Err(e);
            },
        };
        if !extent_ok(img.width, img.height) {
            return Err(TextureError::Extent);
        }
        let t = TextureResource::load(&img, &self.device, &self.queue);
        let h = self.textures.len();
        self.textures.push(t);
        proof {
            if old(self).wf() {
                assert forall|i: int|
                    0 <= i < self.pipelines().len() implies ((#[trigger] self.pipelines()[
                    i]).texture_index matches Some(t) ==> t < self.textures().len()) by {
                    assert(self.pipelines()[i] == old(self).pipelines()[i]);
                }
            }
        }
        Ok(h)
    }

    /// Registers a render pipeline: builds the pipeline layout from the
    /// camera binding plus, when a texture handle is given, that texture's
    /// binding; creates the vertex buffer (and, when indices are given, the
    /// index buffer); compiles the fixed-function pipeline around the
    /// already-compiled shader module; appends it to the pipeline registry
    /// and returns its stable handle.  The shader module and the vertex
    /// layout are supplied by the embedder, which compiles the shader
    /// source and owns the vertex record layout; a compile failure is fatal
    /// there.  A texture handle out of range is a caller error, excluded
    /// here.
    pub fn load_shader(
        &mut self,
        shader: wgpu::ShaderModule,
        vertex_data: &[u8],
        vertex_count: u32,
        indices: Option<&Vec<u16>>,
        texture_index: Option<usize>,
        vertex_layout: wgpu::VertexBufferLayout<'static>,
    ) -> (h: usize)
        requires
            texture_index matches Some(t) ==> t < old(self).textures().len(),
            indices matches Some(ix) ==> ix@.len() <= u32::MAX,
        ensures
            h == old(self).pipelines().len(),
            final(self).pipelines().len() == old(self).pipelines().len() + 1,
            forall|i: int|
                0 <= i < old(self).pipelines().len() ==> final(self).pipelines()[i] == old(
                    self,
                ).pipelines()[i],
            ({
                let p = final(self).pipelines()[h as int];
                &&& p.texture_index == texture_index
                &&& p.vertex_count == vertex_count
                &&& (p.index_buffer is Some <==> indices is Some)
                &&& p.index_count as nat == (match indices {
                    Some(ix) => ix@.len(),
                    None => 0,
                })
            }),
            final(self).textures() == old(self).textures(),
            final(self).clear_color() == old(self).clear_color(),
            final(self).width() == old(self).width(),
            final(self).height() == old(self).height(),
            final(self).camera_len() == old(self).camera_len(),
            old(self).wf() ==> final(self).wf(),
    {
        let mut layouts: Vec<&wgpu::BindGroupLayout> = Vec::new();
        match texture_index {
            Some(t) => {
                layouts.push(&self.textures[t].bind_group_layout);
                layouts.push(&self.camera_bind_group_layout);
            },
            None => {
                layouts.push(&self.camera_bind_group_layout);
            },
        }
        let pipeline_layout = gpu::create_pipeline_layout(&self.device, &layouts);
        let render_pipeline = gpu::create_render_pipeline(
            &self.device,
            &pipeline_layout,
            &shader,
            &self.surface_format,
            vertex_layout,
        );
        let vertex_buffer = gpu::create_vertex_buffer(&self.device, vertex_data);
        let (index_buffer, index_count) = match indices {
            Some(ix) => (Some(gpu::create_index_buffer(&self.device, ix)), ix.len() as u32),
            None => (None, 0u32),
        };
        let h = self.pipelines.len();
        self.pipelines.push(
            Pipeline::new(
                render_pipeline,
                vertex_buffer,
                vertex_count,
                index_buffer,
                index_count,
                texture_index,
            ),
        );
        proof {
            if old(self).wf() {
                assert forall|i: int|
                    0 <= i < self.pipelines().len() implies ((#[trigger] self.pipelines()[
                    i]).texture_index matches Some(t) ==> t < self.textures().len()) by {
                    if i < h {
                        assert(self.pipelines()[i] == old(self).pipelines()[i]);
                    }
                }
            }
        }
        h
    }

    /// Uploads the camera uniform payload into the camera buffer.  The
    /// engine loop must call this before `render` each frame, so that no
    /// stale camera data is ever rendered.
    pub fn write_camera_uniform(&self, data: &[u8])
        requires
            data@.len() == self.camera_len(),
    {
        gpu::queue_write_buffer(&self.queue, &self.camera_buffer, data);
    }

    /// Renders one frame: acquires the next presentable frame, begins one
    /// render pass cleared to the current clear colour, and, for each
    /// registered pipeline in registration order, binds its texture (if
    /// any) at group 0 with the camera uniform at the next slot, its vertex
    /// buffer, and its index buffer if present, then issues the indexed or
    /// non-indexed draw covering its whole buffers; finally submits and
    /// presents.  An outdated or lost surface is not an error: the surface
    /// is reconfigured and the frame skipped.  Only a timeout or exhausted
    /// memory on acquisition is reported, and the registries, clear colour
    /// and extent never change.
    pub fn render(&mut self) -> (r: Result<(), RenderError>)
        requires
            old(self).wf(),
        ensures
            final(self).wf(),
            final(self).pipelines() == old(self).pipelines(),
            final(self).textures() == old(self).textures(),
            final(self).clear_color() == old(self).clear_color(),
            final(self).width() == old(self).width(),
            final(self).height() == old(self).height(),
            final(self).camera_len() == old(self).camera_len(),
            r matches Err(e) ==> (e == RenderError::Acquire(SurfaceStatus::Timeout) || e
                == RenderError::Acquire(SurfaceStatus::OutOfMemory)),
    {
        let frame = match gpu::acquire_frame(&self.surface) {
            Ok(f) => f,
            Err(status) => {
                match status {
                    SurfaceStatus::Outdated | SurfaceStatus::Lost => {
                        gpu::configure_surface(
                            &self.surface,
                            &self.device,
                            &mut self.config,
                            self.width,
                            self.height,
                        );
                        return Ok(());
                    },
                    _ => {
                        return Err(RenderError::Acquire(status));
                    },
                }
            },
        };
        let view = gpu::frame_view(&frame);
        let mut encoder = gpu::create_encoder(&self.device);
        {
            let mut pass = gpu::begin_clear_pass(&mut encoder, &view, &self.clear_color);
            let n = self.pipelines.len();
            let mut i: usize = 0;
            while i < n
                invariant
                    n == self.pipelines@.len(),
                    i <= n,
                    self.wf(),
                decreases n - i,
            {
                let p = &self.pipelines[i];
                gpu::pass_set_pipeline(&mut pass, &p.render_pipeline);
                match p.texture_index {
                    Some(t) => {
                        let tex = &self.textures[t];
                        gpu::pass_set_bind_group(&mut pass, 0, &tex.bind_group);
                        gpu::pass_set_bind_group(&mut pass, 1, &self.camera_bind_group);
                    },
                    None => {
                        gpu::pass_set_bind_group(&mut pass, 0, &self.camera_bind_group);
                    },
                }
                gpu::pass_set_vertex_buffer(&mut pass, &p.vertex_buffer);
                match &p.index_buffer {
                    Some(ib) => {
                        gpu::pass_set_index_buffer(&mut pass, ib);
                        gpu::pass_draw_indexed(&mut pass, p.index_count);
                    },
                    None => {
                        gpu::pass_draw(&mut pass, p.vertex_count);
                    },
                }
                i = i + 1;
            }
        }
        gpu::submit(&self.queue, encoder);
        gpu::present(frame);
        Ok(())
    }

    /// The number of registered texture resources; a texture handle is
    /// valid exactly when it is below this.
    pub fn texture_count(&self) -> (r: usize)
        ensures
            r == self.textures().len(),
    {
        self.textures.len()
    }

    /// The number of registered render pipelines.
    pub fn pipeline_count(&self) -> (r: usize)
        ensures
            r == self.pipelines().len(),
    {
        self.pipelines.len()
    }

    /// The byte length the camera uniform payload must have.
    pub fn camera_uniform_len(&self) -> (r: usize)
        ensures
            r == self.camera_len(),
    {
        self.camera_buffer_len
    }

    /// The logical device, for the embedder to compile shader modules with.
    pub fn device(&self) -> &wgpu::Device {
        &self.device
    }
}

/// A scene hook receives the facade well-formed and must keep it so.
impl SceneContext for Graphics {
    open spec fn inv(&self) -> bool {
        self.wf()
    }
}

} // verus!
