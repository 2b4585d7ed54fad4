use vstd::prelude::*;

verus! {

/// A compiled shader program bound to its fixed-function state, the vertex
/// buffer it draws from, an optional index buffer with its index count, and
/// an optional texture resource referenced by registry index.
///
/// The buffers are immutable after creation: `vertex_count` and
/// `index_count` are the counts the buffers were created from, and draws
/// cover exactly those counts.
pub struct Pipeline {
    pub render_pipeline: wgpu::RenderPipeline,
    pub vertex_buffer: wgpu::Buffer,
    pub vertex_count: u32,
    pub index_buffer: Option<wgpu::Buffer>,
    pub index_count: u32,
    pub texture_index: Option<usize>,
}

impl Pipeline {
    pub fn new(
        render_pipeline: wgpu::RenderPipeline,
        vertex_buffer: wgpu::Buffer,
        vertex_count: u32,
        index_buffer: Option<wgpu::Buffer>,
        index_count: u32,
        texture_index: Option<usize>,
    ) -> (r: Pipeline)
        ensures
            r.render_pipeline == render_pipeline,
            r.vertex_buffer == vertex_buffer,
            r.vertex_count == vertex_count,
            r.index_buffer == index_buffer,
            r.index_count == index_count,
            r.texture_index == texture_index,
    {
        Pipeline {
            render_pipeline,
            vertex_buffer,
            vertex_count,
            index_buffer,
            index_count,
            texture_index,
        }
    }
}

} // verus!
