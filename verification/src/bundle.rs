//! The resource bundle and the per-frame command recording.
//!
//! A bundle owns the GPU objects sized for one viewport: the compute
//! pipeline with its four bindings, the screen pipeline with its two, the
//! output texture and the three buffers. `prepare` records one frame's
//! upload, dispatch and copy; `paint` records the screen blit. Both consume
//! a `RenderPlan` snapshot or values derived from one, so nothing is decided
//! here — the contracts tie every recorded value to the plan.
//!
//! Buffers and the output texture are coupled to their construction sizes
//! by `SizedBuffer` and `SizedTexture`: their handles are private, they are
//! created only by the trusted wrappers below, and a handle leaves the
//! library only by consuming `into_raw`. Every write and copy the library
//! records is therefore proved to stay within the target's construction
//! size, on objects whose usage flags the wrappers fixed.
//!
//! The device calls go through one-call trusted wrappers; their effects on
//! the device are outside what is modeled. One validation runs late: wgpu
//! checks a compute pass when the pass closes, so the host must build the
//! bundle's pipeline over exactly the bind-group layout it hands to
//! `RaytracingRenderResources::new` (see there).

use crate::frame::RenderPlan;
use crate::frame::plan_wf;
use crate::layout::lemma_padded_row_stride;
use crate::layout::padded_row_stride;
use crate::pipeline::MAX_WORKGROUPS_PER_DIMENSION;
use crate::pipeline::accumulation_buffer_size;
use crate::pipeline::quad_vertex_count;
use crate::pipeline::scene_info_buffer_size;
use crate::pipeline::sphere_buffer_size;
use crate::scene::MAX_SPHERES;
use crate::scene::SCENE_INFO_SIZE;
use crate::scene::SPHERE_SIZE;
use crate::scene::lemma_scene_info_layout;
use vstd::prelude::*;

verus! {

/// The device's submission queue, shared by the orchestrator and app.
#[verifier::external_type_specification]
#[verifier::external_body]
pub struct ExQueue(wgpu::Queue);

/// The device handle, used here only to create the bundle's objects.
#[verifier::external_type_specification]
#[verifier::external_body]
pub struct ExDevice(wgpu::Device);

/// Records one frame's commands before submission.
#[verifier::external_type_specification]
#[verifier::external_body]
pub struct ExCommandEncoder(wgpu::CommandEncoder);

/// An open compute pass borrowing its encoder.
#[verifier::external_type_specification]
#[verifier::external_body]
pub struct ExComputePass<'a>(wgpu::ComputePass<'a>);

/// An open render pass borrowing its encoder.
#[verifier::external_type_specification]
#[verifier::external_body]
pub struct ExRenderPass<'a>(wgpu::RenderPass<'a>);

/// The compiled raytracing kernel bound to its layout.
#[verifier::external_type_specification]
#[verifier::external_body]
pub struct ExComputePipeline(wgpu::ComputePipeline);

/// The compiled screen blit pair bound to its layout.
#[verifier::external_type_specification]
#[verifier::external_body]
pub struct ExRenderPipeline(wgpu::RenderPipeline);

/// The declared shape of a bind group: which slot holds what.
#[verifier::external_type_specification]
#[verifier::external_body]
pub struct ExBindGroupLayout(wgpu::BindGroupLayout);

/// A fixed set of resource bindings for one pipeline stage.
#[verifier::external_type_specification]
#[verifier::external_body]
pub struct ExBindGroup(wgpu::BindGroup);

/// A GPU buffer allocation.
#[verifier::external_type_specification]
#[verifier::external_body]
pub struct ExBuffer(wgpu::Buffer);

/// A GPU texture allocation.
#[verifier::external_type_specification]
#[verifier::external_body]
pub struct ExTexture(wgpu::Texture);

/// A view of a texture, as pipelines bind it.
#[verifier::external_type_specification]
#[verifier::external_body]
pub struct ExTextureView(wgpu::TextureView);

/// A GPU buffer coupled to the byte size it was created with. Every buffer
/// of this type is made by one of the creation wrappers below, which also
/// fix its usage: all carry the copy-destination usage, none can be mapped
/// while the library holds it, and the handle leaves the library only by
/// consuming `into_raw` — so it cannot be destroyed or mapped under a live
/// `SizedBuffer`, and every recorded write stays within `spec_size()`.
pub struct SizedBuffer {
    buffer: wgpu::Buffer,
    size: u64,
    copy_src: bool,
}

impl SizedBuffer {
    /// The byte size the buffer was created with.
    pub closed spec fn spec_size(&self) -> u64 {
        self.size
    }

    /// Whether the buffer was created as a copy source.
    pub closed spec fn spec_copy_src(&self) -> bool {
        self.copy_src
    }

    /// The byte size the buffer was created with.
    pub fn size(&self) -> (s: u64)
        ensures
            s == self.spec_size(),
    {
        self.size
    }

    /// Whether the buffer was created as a copy source.
    pub fn copy_src(&self) -> (b: bool)
        ensures
            b == self.spec_copy_src(),
    {
        self.copy_src
    }

    /// Gives up the handle for the host's own use — mapping an export
    /// readback. The buffer leaves the library's bookkeeping for good.
    pub fn into_raw(self) -> wgpu::Buffer {
        self.buffer
    }
}

/// A GPU texture coupled to the extents it was created with. Made only by
/// `create_output_texture`: the kernel's output format, one sample, one mip
/// level, with storage, sampling and copy-source usage; the handle never
/// leaves the library, so it cannot be destroyed under a live value.
pub struct SizedTexture {
    texture: wgpu::Texture,
    width: u32,
    height: u32,
}

impl SizedTexture {
    /// The pixel width the texture was created with.
    pub closed spec fn spec_width(&self) -> u32 {
        self.width
    }

    /// The pixel height the texture was created with.
    pub closed spec fn spec_height(&self) -> u32 {
        self.height
    }

    /// The pixel width the texture was created with.
    pub fn width(&self) -> (w: u32)
        ensures
            w == self.spec_width(),
    {
        self.width
    }

    /// The pixel height the texture was created with.
    pub fn height(&self) -> (h: u32)
        ensures
            h == self.spec_height(),
    {
        self.height
    }
}

/// Relies on wgpu::Device::create_buffer: a uniform buffer of the requested
/// size (uniform and copy-destination usage, not mapped).
#[verifier::external_body]
fn create_uniform_buffer(device: &wgpu::Device, size: u64) -> (r: SizedBuffer)
    ensures
        r.spec_size() == size,
        !r.spec_copy_src(),
{
    let buffer = device.create_buffer(&wgpu::BufferDescriptor {
        label: None,
        size,
        usage: wgpu::BufferUsages::UNIFORM | wgpu::BufferUsages::COPY_DST,
        mapped_at_creation: false,
    });
    SizedBuffer { buffer, size, copy_src: false }
}

/// Relies on wgpu::Device::create_buffer: a storage buffer of the requested
/// size (storage and copy-destination usage, not mapped).
#[verifier::external_body]
fn create_storage_buffer(device: &wgpu::Device, size: u64) -> (r: SizedBuffer)
    ensures
        r.spec_size() == size,
        !r.spec_copy_src(),
{
    let buffer = device.create_buffer(&wgpu::BufferDescriptor {
        label: None,
        size,
        usage: wgpu::BufferUsages::STORAGE | wgpu::BufferUsages::COPY_DST,
        mapped_at_creation: false,
    });
    SizedBuffer { buffer, size, copy_src: false }
}

/// Relies on wgpu::Device::create_buffer: the accumulation buffer — storage,
/// copy destination for the per-frame texture copy, copy source for the
/// export readback; not mapped.
#[verifier::external_body]
fn create_accumulation_buffer(device: &wgpu::Device, size: u64) -> (r: SizedBuffer)
    ensures
        r.spec_size() == size,
        r.spec_copy_src(),
{
    let usage = wgpu::BufferUsages::STORAGE | wgpu::BufferUsages::COPY_DST
        | wgpu::BufferUsages::COPY_SRC;
    let buffer = device.create_buffer(&wgpu::BufferDescriptor {
        label: None,
        size,
        usage,
        mapped_at_creation: false,
    });
    SizedBuffer { buffer, size, copy_src: true }
}

/// Relies on wgpu::Device::create_buffer: a map-readable readback buffer of
/// the requested size (map-read and copy-destination usage, not mapped).
#[verifier::external_body]
fn create_readback_buffer(device: &wgpu::Device, size: u64) -> (r: SizedBuffer)
    ensures
        r.spec_size() == size,
        !r.spec_copy_src(),
{
    let buffer = device.create_buffer(&wgpu::BufferDescriptor {
        label: None,
        size,
        usage: wgpu::BufferUsages::MAP_READ | wgpu::BufferUsages::COPY_DST,
        mapped_at_creation: false,
    });
    SizedBuffer { buffer, size, copy_src: false }
}

/// Relies on wgpu::Device::create_texture: the kernel's output texture at
/// the given extents — the output format (four 16-bit float channels), one
/// mip level, one sample, with storage-binding, render-attachment,
/// texture-binding and copy-source usage.
#[verifier::external_body]
fn create_output_texture(device: &wgpu::Device, width: u32, height: u32) -> (r: SizedTexture)
    ensures
        r.spec_width() == width,
        r.spec_height() == height,
{
    let usage = wgpu::TextureUsages::STORAGE_BINDING | wgpu::TextureUsages::RENDER_ATTACHMENT
        | wgpu::TextureUsages::TEXTURE_BINDING | wgpu::TextureUsages::COPY_SRC;
    let texture = device.create_texture(&wgpu::TextureDescriptor {
        size: wgpu::Extent3d { width, height, depth_or_array_layers: 1 },
        mip_level_count: 1,
        sample_count: 1,
        dimension: wgpu::TextureDimension::D2,
        format: wgpu::TextureFormat::Rgba16Float,
        usage,
        label: None,
        view_formats: &[],
    });
    SizedTexture { texture, width, height }
}

/// Relies on wgpu::Texture::create_view: the default whole-texture view.
#[verifier::external_body]
fn create_texture_view(texture: &SizedTexture) -> wgpu::TextureView {
    texture.texture.create_view(&wgpu::TextureViewDescriptor::default())
}

/// Relies on wgpu::Device::create_bind_group: wires the compute bind group
/// in the slot order `compute_bind_group_layout` states — output texture
/// view, scene uniform, sphere records, accumulation buffer.
#[verifier::external_body]
fn create_compute_bind_group(
    device: &wgpu::Device,
    layout: &wgpu::BindGroupLayout,
    view: &wgpu::TextureView,
    scene: &SizedBuffer,
    spheres: &SizedBuffer,
    accumulation: &SizedBuffer,
) -> wgpu::BindGroup {
    let entries = [
        wgpu::BindGroupEntry { binding: 0, resource: wgpu::BindingResource::TextureView(view) },
        wgpu::BindGroupEntry { binding: 1, resource: scene.buffer.as_entire_binding() },
        wgpu::BindGroupEntry { binding: 2, resource: spheres.buffer.as_entire_binding() },
        wgpu::BindGroupEntry { binding: 3, resource: accumulation.buffer.as_entire_binding() },
    ];
    device.create_bind_group(&wgpu::BindGroupDescriptor { layout, label: None, entries: &entries })
}

/// Relies on wgpu::Queue::write_buffer: stages `data` for the buffer at the
/// given offset, ordered before the next submission. The queue demands a
/// copy-aligned offset and length and a write within the buffer; the
/// buffer's usage and unmapped state are fixed by its creation wrapper.
#[verifier::external_body]
fn queue_write_buffer(queue: &wgpu::Queue, buffer: &SizedBuffer, offset: u64, data: &Vec<u8>)
    requires
        offset % 4 == 0,
        data@.len() % 4 == 0,
        offset + data@.len() <= buffer.spec_size(),
{
    queue.write_buffer(&buffer.buffer, offset, data.as_slice());
}

/// Relies on wgpu::CommandEncoder::begin_compute_pass: opens a compute pass
/// on the encoder. What the pass records is validated by wgpu when the pass
/// closes, at the end of `prepare`'s pass block: the bundle's pipeline and
/// bind group must come from one layout (see `RaytracingRenderResources::new`)
/// and the dispatch extents from a well-formed plan.
#[verifier::external_body]
fn begin_compute_pass<'e>(encoder: &'e mut wgpu::CommandEncoder) -> wgpu::ComputePass<'e> {
    encoder.begin_compute_pass(&Default::default())
}

/// Relies on wgpu::ComputePass::set_pipeline.
#[verifier::external_body]
fn compute_set_pipeline<'a>(pass: &mut wgpu::ComputePass<'a>, pipeline: &'a wgpu::ComputePipeline) {
    pass.set_pipeline(pipeline);
}

/// Relies on wgpu::ComputePass::set_bind_group, with no dynamic offsets.
#[verifier::external_body]
fn compute_set_bind_group<'a>(
    pass: &mut wgpu::ComputePass<'a>,
    index: u32,
    bind_group: &'a wgpu::BindGroup,
) {
    pass.set_bind_group(index, bind_group, &[]);
}

/// Relies on wgpu::ComputePass::dispatch_workgroups.
#[verifier::external_body]
fn dispatch_workgroups<'a>(pass: &mut wgpu::ComputePass<'a>, x: u32, y: u32, z: u32) {
    pass.dispatch_workgroups(x, y, z);
}

/// Relies on wgpu::CommandEncoder::copy_texture_to_buffer: records a copy of
/// the whole `width` x `height` texture of 8-byte pixels into the buffer at
/// the given row stride. The stride must be copy aligned and cover one row,
/// the extent must be the texture's own, and the rows must fit the buffer;
/// the usages (texture copy source, buffer copy destination) are fixed by
/// the creation wrappers.
#[verifier::external_body]
fn copy_texture_to_buffer(
    encoder: &mut wgpu::CommandEncoder,
    texture: &SizedTexture,
    buffer: &SizedBuffer,
    bytes_per_row: u32,
    width: u32,
    height: u32,
)
    requires
        bytes_per_row % 256 == 0,
        8 * width <= bytes_per_row,
        width == texture.spec_width(),
        height == texture.spec_height(),
        width >= 1,
        height >= 1,
        bytes_per_row * height <= buffer.spec_size(),
{
    let source = wgpu::ImageCopyTexture {
        texture: &texture.texture,
        aspect: wgpu::TextureAspect::All,
        mip_level: 0,
        origin: Default::default(),
    };
    let layout = wgpu::ImageDataLayout {
        bytes_per_row: std::num::NonZeroU32::new(bytes_per_row), offset: 0, rows_per_image: None,
    };
    let destination = wgpu::ImageCopyBuffer { buffer: &buffer.buffer, layout };
    let extent = wgpu::Extent3d { width, height, depth_or_array_layers: 1 };
    encoder.copy_texture_to_buffer(source, destination, extent);
}

/// Relies on wgpu::CommandEncoder::copy_buffer_to_buffer: records a copy of
/// `size` bytes from the start of one buffer to the start of another. The
/// encoder demands distinct buffers, a copy-aligned size, both ranges in
/// bounds, and a copy-source usage on the source.
#[verifier::external_body]
fn copy_buffer_to_buffer(
    encoder: &mut wgpu::CommandEncoder,
    source: &SizedBuffer,
    dest: &SizedBuffer,
    size: u64,
)
    requires
        *source != *dest,
        source.spec_copy_src(),
        size % 4 == 0,
        size <= source.spec_size(),
        size <= dest.spec_size(),
{
    encoder.copy_buffer_to_buffer(&source.buffer, 0, &dest.buffer, 0, size);
}

/// Relies on wgpu::RenderPass::set_pipeline.
#[verifier::external_body]
fn render_set_pipeline<'a>(pass: &mut wgpu::RenderPass<'a>, pipeline: &'a wgpu::RenderPipeline) {
    pass.set_pipeline(pipeline);
}

/// Relies on wgpu::RenderPass::set_bind_group, with no dynamic offsets.
#[verifier::external_body]
fn render_set_bind_group<'a>(
    pass: &mut wgpu::RenderPass<'a>,
    index: u32,
    bind_group: &'a wgpu::BindGroup,
) {
    pass.set_bind_group(index, bind_group, &[]);
}

/// Relies on wgpu::RenderPass::draw: one instance of the first `vertices`
/// vertices.
#[verifier::external_body]
fn render_draw<'a>(pass: &mut wgpu::RenderPass<'a>, vertices: u32) {
    pass.draw(0..vertices, 0..1);
}

/// The compute half of a bundle: the raytracing pipeline, its bind group,
/// the output texture it writes, and the buffers bound to it. `width` and
/// `height` record the viewport the bundle was built for; `bundle_wf` ties
/// the texture extents and every buffer size to them.
pub struct RaytracingRenderResources {
    pub width: u32,
    pub height: u32,
    pub pipeline: wgpu::ComputePipeline,
    pub bind_group: wgpu::BindGroup,
    pub storage_texture_view: wgpu::TextureView,
    pub storage_texture: SizedTexture,
    pub progressive_rendering_buffer: SizedBuffer,
    pub scene_info_buffer: SizedBuffer,
    pub sphere_buffer: SizedBuffer,
}

/// A bundle wired as built: the recorded viewport is within the device's
/// dispatch limit, the output texture has exactly its extents, the scene
/// and sphere buffers hold the library's fixed allocation sizes, and the
/// accumulation buffer holds the padded image and can source the export
/// copy.
pub open spec fn bundle_wf(r: RaytracingRenderResources) -> bool {
    &&& 1 <= r.width <= MAX_WORKGROUPS_PER_DIMENSION
    &&& 1 <= r.height <= MAX_WORKGROUPS_PER_DIMENSION
    &&& r.storage_texture.spec_width() == r.width
    &&& r.storage_texture.spec_height() == r.height
    &&& r.scene_info_buffer.spec_size() == SCENE_INFO_SIZE
    &&& r.sphere_buffer.spec_size() == SPHERE_SIZE * MAX_SPHERES
    &&& r.progressive_rendering_buffer.spec_size() == padded_row_stride(8 * r.width, 256)
        * r.height
    &&& r.progressive_rendering_buffer.spec_copy_src()
}

/// The screen half of a bundle: the blit pipeline and its sampler/texture
/// bind group.
pub struct ScreenRenderResources {
    pub pipeline: wgpu::RenderPipeline,
    pub bind_group: wgpu::BindGroup,
}

/// One viewport's complete resource bundle.
pub struct Resources {
    pub raytracing_resources: RaytracingRenderResources,
    pub screen_resources: ScreenRenderResources,
}

impl RaytracingRenderResources {
    /// Builds the compute half of a bundle for one viewport: the output
    /// texture and its view, the three buffers at the library's sizes, and
    /// the bind group wiring them in slot order. The caller supplies the
    /// compute pipeline and the bind-group layout; the pipeline must have
    /// been built over exactly that layout — wgpu checks the pair when the
    /// frame's compute pass closes.
    pub fn new(
        device: &wgpu::Device,
        pipeline: wgpu::ComputePipeline,
        bind_group_layout: &wgpu::BindGroupLayout,
        width: u32,
        height: u32,
    ) -> (r: RaytracingRenderResources)
        requires
            1 <= width <= MAX_WORKGROUPS_PER_DIMENSION,
            1 <= height <= MAX_WORKGROUPS_PER_DIMENSION,
        ensures
            bundle_wf(r),
            r.width == width,
            r.height == height,
    {
        let scene_info_buffer = create_uniform_buffer(device, scene_info_buffer_size());
        let sphere_buffer = create_storage_buffer(device, sphere_buffer_size());
        let storage_texture = create_output_texture(device, width, height);
        let storage_texture_view = create_texture_view(&storage_texture);
        let progressive_rendering_buffer = create_accumulation_buffer(
            device,
            accumulation_buffer_size(width, height),
        );
        let bind_group = create_compute_bind_group(
            device,
            bind_group_layout,
            &storage_texture_view,
            &scene_info_buffer,
            &sphere_buffer,
            &progressive_rendering_buffer,
        );
        RaytracingRenderResources {
            width,
            height,
            pipeline,
            bind_group,
            storage_texture_view,
            storage_texture,
            progressive_rendering_buffer,
            scene_info_buffer,
            sphere_buffer,
        }
    }

    /// Records one frame's compute work, all values taken from the plan:
    /// upload of the packed uniform and sphere records, one dispatch per
    /// output pixel, and the copy of the output texture into the
    /// accumulation buffer at the plan's row stride. The uploads are staged
    /// on the queue, ordered before the submission that carries the
    /// dispatch. The plan must be well formed and built for this bundle's
    /// viewport: the uniform then fills its buffer exactly, the sphere
    /// records stay within the buffer's capacity, and the copy is the whole
    /// texture into the accumulation buffer it fits.
    pub fn prepare(
        &self,
        queue: &wgpu::Queue,
        encoder: &mut wgpu::CommandEncoder,
        plan: &RenderPlan,
    )
        requires
            plan_wf(*plan),
            bundle_wf(*self),
            plan.width == self.width,
            plan.height == self.height,
    {
        proof {
            lemma_scene_info_layout(plan.scene_info);
            lemma_padded_row_stride(8 * plan.width, 256);
            assert(plan.uniform_data@.len() == 32);
            assert(plan.sphere_data@.len() % 4 == 0 && plan.sphere_data@.len() <= 512)
                by (nonlinear_arith)
                requires
                    plan.sphere_data@.len() == 32 * plan.scene_info.sphere_count,
                    plan.scene_info.sphere_count <= 16,
            ;
        }
        {
            let mut raytracing_pass = begin_compute_pass(encoder);
            queue_write_buffer(queue, &self.scene_info_buffer, 0, &plan.uniform_data);
            queue_write_buffer(queue, &self.sphere_buffer, 0, &plan.sphere_data);
            compute_set_pipeline(&mut raytracing_pass, &self.pipeline);
            compute_set_bind_group(&mut raytracing_pass, 0, &self.bind_group);
            let (x, y, z) = plan.dispatch;
            dispatch_workgroups(&mut raytracing_pass, x, y, z);
        }
        copy_texture_to_buffer(
            encoder,
            &self.storage_texture,
            &self.progressive_rendering_buffer,
            plan.bytes_per_row,
            plan.width,
            plan.height,
        );
    }

    /// Records the export copy: the whole padded accumulation buffer into a
    /// readback buffer large enough to hold it, which must not be the
    /// accumulation buffer itself.
    pub fn record_export_copy(
        &self,
        encoder: &mut wgpu::CommandEncoder,
        dest: &SizedBuffer,
    )
        requires
            bundle_wf(*self),
            *dest != self.progressive_rendering_buffer,
            dest.spec_size() >= padded_row_stride(8 * self.width, 256) * self.height,
    {
        proof {
            lemma_padded_row_stride(8 * self.width, 256);
            let stride = padded_row_stride(8 * self.width, 256);
            vstd::arithmetic::div_mod::lemma_fundamental_div_mod(stride, 256);
            let q = stride / 256;
            assert(stride * self.height == (64 * q * self.height) * 4) by (nonlinear_arith)
                requires
                    stride == 256 * q,
            ;
            vstd::arithmetic::div_mod::lemma_mod_multiples_basic(64 * q * self.height, 4);
        }
        let size = accumulation_buffer_size(self.width, self.height);
        copy_buffer_to_buffer(encoder, &self.progressive_rendering_buffer, dest, size);
    }
}

/// A readback buffer sized for one export of a `width` x `height` frame:
/// the padded image fits it exactly.
pub fn create_export_readback(device: &wgpu::Device, width: u32, height: u32) -> (r: SizedBuffer)
    requires
        1 <= width <= MAX_WORKGROUPS_PER_DIMENSION,
        1 <= height <= MAX_WORKGROUPS_PER_DIMENSION,
    ensures
        r.spec_size() == padded_row_stride(8 * width, 256) * height,
{
    create_readback_buffer(device, accumulation_buffer_size(width, height))
}

impl ScreenRenderResources {
    /// Records the screen blit: the quad pipeline, its bind group, and the
    /// six-vertex full-screen draw.
    pub fn paint<'rp>(&'rp self, render_pass: &mut wgpu::RenderPass<'rp>) {
        render_set_pipeline(render_pass, &self.pipeline);
        render_set_bind_group(render_pass, 0, &self.bind_group);
        render_draw(render_pass, quad_vertex_count());
    }
}

impl Resources {
    /// Records one frame's prepare phase on this bundle. The plan must be
    /// well formed and built for this bundle's viewport.
    pub fn prepare(
        &self,
        queue: &wgpu::Queue,
        encoder: &mut wgpu::CommandEncoder,
        plan: &RenderPlan,
    )
        requires
            plan_wf(*plan),
            bundle_wf(self.raytracing_resources),
            plan.width == self.raytracing_resources.width,
            plan.height == self.raytracing_resources.height,
    {
        self.raytracing_resources.prepare(queue, encoder, plan);
    }

    /// Records one frame's paint phase on this bundle.
    pub fn paint<'rp>(&'rp self, render_pass: &mut wgpu::RenderPass<'rp>) {
        self.screen_resources.paint(render_pass);
    }
}

} // verus!
