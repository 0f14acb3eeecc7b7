//! The fixed resource configuration of the two pipelines.
//!
//! The compute pipeline binds exactly four resources — the write-only output
//! texture, the packed scene uniform, the sphere storage buffer and the
//! accumulation storage buffer — and the screen pipeline exactly two: a
//! filtering sampler and the output texture's view. The host builds its GPU
//! descriptors from these specifications and the sizes computed here; the
//! shader entry points are fixed names of the opaque compiled programs.

use crate::layout::get_bytes_per_row_from_width;
use crate::layout::padded_row_stride;
use crate::scene::MAX_SPHERES;
use crate::scene::SCENE_INFO_SIZE;
use crate::scene::SPHERE_SIZE;
use vstd::prelude::*;

verus! {

/// The device's per-dimension limit on compute dispatch extents (the
/// default limit every accepted device guarantees). The dispatch runs one
/// workgroup per output pixel, so no viewport axis may exceed it.
pub const MAX_WORKGROUPS_PER_DIMENSION: u32 = 65535;

/// What one bind-group slot holds.
#[derive(Clone, Copy, Debug, PartialEq, Eq, Structural)]
pub enum BindingKind {
    /// A write-only storage texture: the kernel's output image.
    StorageTexture,
    /// A uniform buffer: the packed per-frame scene uniform.
    UniformBuffer,
    /// A read-write storage buffer.
    StorageBuffer,
    /// A filtering sampler.
    FilteringSampler,
    /// A sampled texture view.
    SampledTexture,
}

/// One bind-group slot: its index and what it holds.
#[derive(Clone, Copy, Debug, PartialEq, Eq, Structural)]
pub struct BindingSpec {
    pub binding: u32,
    pub kind: BindingKind,
}

/// The compute pipeline's bind group: exactly four bindings, in slot order —
/// output texture, scene uniform, sphere records, accumulation buffer.
pub fn compute_bind_group_layout() -> (r: Vec<BindingSpec>)
    ensures
        r@.len() == 4,
        r@[0] == (BindingSpec { binding: 0, kind: BindingKind::StorageTexture }),
        r@[1] == (BindingSpec { binding: 1, kind: BindingKind::UniformBuffer }),
        r@[2] == (BindingSpec { binding: 2, kind: BindingKind::StorageBuffer }),
        r@[3] == (BindingSpec { binding: 3, kind: BindingKind::StorageBuffer }),
        forall|i: int| 0 <= i < 4 ==> (#[trigger] r@[i]).binding == i,
{
    let mut r: Vec<BindingSpec> = Vec::new();
    r.push(BindingSpec { binding: 0, kind: BindingKind::StorageTexture });
    r.push(BindingSpec { binding: 1, kind: BindingKind::UniformBuffer });
    r.push(BindingSpec { binding: 2, kind: BindingKind::StorageBuffer });
    r.push(BindingSpec { binding: 3, kind: BindingKind::StorageBuffer });
    r
}

/// The screen pipeline's bind group: exactly two bindings — the sampler and
/// the compute output's texture view.
pub fn screen_bind_group_layout() -> (r: Vec<BindingSpec>)
    ensures
        r@.len() == 2,
        r@[0] == (BindingSpec { binding: 0, kind: BindingKind::FilteringSampler }),
        r@[1] == (BindingSpec { binding: 1, kind: BindingKind::SampledTexture }),
{
    let mut r: Vec<BindingSpec> = Vec::new();
    r.push(BindingSpec { binding: 0, kind: BindingKind::FilteringSampler });
    r.push(BindingSpec { binding: 1, kind: BindingKind::SampledTexture });
    r
}

/// Entry point of the compute kernel.
pub fn compute_entry_point() -> (r: &'static str)
    ensures
        r@ == "main"@,
{
    "main"
}

/// Entry point of the screen pair's vertex stage.
pub fn vertex_entry_point() -> (r: &'static str)
    ensures
        r@ == "vert_main"@,
{
    "vert_main"
}

/// Entry point of the screen pair's fragment stage.
pub fn fragment_entry_point() -> (r: &'static str)
    ensures
        r@ == "frag_main"@,
{
    "frag_main"
}

/// The screen quad: two triangles synthesized from the vertex index, no
/// vertex buffer.
pub fn quad_vertex_count() -> (r: u32)
    ensures
        r == 6,
{
    6
}

/// Allocation size of the scene uniform buffer.
pub fn scene_info_buffer_size() -> (r: u64)
    ensures
        r == SCENE_INFO_SIZE,
{
    SCENE_INFO_SIZE as u64
}

/// Allocation size of the sphere storage buffer: room for `MAX_SPHERES`
/// packed records.
pub fn sphere_buffer_size() -> (r: u64)
    ensures
        r == SPHERE_SIZE * MAX_SPHERES,
{
    (SPHERE_SIZE * MAX_SPHERES) as u64
}

/// Allocation size of the accumulation buffer for a viewport: the padded
/// row stride times the row count.
pub fn accumulation_buffer_size(width: u32, height: u32) -> (r: u64)
    requires
        8 * width + 255 <= u32::MAX,
    ensures
        r == padded_row_stride(8 * width, 256) * height,
{
    let stride = get_bytes_per_row_from_width(width);
    assert((stride as u64) * (height as u64) <= u64::MAX) by (nonlinear_arith)
        requires
            stride <= u32::MAX,
            height <= u32::MAX,
    ;
    (stride as u64) * (height as u64)
}

} // verus!
