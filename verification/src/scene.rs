//! Scene data as the compute kernel sees it, and its exact binary layout.
//!
//! The kernel reads the per-frame uniform (`SceneInfo`) and the sphere array
//! from GPU buffers as raw bytes with a fixed field order, fixed widths and
//! fixed padding; a host-side layout mistake silently feeds the kernel wrong
//! values rather than failing. Float scalars are carried as their IEEE-754
//! single-precision bit patterns: the host never computes with them, it only
//! lays them out, so a 32-bit pattern is the whole story.
//!
//! The `*_bytes` spec functions are the layout contract; every pack function
//! ensures its output equals them byte for byte.

use vstd::prelude::*;

verus! {

/// Byte count of one packed `Sphere` record in the storage buffer.
pub const SPHERE_SIZE: usize = 32;

/// Byte count of the packed per-frame uniform `SceneInfo`.
pub const SCENE_INFO_SIZE: usize = 32;

/// Capacity, in records, of the sphere storage buffer.
pub const MAX_SPHERES: usize = 16;

/// Two float scalars, as bit patterns.
#[derive(Clone, Copy, Debug, PartialEq, Eq, Structural)]
pub struct Vec2 {
    pub x_bits: u32,
    pub y_bits: u32,
}

/// Three float scalars, as bit patterns.
#[derive(Clone, Copy, Debug, PartialEq, Eq, Structural)]
pub struct Vec3 {
    pub x_bits: u32,
    pub y_bits: u32,
    pub z_bits: u32,
}

/// Surface description of one sphere: an albedo color and a mirror flag.
#[derive(Clone, Copy, Debug, PartialEq, Eq, Structural)]
pub struct Material {
    pub albedo: Vec3,
    pub is_mirror: u32,
}

/// One scene primitive: a sphere with its material.
#[derive(Clone, Copy, Debug, PartialEq, Eq, Structural)]
pub struct Sphere {
    pub position: Vec3,
    pub radius_bits: u32,
    pub mat: Material,
}

/// The scene camera. Packed with one trailing word of padding, as the
/// kernel's uniform layout demands.
#[derive(Clone, Copy, Debug, PartialEq, Eq, Structural)]
pub struct Camera {
    pub position: Vec3,
}

/// The per-frame uniform payload: camera, elapsed seconds, number of sphere
/// records uploaded alongside it, the frame's fresh sampling seed, and the
/// progressive frame counter.
#[derive(Clone, Copy, Debug, PartialEq, Eq, Structural)]
pub struct SceneInfo {
    pub camera: Camera,
    pub time_bits: u32,
    pub sphere_count: u32,
    pub random_seed_bits: u32,
    pub frame_count: u32,
}

/// The four bytes of `x` in little-endian order.
pub open spec fn u32_le_bytes(x: u32) -> Seq<u8> {
    seq![
        (x % 0x100) as u8,
        ((x / 0x100) % 0x100) as u8,
        ((x / 0x10000) % 0x100) as u8,
        ((x / 0x1000000) % 0x100) as u8,
    ]
}

/// Packed layout of a `Vec3`: three little-endian words, no padding.
pub open spec fn vec3_bytes(v: Vec3) -> Seq<u8> {
    u32_le_bytes(v.x_bits) + u32_le_bytes(v.y_bits) + u32_le_bytes(v.z_bits)
}

/// Packed layout of a `Material`: albedo then the mirror flag.
pub open spec fn material_bytes(m: Material) -> Seq<u8> {
    vec3_bytes(m.albedo) + u32_le_bytes(m.is_mirror)
}

/// Packed layout of one `Sphere` record: position, radius, material.
pub open spec fn sphere_bytes(s: Sphere) -> Seq<u8> {
    vec3_bytes(s.position) + u32_le_bytes(s.radius_bits) + material_bytes(s.mat)
}

/// Packed layout of the `Camera`: position then one zero word of padding.
pub open spec fn camera_bytes(c: Camera) -> Seq<u8> {
    vec3_bytes(c.position) + seq![0u8, 0u8, 0u8, 0u8]
}

/// Packed layout of the per-frame uniform: camera, time, sphere count,
/// sampling seed, frame counter, in that order and nothing else.
pub open spec fn scene_info_bytes(s: SceneInfo) -> Seq<u8> {
    camera_bytes(s.camera) + u32_le_bytes(s.time_bits) + u32_le_bytes(s.sphere_count)
        + u32_le_bytes(s.random_seed_bits) + u32_le_bytes(s.frame_count)
}

/// Packed layout of a sphere array: the records back to back, in order.
pub open spec fn spheres_bytes(ss: Seq<Sphere>) -> Seq<u8>
    decreases ss.len(),
{
    if ss.len() == 0 {
        Seq::empty()
    } else {
        spheres_bytes(ss.drop_last()) + sphere_bytes(ss.last())
    }
}

/// A packed sphere array takes exactly `SPHERE_SIZE` bytes per record.
pub proof fn lemma_spheres_bytes_len(ss: Seq<Sphere>)
    ensures
        spheres_bytes(ss).len() == SPHERE_SIZE * ss.len(),
    decreases ss.len(),
{
    if ss.len() > 0 {
        lemma_spheres_bytes_len(ss.drop_last());
    }
}

/// The packed uniform is exactly `SCENE_INFO_SIZE` bytes, with every field
/// at its fixed offset: camera position at 0, one padding word at 12, time
/// at 16, sphere count at 20, sampling seed at 24, frame counter at 28.
/// This is the layout the compute kernel was compiled against.
pub proof fn lemma_scene_info_layout(s: SceneInfo)
    ensures
        scene_info_bytes(s).len() == SCENE_INFO_SIZE,
        scene_info_bytes(s).subrange(0, 12) == vec3_bytes(s.camera.position),
        scene_info_bytes(s).subrange(12, 16) == seq![0u8, 0u8, 0u8, 0u8],
        scene_info_bytes(s).subrange(16, 20) == u32_le_bytes(s.time_bits),
        scene_info_bytes(s).subrange(20, 24) == u32_le_bytes(s.sphere_count),
        scene_info_bytes(s).subrange(24, 28) == u32_le_bytes(s.random_seed_bits),
        scene_info_bytes(s).subrange(28, 32) == u32_le_bytes(s.frame_count),
{
    let b = scene_info_bytes(s);
    assert(b.subrange(0, 12) =~= vec3_bytes(s.camera.position));
    assert(b.subrange(12, 16) =~= seq![0u8, 0u8, 0u8, 0u8]);
    assert(b.subrange(16, 20) =~= u32_le_bytes(s.time_bits));
    assert(b.subrange(20, 24) =~= u32_le_bytes(s.sphere_count));
    assert(b.subrange(24, 28) =~= u32_le_bytes(s.random_seed_bits));
    assert(b.subrange(28, 32) =~= u32_le_bytes(s.frame_count));
}

/// One packed sphere record is exactly `SPHERE_SIZE` bytes: position at 0,
/// radius at 12, albedo at 16, mirror flag at 28; the record's stride leaves
/// no padding.
pub proof fn lemma_sphere_layout(s: Sphere)
    ensures
        sphere_bytes(s).len() == SPHERE_SIZE,
        sphere_bytes(s).subrange(0, 12) == vec3_bytes(s.position),
        sphere_bytes(s).subrange(12, 16) == u32_le_bytes(s.radius_bits),
        sphere_bytes(s).subrange(16, 28) == vec3_bytes(s.mat.albedo),
        sphere_bytes(s).subrange(28, 32) == u32_le_bytes(s.mat.is_mirror),
{
    let b = sphere_bytes(s);
    assert(b.subrange(0, 12) =~= vec3_bytes(s.position));
    assert(b.subrange(12, 16) =~= u32_le_bytes(s.radius_bits));
    assert(b.subrange(16, 28) =~= vec3_bytes(s.mat.albedo));
    assert(b.subrange(28, 32) =~= u32_le_bytes(s.mat.is_mirror));
}

/// In the packed sphere array, record `i` stands at offset `SPHERE_SIZE * i`:
/// uploading the array and telling the kernel its count addresses every
/// record exactly.
pub proof fn lemma_spheres_bytes_index(ss: Seq<Sphere>, i: int)
    requires
        0 <= i < ss.len(),
    ensures
        spheres_bytes(ss).subrange(SPHERE_SIZE * i, SPHERE_SIZE * (i + 1)) == sphere_bytes(ss[i]),
    decreases ss.len(),
{
    lemma_spheres_bytes_len(ss);
    lemma_spheres_bytes_len(ss.drop_last());
    if i == ss.len() - 1 {
        assert(spheres_bytes(ss).subrange(SPHERE_SIZE * i, SPHERE_SIZE * (i + 1))
            =~= sphere_bytes(ss.last()));
    } else {
        lemma_spheres_bytes_index(ss.drop_last(), i);
        assert(spheres_bytes(ss).subrange(SPHERE_SIZE * i, SPHERE_SIZE * (i + 1))
            =~= spheres_bytes(ss.drop_last()).subrange(SPHERE_SIZE * i, SPHERE_SIZE * (i + 1)));
    }
}

/// Appends the four bytes of `x`, least significant first.
fn push_u32_le(out: &mut Vec<u8>, x: u32)
    ensures
        final(out)@ == old(out)@ + u32_le_bytes(x),
{
    out.push((x % 0x100) as u8);
    out.push((x / 0x100 % 0x100) as u8);
    out.push((x / 0x10000 % 0x100) as u8);
    out.push((x / 0x1000000 % 0x100) as u8);
    assert(out@ =~= old(out)@ + u32_le_bytes(x));
}

/// Appends the packed bytes of `v`.
fn push_vec3(out: &mut Vec<u8>, v: &Vec3)
    ensures
        final(out)@ == old(out)@ + vec3_bytes(*v),
{
    push_u32_le(out, v.x_bits);
    push_u32_le(out, v.y_bits);
    push_u32_le(out, v.z_bits);
    assert(out@ =~= old(out)@ + vec3_bytes(*v));
}

/// Appends the packed bytes of `m`.
fn push_material(out: &mut Vec<u8>, m: &Material)
    ensures
        final(out)@ == old(out)@ + material_bytes(*m),
{
    push_vec3(out, &m.albedo);
    push_u32_le(out, m.is_mirror);
    assert(out@ =~= old(out)@ + material_bytes(*m));
}

/// Appends the packed bytes of one sphere record.
fn push_sphere(out: &mut Vec<u8>, s: &Sphere)
    ensures
        final(out)@ == old(out)@ + sphere_bytes(*s),
{
    push_vec3(out, &s.position);
    push_u32_le(out, s.radius_bits);
    push_material(out, &s.mat);
    assert(out@ =~= old(out)@ + sphere_bytes(*s));
}

impl SceneInfo {
    /// Packs the per-frame uniform exactly as the kernel reads it.
    pub fn pack(&self) -> (r: Vec<u8>)
        ensures
            r@ == scene_info_bytes(*self),
            r@.len() == SCENE_INFO_SIZE,
    {
        let mut out: Vec<u8> = Vec::new();
        push_vec3(&mut out, &self.camera.position);
        push_u32_le(&mut out, 0);
        push_u32_le(&mut out, self.time_bits);
        push_u32_le(&mut out, self.sphere_count);
        push_u32_le(&mut out, self.random_seed_bits);
        push_u32_le(&mut out, self.frame_count);
        assert(out@ =~= scene_info_bytes(*self));
        out
    }
}

/// Packs a sphere array for the storage buffer: records back to back.
pub fn pack_spheres(spheres: &Vec<Sphere>) -> (r: Vec<u8>)
    ensures
        r@ == spheres_bytes(spheres@),
        r@.len() == SPHERE_SIZE * spheres@.len(),
{
    let mut out: Vec<u8> = Vec::new();
    let mut i: usize = 0;
    while i < spheres.len()
        invariant
            i <= spheres@.len(),
            out@ == spheres_bytes(spheres@.take(i as int)),
        decreases spheres@.len() - i,
    {
        push_sphere(&mut out, &spheres[i]);
        proof {
            let taken = spheres@.take(i + 1 as int);
            assert(taken.drop_last() =~= spheres@.take(i as int));
            assert(taken.last() == spheres@[i as int]);
        }
        i = i + 1;
    }
    assert(spheres@.take(spheres@.len() as int) =~= spheres@);
    proof {
        lemma_spheres_bytes_len(spheres@);
    }
    out
}

impl Default for Vec2 {
    /// The zero vector.
    fn default() -> (v: Vec2)
        ensures
            v == (Vec2 { x_bits: 0, y_bits: 0 }),
    {
        Vec2 { x_bits: 0, y_bits: 0 }
    }
}

impl Default for Vec3 {
    /// The zero vector.
    fn default() -> (v: Vec3)
        ensures
            v == (Vec3 { x_bits: 0, y_bits: 0, z_bits: 0 }),
    {
        Vec3 { x_bits: 0, y_bits: 0, z_bits: 0 }
    }
}

impl Default for Material {
    /// Black, non-mirror.
    fn default() -> (m: Material)
        ensures
            m == (Material { albedo: Vec3 { x_bits: 0, y_bits: 0, z_bits: 0 }, is_mirror: 0 }),
    {
        Material { albedo: Vec3 { x_bits: 0, y_bits: 0, z_bits: 0 }, is_mirror: 0 }
    }
}

impl Default for Camera {
    /// A camera at the origin.
    fn default() -> (c: Camera)
        ensures
            c == (Camera { position: Vec3 { x_bits: 0, y_bits: 0, z_bits: 0 } }),
    {
        Camera { position: Vec3 { x_bits: 0, y_bits: 0, z_bits: 0 } }
    }
}

impl Default for SceneInfo {
    /// The all-zero uniform uploaded before the first frame.
    fn default() -> (s: SceneInfo)
        ensures
            s == (SceneInfo {
                camera: Camera { position: Vec3 { x_bits: 0, y_bits: 0, z_bits: 0 } },
                time_bits: 0,
                sphere_count: 0,
                random_seed_bits: 0,
                frame_count: 0,
            }),
    {
        SceneInfo {
            camera: Camera { position: Vec3 { x_bits: 0, y_bits: 0, z_bits: 0 } },
            time_bits: 0,
            sphere_count: 0,
            random_seed_bits: 0,
            frame_count: 0,
        }
    }
}

} // verus!
