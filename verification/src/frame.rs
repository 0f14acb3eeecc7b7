//! The per-frame protocol: sizing, the resize decision, and the progressive
//! frame counter.
//!
//! Each displayed frame the orchestrator fits the render target into the
//! available area, decides whether the resource bundle must be rebuilt at a
//! new size, advances the frame counter, and emits a `FramePlan`: the
//! immutable snapshot of everything the frame's GPU work consumes. The host
//! executes the plan; no decision is taken outside this module.
//!
//! The bundle generation stands for bundle identity: it increments exactly
//! when a new bundle replaces the old one in the slot.

use crate::fit::fit_rect;
use crate::fit::fitted_size;
use crate::layout::get_bytes_per_row_from_width;
use crate::layout::lemma_padded_row_stride;
use crate::layout::padded_row_stride;
use crate::pipeline::MAX_WORKGROUPS_PER_DIMENSION;
use crate::rng::SEED_BITS_LIMIT;
use crate::rng::draw_seed_bits;
use crate::rng::fresh_rng;
use crate::scene::Camera;
use crate::scene::MAX_SPHERES;
use crate::scene::SPHERE_SIZE;
use crate::scene::SceneInfo;
use crate::scene::Sphere;
use crate::scene::lemma_spheres_bytes_len;
use crate::scene::pack_spheres;
use crate::scene::scene_info_bytes;
use crate::scene::spheres_bytes;
use vstd::prelude::*;

verus! {

/// The pure per-bundle state: the size the current bundle was built for,
/// the progressive frame counter, and the bundle's identity.
#[derive(Clone, Copy, Debug, PartialEq, Eq, Structural)]
pub struct BundleState {
    pub width: u32,
    pub height: u32,
    pub frame_count: u32,
    pub generation: u64,
}

/// Everything one frame's GPU work consumes, fixed before any of it is
/// recorded: whether to rebuild the bundle first, the viewport size, the
/// packed uniform and sphere payloads, the row stride of the copy into the
/// accumulation buffer, and the compute dispatch extents.
pub struct RenderPlan {
    pub rebuild: bool,
    pub width: u32,
    pub height: u32,
    pub scene_info: SceneInfo,
    pub uniform_data: Vec<u8>,
    pub spheres: Vec<Sphere>,
    pub sphere_data: Vec<u8>,
    pub bytes_per_row: u32,
    pub dispatch: (u32, u32, u32),
}

/// One frame's outcome: either all GPU work is skipped (the previous image
/// stays on screen) or the frame renders by the plan.
pub enum FramePlan {
    Skip,
    Render(RenderPlan),
}

/// The fitted draw size for this state and available area.
pub open spec fn spec_fitted(s: BundleState, aw: int, ah: int) -> (int, int) {
    fitted_size(aw, ah, s.width as int, s.height as int)
}

/// A frame is skipped when the fitted size rounds to less than one pixel on
/// either axis.
pub open spec fn spec_skip(s: BundleState, aw: int, ah: int) -> bool {
    spec_fitted(s, aw, ah).0 == 0 || spec_fitted(s, aw, ah).1 == 0
}

/// A displayed frame rebuilds the bundle exactly when the fitted size
/// differs from the size the current bundle was built for.
pub open spec fn spec_resizes(s: BundleState, aw: int, ah: int) -> bool {
    &&& !spec_skip(s, aw, ah)
    &&& spec_fitted(s, aw, ah) != (s.width as int, s.height as int)
}

/// The state after one frame: unchanged on a skip; on a resize the new size
/// with a renewed generation and the counter restarted at this frame; else
/// the counter advanced by one.
pub open spec fn spec_step(s: BundleState, aw: int, ah: int) -> BundleState {
    if spec_skip(s, aw, ah) {
        s
    } else if spec_resizes(s, aw, ah) {
        BundleState {
            width: spec_fitted(s, aw, ah).0 as u32,
            height: spec_fitted(s, aw, ah).1 as u32,
            frame_count: 1,
            generation: (s.generation + 1) as u64,
        }
    } else {
        BundleState {
            width: s.width,
            height: s.height,
            frame_count: (s.frame_count + 1) as u32,
            generation: s.generation,
        }
    }
}

/// The uniform a displayed frame uploads: the frame's snapshot scalars and
/// the stepped frame counter.
pub open spec fn spec_scene_info(
    s: BundleState,
    aw: int,
    ah: int,
    time_bits: u32,
    seed_bits: u32,
    camera: Camera,
    sphere_count: u32,
) -> SceneInfo {
    SceneInfo {
        camera,
        time_bits,
        sphere_count,
        random_seed_bits: seed_bits,
        frame_count: spec_step(s, aw, ah).frame_count,
    }
}

/// Internal coherence of a render plan, which `prepare` demands of every
/// frame it records: the viewport is at least one pixel and within the
/// device's dispatch limit on each axis, the dispatch runs one workgroup
/// per viewport pixel, the copy stride is the copy-aligned stride of the
/// viewport width, the uniform payload is the packed scene uniform, and
/// the sphere payload is the packed bytes of exactly the records the plan
/// carries, whose count the uniform announces — no more than the sphere
/// buffer's capacity.
pub open spec fn plan_wf(p: RenderPlan) -> bool {
    &&& 1 <= p.width <= MAX_WORKGROUPS_PER_DIMENSION
    &&& 1 <= p.height <= MAX_WORKGROUPS_PER_DIMENSION
    &&& p.dispatch == (p.width, p.height, 1u32)
    &&& p.bytes_per_row == padded_row_stride(8 * p.width, 256)
    &&& p.uniform_data@ == scene_info_bytes(p.scene_info)
    &&& p.scene_info.sphere_count <= MAX_SPHERES
    &&& p.spheres@.len() == p.scene_info.sphere_count
    &&& p.sphere_data@ == spheres_bytes(p.spheres@)
    &&& p.sphere_data@.len() == SPHERE_SIZE * p.scene_info.sphere_count
}

/// Byte-for-byte equality of two buffers.
fn bytes_eq(a: &Vec<u8>, b: &Vec<u8>) -> (r: bool)
    ensures
        r == (a@ == b@),
{
    if a.len() != b.len() {
        proof {
            assert(a@.len() != b@.len());
        }
        false
    } else {
        let mut i: usize = 0;
        while i < a.len()
            invariant
                i <= a@.len(),
                a@.len() == b@.len(),
                forall|j: int| 0 <= j < i ==> a@[j] == b@[j],
            decreases a@.len() - i,
        {
            if a[i] != b[i] {
                return false;
            }
            i = i + 1;
        }
        proof {
            assert(a@ =~= b@);
        }
        true
    }
}

/// Runtime gate for unverified hosts: accepts exactly the well-formed
/// plans, so a frame recorded after this check meets `prepare`'s demands.
pub fn check_plan(p: &RenderPlan) -> (b: bool)
    ensures
        b == plan_wf(*p),
{
    if p.width < 1 || p.width > MAX_WORKGROUPS_PER_DIMENSION || p.height < 1 || p.height
        > MAX_WORKGROUPS_PER_DIMENSION {
        return false;
    }
    let (x, y, z) = p.dispatch;
    if x != p.width || y != p.height || z != 1 {
        return false;
    }
    if p.bytes_per_row != get_bytes_per_row_from_width(p.width) {
        return false;
    }
    let packed = p.scene_info.pack();
    if !bytes_eq(&p.uniform_data, &packed) {
        return false;
    }
    if p.scene_info.sphere_count > MAX_SPHERES as u32 {
        return false;
    }
    if (p.spheres.len() as u64) != (p.scene_info.sphere_count as u64) {
        return false;
    }
    let packed_spheres = pack_spheres(&p.spheres);
    if !bytes_eq(&p.sphere_data, &packed_spheres) {
        return false;
    }
    proof {
        lemma_spheres_bytes_len(p.spheres@);
    }
    true
}

/// An element-for-element copy of the sphere records, carried in the plan
/// so the uploaded payload's provenance is part of its well-formedness.
fn copy_spheres(spheres: &Vec<Sphere>) -> (r: Vec<Sphere>)
    ensures
        r@ == spheres@,
{
    let mut r: Vec<Sphere> = Vec::new();
    let mut i: usize = 0;
    while i < spheres.len()
        invariant
            i <= spheres@.len(),
            r@ == spheres@.take(i as int),
        decreases spheres@.len() - i,
    {
        r.push(spheres[i]);
        proof {
            assert(spheres@.take(i + 1 as int) =~= spheres@.take(i as int).push(
                spheres@[i as int],
            ));
        }
        i = i + 1;
    }
    proof {
        assert(spheres@.take(spheres@.len() as int) =~= spheres@);
    }
    r
}

/// Computes one frame's state transition and plan from a given sampling
/// seed. Deterministic: every field of the result is a function of the
/// arguments.
pub fn plan_frame_seeded(
    state: BundleState,
    avail_w: u32,
    avail_h: u32,
    time_bits: u32,
    seed_bits: u32,
    camera: Camera,
    spheres: &Vec<Sphere>,
) -> (r: (BundleState, FramePlan))
    requires
        state.width >= 1,
        state.height >= 1,
        state.frame_count < u32::MAX,
        state.generation < u64::MAX,
        spheres@.len() <= MAX_SPHERES,
        avail_w <= MAX_WORKGROUPS_PER_DIMENSION,
        avail_h <= MAX_WORKGROUPS_PER_DIMENSION,
    ensures
        r.0 == spec_step(state, avail_w as int, avail_h as int),
        r.0.width >= 1,
        r.0.height >= 1,
        (r.1 is Skip) <==> spec_skip(state, avail_w as int, avail_h as int),
        r.1 matches FramePlan::Render(p) ==> {
            let f = spec_fitted(state, avail_w as int, avail_h as int);
            &&& p.width == f.0
            &&& p.height == f.1
            &&& p.rebuild == spec_resizes(state, avail_w as int, avail_h as int)
            &&& p.scene_info == spec_scene_info(
                state,
                avail_w as int,
                avail_h as int,
                time_bits,
                seed_bits,
                camera,
                spheres@.len() as u32,
            )
            &&& p.uniform_data@ == scene_info_bytes(p.scene_info)
            &&& p.spheres@ == spheres@
            &&& p.sphere_data@ == spheres_bytes(spheres@)
            &&& p.bytes_per_row == padded_row_stride(8 * f.0, 256)
            &&& p.dispatch == (p.width, p.height, 1u32)
            &&& plan_wf(p)
        },
{
    let (fw, fh) = fit_rect(avail_w, avail_h, state.width, state.height);
    if fw == 0 || fh == 0 {
        (state, FramePlan::Skip)
    } else {
        let rebuild = fw != state.width || fh != state.height;
        let new_count: u32 = if rebuild {
            1
        } else {
            state.frame_count + 1
        };
        let new_state = BundleState {
            width: fw,
            height: fh,
            frame_count: new_count,
            generation: if rebuild {
                state.generation + 1
            } else {
                state.generation
            },
        };
        let scene_info = SceneInfo {
            camera,
            time_bits,
            sphere_count: spheres.len() as u32,
            random_seed_bits: seed_bits,
            frame_count: new_count,
        };
        let uniform_data = scene_info.pack();
        let sphere_list = copy_spheres(spheres);
        let sphere_data = pack_spheres(spheres);
        let bytes_per_row = get_bytes_per_row_from_width(fw);
        let plan = RenderPlan {
            rebuild,
            width: fw,
            height: fh,
            scene_info,
            uniform_data,
            spheres: sphere_list,
            sphere_data,
            bytes_per_row,
            dispatch: (fw, fh, 1),
        };
        (new_state, FramePlan::Render(plan))
    }
}

/// Owns the per-bundle state and the seed source across frames.
pub struct FrameOrchestrator {
    pub state: BundleState,
    pub rng: rand::rngs::ThreadRng,
}

impl FrameOrchestrator {
    /// A fresh orchestrator for an initial render target size. The first
    /// bundle is built for that size; no frame has been displayed.
    pub fn new(width: u32, height: u32) -> (s: FrameOrchestrator)
        requires
            width >= 1,
            height >= 1,
        ensures
            s.state == (BundleState { width, height, frame_count: 0, generation: 0 }),
    {
        FrameOrchestrator {
            state: BundleState { width, height, frame_count: 0, generation: 0 },
            rng: fresh_rng(),
        }
    }

    /// Installs a bundle built for a new size: the generation is renewed,
    /// the progressive counter restarts, and the seed source is kept.
    pub fn rebuild_pipeline(&mut self, width: u32, height: u32)
        requires
            width >= 1,
            height >= 1,
            old(self).state.generation < u64::MAX,
        ensures
            final(self).state == (BundleState {
                width,
                height,
                frame_count: 0,
                generation: (old(self).state.generation + 1) as u64,
            }),
            final(self).rng == old(self).rng,
    {
        self.state = BundleState {
            width,
            height,
            frame_count: 0,
            generation: self.state.generation + 1,
        };
    }

    /// Plans one frame, drawing a fresh sampling seed when the frame is
    /// displayed (a skipped frame consumes none). Apart from the seed,
    /// every field of the plan is pinned by `spec_step`, `spec_fitted` and
    /// `spec_scene_info`.
    pub fn plan_frame(
        &mut self,
        avail_w: u32,
        avail_h: u32,
        time_bits: u32,
        camera: Camera,
        spheres: &Vec<Sphere>,
    ) -> (plan: FramePlan)
        requires
            old(self).state.width >= 1,
            old(self).state.height >= 1,
            old(self).state.frame_count < u32::MAX,
            old(self).state.generation < u64::MAX,
            spheres@.len() <= MAX_SPHERES,
            avail_w <= MAX_WORKGROUPS_PER_DIMENSION,
            avail_h <= MAX_WORKGROUPS_PER_DIMENSION,
        ensures
            final(self).state == spec_step(old(self).state, avail_w as int, avail_h as int),
            (plan is Skip) <==> spec_skip(old(self).state, avail_w as int, avail_h as int),
            plan matches FramePlan::Render(p) ==> {
                let f = spec_fitted(old(self).state, avail_w as int, avail_h as int);
                &&& p.width == f.0
                &&& p.height == f.1
                &&& p.rebuild == spec_resizes(old(self).state, avail_w as int, avail_h as int)
                &&& p.scene_info.random_seed_bits < SEED_BITS_LIMIT
                &&& p.scene_info == spec_scene_info(
                    old(self).state,
                    avail_w as int,
                    avail_h as int,
                    time_bits,
                    p.scene_info.random_seed_bits,
                    camera,
                    spheres@.len() as u32,
                )
                &&& p.uniform_data@ == scene_info_bytes(p.scene_info)
                &&& p.spheres@ == spheres@
                &&& p.sphere_data@ == spheres_bytes(spheres@)
                &&& p.bytes_per_row == padded_row_stride(8 * f.0, 256)
                &&& p.dispatch == (p.width, p.height, 1u32)
                &&& plan_wf(p)
            },
    {
        let (fw, fh) = fit_rect(avail_w, avail_h, self.state.width, self.state.height);
        if fw == 0 || fh == 0 {
            // A skipped frame does no work and draws no seed.
            FramePlan::Skip
        } else {
            let seed_bits = draw_seed_bits(&mut self.rng);
            let (new_state, plan) = plan_frame_seeded(
                self.state,
                avail_w,
                avail_h,
                time_bits,
                seed_bits,
                camera,
                spheres,
            );
            self.state = new_state;
            plan
        }
    }
}

/// Law of the progressive frame counter: a displayed frame advances it by
/// exactly one; a resize-triggered rebuild restarts it, so the frame that
/// rebuilds displays as frame one; a skipped frame leaves all state as it
/// was. The bundle generation is renewed exactly on a resize.
pub proof fn lemma_frame_counter(s: BundleState, aw: int, ah: int)
    ensures
        spec_skip(s, aw, ah) ==> spec_step(s, aw, ah) == s,
        spec_resizes(s, aw, ah) ==> spec_step(s, aw, ah).frame_count == 1
            && spec_step(s, aw, ah).generation == (s.generation + 1) as u64,
        !spec_skip(s, aw, ah) && !spec_resizes(s, aw, ah) ==> spec_step(s, aw, ah).frame_count
            == (s.frame_count + 1) as u32 && spec_step(s, aw, ah).generation == s.generation,
{
}

/// A frame's kernel inputs are independent of bundle identity: two states
/// that agree on size and frame counter — for instance before and after a
/// rebuild at an unchanged size — fit the same draw rectangle and, with the
/// time and seed pinned, upload byte-identical uniforms, so the rendered
/// pixels are identical too.
pub proof fn lemma_output_independent_of_generation(
    s1: BundleState,
    s2: BundleState,
    aw: int,
    ah: int,
    time_bits: u32,
    seed_bits: u32,
    camera: Camera,
    sphere_count: u32,
)
    requires
        s1.width == s2.width,
        s1.height == s2.height,
        s1.frame_count == s2.frame_count,
    ensures
        spec_fitted(s1, aw, ah) == spec_fitted(s2, aw, ah),
        spec_skip(s1, aw, ah) == spec_skip(s2, aw, ah),
        spec_resizes(s1, aw, ah) == spec_resizes(s2, aw, ah),
        spec_step(s1, aw, ah).frame_count == spec_step(s2, aw, ah).frame_count,
        spec_scene_info(s1, aw, ah, time_bits, seed_bits, camera, sphere_count)
            == spec_scene_info(s2, aw, ah, time_bits, seed_bits, camera, sphere_count),
        scene_info_bytes(spec_scene_info(s1, aw, ah, time_bits, seed_bits, camera, sphere_count))
            == scene_info_bytes(
            spec_scene_info(s2, aw, ah, time_bits, seed_bits, camera, sphere_count),
        ),
{
}

} // verus!
