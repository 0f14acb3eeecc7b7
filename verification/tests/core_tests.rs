use raytracer_core::export::export_pixels;
use raytracer_core::fit::fit_rect;
use raytracer_core::frame::BundleState;
use raytracer_core::frame::FrameOrchestrator;
use raytracer_core::frame::FramePlan;
use raytracer_core::frame::check_plan;
use raytracer_core::frame::plan_frame_seeded;
use raytracer_core::layout::accumulation_dimensions;
use raytracer_core::layout::BufferDimensions;
use raytracer_core::layout::get_bytes_per_row_from_width;
use raytracer_core::pipeline::accumulation_buffer_size;
use raytracer_core::pipeline::compute_bind_group_layout;
use raytracer_core::pipeline::compute_entry_point;
use raytracer_core::pipeline::fragment_entry_point;
use raytracer_core::pipeline::quad_vertex_count;
use raytracer_core::pipeline::scene_info_buffer_size;
use raytracer_core::pipeline::screen_bind_group_layout;
use raytracer_core::pipeline::sphere_buffer_size;
use raytracer_core::pipeline::vertex_entry_point;
use raytracer_core::pipeline::BindingKind;
use raytracer_core::rng::seed_bits_from_word;
use raytracer_core::scene::pack_spheres;
use raytracer_core::scene::Camera;
use raytracer_core::scene::Material;
use raytracer_core::scene::SceneInfo;
use raytracer_core::scene::Sphere;
use raytracer_core::scene::Vec3;

fn v3(x: f32, y: f32, z: f32) -> Vec3 {
    Vec3 { x_bits: x.to_bits(), y_bits: y.to_bits(), z_bits: z.to_bits() }
}

/// The four-sphere scene the example app renders.
fn four_spheres() -> Vec<Sphere> {
    let mirror = |albedo: f32| Material { albedo: v3(albedo, albedo, albedo), is_mirror: 1 };
    let matte = |r: f32, g: f32, b: f32| Material { albedo: v3(r, g, b), is_mirror: 0 };
    vec![
        Sphere { position: v3(10.0, 0.0, 1.0), radius_bits: 1.0f32.to_bits(), mat: mirror(0.87) },
        Sphere { position: v3(7.3, -1.2, 1.02), radius_bits: 1.0f32.to_bits(), mat: mirror(0.87) },
        Sphere {
            position: v3(9.0, 2.2, 1.03),
            radius_bits: 1.0f32.to_bits(),
            mat: matte(0.97, 0.97, 0.97),
        },
        Sphere {
            position: v3(10.0, 0.0, 102.0),
            radius_bits: 100.0f32.to_bits(),
            mat: matte(1.0, 0.5, 0.5),
        },
    ]
}

fn camera() -> Camera {
    Camera { position: v3(2.0, 0.0, 0.0) }
}

#[test]
fn padded_stride_is_aligned_and_covers_row() {
    // A sample of widths, both aligned and not.
    for w in [1u32, 2, 31, 32, 33, 100, 640, 799, 800, 1920, 4096] {
        let stride = get_bytes_per_row_from_width(w);
        assert_eq!(stride % 256, 0);
        assert!(8 * w <= stride);
        assert!(stride < 8 * w + 256);
    }
    assert_eq!(get_bytes_per_row_from_width(800), 6400);
    assert_eq!(get_bytes_per_row_from_width(1), 256);
    assert_eq!(get_bytes_per_row_from_width(32), 256);
    assert_eq!(get_bytes_per_row_from_width(33), 512);
}

#[test]
fn buffer_dimensions_round_up() {
    let d = BufferDimensions::new(100, 50);
    assert_eq!(d.width, 100);
    assert_eq!(d.height, 50);
    assert_eq!(d.unpadded_bytes_per_row, 1600);
    assert_eq!(d.padded_bytes_per_row, 1792);
    assert_eq!(d.padded_bytes_per_row % 256, 0);

    // Already aligned: no padding is added.
    let d2 = BufferDimensions::new(16, 4);
    assert_eq!(d2.unpadded_bytes_per_row, 256);
    assert_eq!(d2.padded_bytes_per_row, 256);
}

#[test]
fn fitted_rect_stays_inside_and_keeps_aspect() {
    // Wide area, square target: fit to height.
    let r = fit_rect(640, 480, 800, 800);
    assert_eq!(r, (480, 480));
    // Tall enough area: fit to width.
    let r2 = fit_rect(1000, 480, 800, 400);
    assert_eq!(r2, (960, 480));
    // Containment and aspect tolerance over a grid of cases.
    for (aw, ah, tw, th) in [
        (640u32, 480u32, 800u32, 800u32),
        (1, 1, 800, 800),
        (123, 457, 799, 801),
        (1920, 1080, 640, 480),
        (3, 999, 1000, 7),
    ] {
        let (fw, fh) = fit_rect(aw, ah, tw, th);
        assert!(fw <= aw && fh <= ah);
        let a = fw as u64 * th as u64;
        let b = fh as u64 * tw as u64;
        assert!(a < b + tw as u64);
        assert!(b < a + th as u64);
    }
}

#[test]
fn fit_degenerate_area_is_zero() {
    let r = fit_rect(0, 480, 800, 800);
    assert_eq!(r.0, 0);
    let r2 = fit_rect(480, 0, 800, 800);
    assert_eq!(r2.1, 0);
}

#[test]
fn scene_info_packs_to_exact_kernel_layout() {
    let s = SceneInfo {
        camera: Camera { position: v3(2.0, 0.0, 0.0) },
        time_bits: 0x01020304,
        sphere_count: 4,
        random_seed_bits: 0x3F000000,
        frame_count: 2,
    };
    let b = s.pack();
    let expected: Vec<u8> = vec![
        0x00, 0x00, 0x00, 0x40, // camera.position.x == 2.0
        0x00, 0x00, 0x00, 0x00, // camera.position.y
        0x00, 0x00, 0x00, 0x00, // camera.position.z
        0x00, 0x00, 0x00, 0x00, // camera padding
        0x04, 0x03, 0x02, 0x01, // time
        0x04, 0x00, 0x00, 0x00, // sphere_count
        0x00, 0x00, 0x00, 0x3F, // random_seed
        0x02, 0x00, 0x00, 0x00, // frame_count
    ];
    assert_eq!(b, expected);
}

#[test]
fn sphere_records_pack_back_to_back() {
    let spheres = four_spheres();
    let b = pack_spheres(&spheres);
    assert_eq!(b.len(), 4 * 32);
    // First record: position (10, 0, 1), radius 1, albedo 0.87 grey, mirror.
    let mut expected: Vec<u8> = Vec::new();
    for f in [10.0f32, 0.0, 1.0, 1.0, 0.87, 0.87, 0.87] {
        expected.extend_from_slice(&f.to_bits().to_le_bytes());
    }
    expected.extend_from_slice(&1u32.to_le_bytes());
    assert_eq!(&b[0..32], &expected[..]);
    // Last record starts at offset 96: position (10, 0, 102), radius 100.
    assert_eq!(&b[96..100], &10.0f32.to_bits().to_le_bytes());
    assert_eq!(&b[108..112], &100.0f32.to_bits().to_le_bytes());
    assert_eq!(&b[124..128], &0u32.to_le_bytes());
}

#[test]
fn seed_encoding_matches_float_division() {
    for n in [
        0u32, 0xFF, 0x100, 0x101, 0x12345678, 0x80000000, 0xFFFFFFFF, 0x00FF00FF, 0x7F000000,
    ] {
        let m = n >> 8;
        let reference = (m as f32 / 16777216.0f32).to_bits();
        assert_eq!(seed_bits_from_word(n), reference, "word {n:#x}");
        assert!(seed_bits_from_word(n) < 1.0f32.to_bits());
    }
}

#[test]
fn three_frames_count_one_two_three() {
    let spheres = four_spheres();
    let mut orch = FrameOrchestrator::new(800, 800);
    let mut counts: Vec<u32> = Vec::new();
    let mut seeds: Vec<u32> = Vec::new();
    for frame in 0..3u32 {
        let time = (frame as f32) * 0.016;
        match orch.plan_frame(800, 800, time.to_bits(), camera(), &spheres) {
            FramePlan::Render(p) => {
                counts.push(p.scene_info.frame_count);
                seeds.push(p.scene_info.random_seed_bits);
                assert!(!p.rebuild);
                assert_eq!(p.scene_info.sphere_count, 4);
                assert_eq!(p.dispatch, (800, 800, 1));
                assert_eq!(p.bytes_per_row, 6400);
                assert_eq!(p.uniform_data.len(), 32);
                assert_eq!(p.sphere_data.len(), 128);
            }
            FramePlan::Skip => panic!("frame unexpectedly skipped"),
        }
    }
    assert_eq!(counts, vec![1, 2, 3]);
    assert!(seeds[0] != seeds[1] && seeds[1] != seeds[2] && seeds[0] != seeds[2]);
}

#[test]
fn resize_restarts_frame_count() {
    let spheres = four_spheres();
    let mut orch = FrameOrchestrator::new(800, 800);
    for _ in 0..2 {
        match orch.plan_frame(800, 800, 0, camera(), &spheres) {
            FramePlan::Render(_) => {}
            FramePlan::Skip => panic!("frame unexpectedly skipped"),
        }
    }
    assert_eq!(orch.state.frame_count, 2);
    // The host resizes the session to 640x480: the rebuild installs a new
    // bundle and the next displayed frame counts from one again.
    orch.rebuild_pipeline(640, 480);
    assert_eq!(orch.state.frame_count, 0);
    assert_eq!(orch.state.generation, 1);
    match orch.plan_frame(640, 480, 0, camera(), &spheres) {
        FramePlan::Render(p) => {
            assert!(!p.rebuild);
            assert_eq!(p.scene_info.frame_count, 1);
            assert_eq!((p.width, p.height), (640, 480));
        }
        FramePlan::Skip => panic!("frame unexpectedly skipped"),
    }
}

#[test]
fn shrinking_area_triggers_rebuild_and_reset() {
    let spheres = four_spheres();
    let mut orch = FrameOrchestrator::new(800, 800);
    for _ in 0..2 {
        match orch.plan_frame(800, 800, 0, camera(), &spheres) {
            FramePlan::Render(_) => {}
            FramePlan::Skip => panic!("frame unexpectedly skipped"),
        }
    }
    match orch.plan_frame(640, 480, 0, camera(), &spheres) {
        FramePlan::Render(p) => {
            assert!(p.rebuild);
            assert_eq!((p.width, p.height), (480, 480));
            assert_eq!(p.scene_info.frame_count, 1);
        }
        FramePlan::Skip => panic!("frame unexpectedly skipped"),
    }
    assert_eq!(orch.state.generation, 1);
    assert_eq!(orch.state.frame_count, 1);
}

#[test]
fn degenerate_area_skips_and_keeps_state() {
    let spheres = four_spheres();
    let mut orch = FrameOrchestrator::new(800, 800);
    match orch.plan_frame(800, 800, 0, camera(), &spheres) {
        FramePlan::Render(_) => {}
        FramePlan::Skip => panic!("frame unexpectedly skipped"),
    }
    let before = orch.state;
    match orch.plan_frame(0, 600, 0, camera(), &spheres) {
        FramePlan::Skip => {}
        FramePlan::Render(_) => panic!("degenerate frame was not skipped"),
    }
    assert_eq!(orch.state, before);
}

#[test]
fn rebuild_at_same_size_changes_identity_not_output() {
    let spheres = four_spheres();
    let s1 = BundleState { width: 800, height: 800, frame_count: 5, generation: 0 };
    // The same state after a rebuild at the unchanged size, with the frame
    // counter pinned.
    let s2 = BundleState { width: 800, height: 800, frame_count: 5, generation: 3 };
    let seed = 0x3E000000u32;
    let time = 0x3D800000u32;
    let (n1, p1) = plan_frame_seeded(s1, 800, 800, time, seed, camera(), &spheres);
    let (n2, p2) = plan_frame_seeded(s2, 800, 800, time, seed, camera(), &spheres);
    assert_ne!(n1.generation, n2.generation);
    match (p1, p2) {
        (FramePlan::Render(a), FramePlan::Render(b)) => {
            assert_eq!(a.uniform_data, b.uniform_data);
            assert_eq!(a.sphere_data, b.sphere_data);
            assert_eq!(a.bytes_per_row, b.bytes_per_row);
            assert_eq!(a.dispatch, b.dispatch);
        }
        _ => panic!("frame unexpectedly skipped"),
    }
}

#[test]
fn export_strips_row_padding_exactly() {
    // A 1x2 image of 16-byte pixels: each padded row is 256 bytes, the
    // pixels sit at the start of each row.
    let d = BufferDimensions::new(1, 2);
    assert_eq!(d.padded_bytes_per_row, 256);
    let mut data = vec![0u8; 512];
    for i in 0..16 {
        data[i] = i as u8 + 1;
        data[256 + i] = i as u8 + 101;
    }
    // Padding bytes hold garbage: it must not leak into the image.
    data[16] = 0xEE;
    data[511] = 0xEE;
    let img = export_pixels(&data, &d).expect("full mapped range must export");
    assert_eq!(img.len(), 32);
    for i in 0..16 {
        assert_eq!(img[i], i as u8 + 1);
        assert_eq!(img[16 + i], i as u8 + 101);
    }
}

#[test]
fn export_of_incomplete_mapping_produces_no_image() {
    let d = BufferDimensions::new(1, 2);
    let data = vec![0u8; 511];
    assert!(export_pixels(&data, &d).is_none());
    let data2 = vec![0u8; 513];
    assert!(export_pixels(&data2, &d).is_none());
}

#[test]
fn render_cycle_then_export_round_trips() {
    // One prepare/paint cycle at a fixed seed, then an export: the image has
    // the frame's dimensions and exactly the rows the kernel wrote.
    let spheres = four_spheres();
    let st = BundleState { width: 2, height: 2, frame_count: 0, generation: 0 };
    let (ns, plan) = plan_frame_seeded(st, 2, 2, 0, 0x3E000000, camera(), &spheres);
    let p = match plan {
        FramePlan::Render(p) => p,
        FramePlan::Skip => panic!("frame unexpectedly skipped"),
    };
    assert_eq!((p.width, p.height), (2, 2));
    assert_eq!(ns.frame_count, 1);
    // The accumulation buffer after the frame's copy: each texture row of
    // 16 bytes (2 pixels of 8 bytes) lands at the padded stride.
    let d = accumulation_dimensions(p.width, p.height);
    assert_eq!(d.padded_bytes_per_row, p.bytes_per_row as usize);
    assert_eq!(d.unpadded_bytes_per_row, 16);
    let row0: Vec<u8> = (0..16).collect();
    let row1: Vec<u8> = (16..32).collect();
    let mut acc = vec![0u8; 256 * 2];
    acc[..16].copy_from_slice(&row0);
    acc[256..272].copy_from_slice(&row1);
    let img = export_pixels(&acc, &d).expect("full mapped range must export");
    assert_eq!(img.len(), 32);
    assert_eq!(&img[..16], &row0[..]);
    assert_eq!(&img[16..], &row1[..]);
}

#[test]
fn pipeline_configuration_is_fixed() {
    let compute = compute_bind_group_layout();
    assert_eq!(compute.len(), 4);
    assert_eq!(compute[0].kind, BindingKind::StorageTexture);
    assert_eq!(compute[1].kind, BindingKind::UniformBuffer);
    assert_eq!(compute[2].kind, BindingKind::StorageBuffer);
    assert_eq!(compute[3].kind, BindingKind::StorageBuffer);
    for (i, b) in compute.iter().enumerate() {
        assert_eq!(b.binding, i as u32);
    }
    let screen = screen_bind_group_layout();
    assert_eq!(screen.len(), 2);
    assert_eq!(screen[0].kind, BindingKind::FilteringSampler);
    assert_eq!(screen[1].kind, BindingKind::SampledTexture);
    assert_eq!(compute_entry_point(), "main");
    assert_eq!(vertex_entry_point(), "vert_main");
    assert_eq!(fragment_entry_point(), "frag_main");
    assert_eq!(quad_vertex_count(), 6);
    assert_eq!(scene_info_buffer_size(), 32);
    assert_eq!(sphere_buffer_size(), 512);
    assert_eq!(accumulation_buffer_size(800, 800), 6400 * 800);
    assert_eq!(accumulation_buffer_size(1, 1), 256);
}

#[test]
fn planned_frames_pass_the_plan_gate() {
    let spheres = four_spheres();
    let st = BundleState { width: 800, height: 800, frame_count: 0, generation: 0 };
    let (_, plan) = plan_frame_seeded(st, 800, 800, 7, 9, camera(), &spheres);
    let mut p = match plan {
        FramePlan::Render(p) => p,
        FramePlan::Skip => panic!("frame unexpectedly skipped"),
    };
    assert!(check_plan(&p));
    // Any incoherence is rejected: a wrong dispatch extent, a wrong stride,
    // a corrupted uniform byte, a count that does not match the records.
    let good_dispatch = p.dispatch;
    p.dispatch = (p.width, p.height + 1, 1);
    assert!(!check_plan(&p));
    p.dispatch = good_dispatch;
    p.bytes_per_row += 256;
    assert!(!check_plan(&p));
    p.bytes_per_row -= 256;
    p.uniform_data[16] ^= 1;
    assert!(!check_plan(&p));
    p.uniform_data[16] ^= 1;
    // A corrupted sphere payload of unchanged length is rejected: the
    // bytes must be the packed records the plan carries.
    p.sphere_data[5] ^= 1;
    assert!(!check_plan(&p));
    p.sphere_data[5] ^= 1;
    p.scene_info.sphere_count += 1;
    assert!(!check_plan(&p));
    p.scene_info.sphere_count -= 1;
    // A viewport axis beyond the device's dispatch limit is rejected.
    let good_width = p.width;
    p.width = 65536;
    assert!(!check_plan(&p));
    p.width = good_width;
    // More records than the sphere buffer holds are rejected even when the
    // uniform and the payload agree on the count.
    p.scene_info.sphere_count = 17;
    p.uniform_data = p.scene_info.pack();
    p.sphere_data = vec![0u8; 17 * 32];
    assert!(!check_plan(&p));
}

#[test]
fn default_scene_info_is_all_zero() {
    let s = SceneInfo::default();
    assert_eq!(s.pack(), vec![0u8; 32]);
    assert_eq!(s.sphere_count, 0);
    assert_eq!(s.frame_count, 0);
}
