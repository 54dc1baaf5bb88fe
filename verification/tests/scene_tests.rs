//! Checks of the one-time scene setup: entity handles, transforms, the
//! projection numbers, the light, and the global colours.

use follow_cam::scene::{init_scene, normalize, Rgba};
use follow_cam::vec3::Vec3;
use follow_cam::world::Follow;

#[test]
fn scene_entities_and_transforms() {
    let s = init_scene();
    assert_eq!(s.world.len(), 3);
    assert_eq!((s.sphere, s.camera, s.light), (0, 1, 2));

    let sphere = s.world.transform_of(s.sphere).unwrap();
    assert_eq!(sphere.pos, Vec3 { x: 5_000, y: 30_000, z: 5_000 });
    assert_eq!(sphere.scale, Vec3 { x: 3_000, y: 3_000, z: 3_000 });

    let camera = s.world.transform_of(s.camera).unwrap();
    assert_eq!(camera.pos, Vec3 { x: 0, y: 10_000, z: 300_000 });
    // The camera keeps the default orientation and unit scale it was
    // created with.
    assert_eq!(camera.facing, Vec3 { x: 0, y: 0, z: -1_000 });
    assert_eq!(camera.scale, Vec3 { x: 1_000, y: 1_000, z: 1_000 });

    let light = s.world.transform_of(s.light).unwrap();
    assert_eq!(light.pos, Vec3 { x: 5_000, y: 20_000, z: 15_000 });
    assert_eq!(light.scale, Vec3 { x: 1_000, y: 1_000, z: 1_000 });
}

#[test]
fn scene_camera_follows_sphere() {
    let s = init_scene();
    assert!(s.world.is_alive(s.camera));
    let slot = s.world.slot_at(s.camera);
    assert!(slot.camera);
    assert_eq!(slot.follow, Some(Follow { entity: s.sphere }));
    // The sphere and the light are not cameras and follow nothing.
    assert!(!s.world.slot_at(s.sphere).camera);
    assert_eq!(s.world.slot_at(s.sphere).follow, None);
    assert!(!s.world.slot_at(s.light).camera);
    assert_eq!(s.world.slot_at(s.light).follow, None);
}

#[test]
fn scene_projection_and_mesh_numbers() {
    let s = init_scene();
    assert_eq!(s.camera_aspect_milli, 1_000);
    assert_eq!(s.camera_fov_millideg, 60_000);
    assert_eq!((s.sphere_subdiv_u, s.sphere_subdiv_v), (32, 32));
}

#[test]
fn scene_colours() {
    let s = init_scene();
    assert_eq!(s.sphere_albedo, Rgba { r: 1_000, g: 0, b: 1_000, a: 0 });
    assert_eq!(s.ambient, Rgba { r: 150, g: 180, b: 350, a: 1_000 });
    assert_eq!(s.skybox_zenith, Rgba { r: 0, g: 1_000, b: 0, a: 1_000 });
    assert_eq!(s.skybox_nadir, Rgba { r: 1_000, g: 0, b: 0, a: 1_000 });
    assert_eq!(s.light_color, Rgba { r: 400, g: 400, b: 500, a: 1_000 });
}

#[test]
fn scene_light_direction_is_unit() {
    let s = init_scene();
    // (0.7, -1, 0.8) has squared length 2.13, truncated-root 1459 in
    // sub-units, so the unit direction truncates to (0.479, -0.685, 0.548).
    assert_eq!(s.light_direction, Vec3 { x: 479, y: -685, z: 548 });
}

#[test]
fn normalize_scales_to_unit_length() {
    assert_eq!(
        normalize(&Vec3 { x: 0, y: 0, z: -500 }),
        Vec3 { x: 0, y: 0, z: -1_000 }
    );
    assert_eq!(
        normalize(&Vec3 { x: 3_000, y: 4_000, z: 0 }),
        Vec3 { x: 600, y: 800, z: 0 }
    );
}
