//! Scenario checks of the follow controller: the single-step behaviour, the
//! per-frame system over the registry, and the shared last-target behaviour
//! with several followers.

use follow_cam::follow::{follow_step, FollowSystem};
use follow_cam::vec3::Vec3;
use follow_cam::world::{Transform, World};

fn plain_transform(pos: Vec3) -> Transform {
    Transform {
        pos,
        facing: Vec3 { x: 0, y: 0, z: -1_000 },
        scale: Vec3 { x: 1_000, y: 1_000, z: 1_000 },
    }
}

/// Target at (5, 30, 5), camera at (0, 10, 300), a tenth of a second: the
/// camera advances 2 world units along the direction vector, its height
/// snaps to 45, the lateral drift shifts it one unit, and it faces the
/// target again.
#[test]
fn chase_step_scenario() {
    let cam = plain_transform(Vec3 { x: 0, y: 10_000, z: 300_000 });
    let target = Vec3 { x: 5_000, y: 30_000, z: 5_000 };
    let stepped = follow_step(&cam, &target, 100);
    // Direction (5000, 20000, -295000) has truncated-root length 295719; the
    // 2000-sub-unit advance splits into (33, 135, -1995), the height lock
    // overrides y, and the drift moves 1000 along local negative X.
    assert_eq!(stepped.pos, Vec3 { x: -967, y: 45_000, z: 298_005 });
    assert_eq!(stepped.facing, Vec3 { x: 5_967, y: -15_000, z: -293_005 });
    assert_eq!(stepped.scale, cam.scale);
}

/// Within the dead zone the distance step contributes nothing: only the
/// drift and the height lock act.
#[test]
fn dead_zone_no_chase_motion() {
    let cam = plain_transform(Vec3 { x: 0, y: 0, z: 0 });
    let target = Vec3 { x: 10_000, y: 2_000, z: 0 };
    let stepped = follow_step(&cam, &target, 100);
    assert_eq!(stepped.pos, Vec3 { x: -1_000, y: 17_000, z: 0 });
}

/// The final height is the target's plus 15 world units, whatever the
/// camera's height before.
#[test]
fn height_locks_to_target() {
    for prior_y in [-900_000, 0, 123_456, 900_000] {
        let cam = plain_transform(Vec3 { x: 0, y: prior_y, z: 0 });
        let target = Vec3 { x: 1_000, y: 2_000, z: 3_000 };
        let stepped = follow_step(&cam, &target, 16);
        assert_eq!(stepped.pos.y, 17_000);
    }
}

/// The lateral drift of 10 units per second is applied whether or not the
/// chase step ran.
#[test]
fn drift_applied_regardless_of_distance() {
    // Far away: x combines the chase component (33) with the drift (-1000).
    let far = plain_transform(Vec3 { x: 0, y: 10_000, z: 300_000 });
    let far_stepped = follow_step(&far, &Vec3 { x: 5_000, y: 30_000, z: 5_000 }, 100);
    assert_eq!(far_stepped.pos.x, 0 + 33 - 1_000);
    // Close by: x moves by the drift alone.
    let near = plain_transform(Vec3 { x: 0, y: 0, z: 0 });
    let near_stepped = follow_step(&near, &Vec3 { x: 1_000, y: 0, z: 0 }, 100);
    assert_eq!(near_stepped.pos.x, -1_000);
}

/// A camera converged into the dead zone with a stationary target keeps a
/// bounded, drift-only lateral change on repeated updates.
#[test]
fn converged_updates_drift_only() {
    let target = Vec3 { x: 0, y: 0, z: 0 };
    let mut cam = plain_transform(Vec3 { x: 2_000, y: 15_000, z: 0 });
    for _ in 0..5 {
        let before = cam.pos;
        cam = follow_step(&cam, &target, 100);
        let dx = cam.pos.x - before.x;
        let dz = cam.pos.z - before.z;
        assert!(dx.abs() <= 1_000);
        assert!(dz.abs() <= 1_000);
        assert_eq!(cam.pos.y, 15_000);
    }
}

fn spawn_at(world: &mut World, pos: Vec3) -> usize {
    let e = world.create_entity();
    let mut t = world.transform_of(e).unwrap();
    t.pos = pos;
    assert!(world.set_transform(e, t));
    e
}

/// Before any target has been observed, the first frame trails the world
/// origin.
#[test]
fn first_frame_trails_origin() {
    let mut world = World::new();
    let target = spawn_at(&mut world, Vec3 { x: 100_000, y: 50_000, z: 0 });
    let cam = spawn_at(&mut world, Vec3 { x: 0, y: 0, z: 200_000 });
    assert!(world.add_camera(cam));
    assert!(world.add_follow(cam, target));

    let mut sys = FollowSystem::new();
    assert_eq!(sys.observed_target(), None);
    sys.run(&mut world, 100);

    // The origin is 200 units away, so the camera chased it: z shrank by the
    // 2000-sub-unit step, and the height locked to 0 + 15.
    let moved = world.transform_of(cam).unwrap();
    assert_eq!(moved.pos, Vec3 { x: -1_000, y: 15_000, z: 198_000 });
    assert_eq!(sys.observed_target(), Some(target));
}

/// Destroying the remembered target makes the next frame a checked no-op
/// that clears the stale reference.
#[test]
fn stale_target_skips_frame_and_clears() {
    let mut world = World::new();
    let target = spawn_at(&mut world, Vec3 { x: 100_000, y: 0, z: 0 });
    let cam = spawn_at(&mut world, Vec3 { x: 0, y: 0, z: 200_000 });
    assert!(world.add_camera(cam));
    assert!(world.add_follow(cam, target));

    let mut sys = FollowSystem::new();
    sys.run(&mut world, 100);
    assert_eq!(sys.observed_target(), Some(target));

    let before = world.transform_of(cam).unwrap();
    assert!(world.destroy(target));
    sys.run(&mut world, 100);
    assert_eq!(world.transform_of(cam).unwrap(), before);
    assert_eq!(sys.observed_target(), None);
}

/// Two cameras following two different targets in the same frame: every
/// follower trails the one shared remembered target, so the second
/// follower's target from the previous frame drives the first camera too.
#[test]
fn shared_target_leaks_across_followers() {
    let mut world = World::new();
    let target_a = spawn_at(&mut world, Vec3 { x: 100_000, y: 40_000, z: 0 });
    let target_b = spawn_at(&mut world, Vec3 { x: 0, y: 80_000, z: 100_000 });
    let cam_a = spawn_at(&mut world, Vec3 { x: 0, y: 0, z: 0 });
    let cam_b = spawn_at(&mut world, Vec3 { x: 0, y: 0, z: 0 });
    assert!(world.add_camera(cam_a));
    assert!(world.add_follow(cam_a, target_a));
    assert!(world.add_camera(cam_b));
    assert!(world.add_follow(cam_b, target_b));

    let mut sys = FollowSystem::new();
    // First frame: nothing observed yet, both trail the origin; afterwards
    // the remembered target is the last follower's.
    sys.run(&mut world, 100);
    assert_eq!(sys.observed_target(), Some(target_b));
    assert_eq!(
        world.transform_of(cam_a).unwrap().pos,
        Vec3 { x: -1_000, y: 15_000, z: 0 }
    );

    // Second frame: camera A trails target B's position, not its own
    // target's -- its height locks to 80 + 15, where its own target would
    // give 40 + 15.
    sys.run(&mut world, 100);
    let leaked = world.transform_of(cam_a).unwrap().pos;
    assert_eq!(leaked, Vec3 { x: -984, y: 95_000, z: 676 });
    assert_eq!(world.transform_of(cam_b).unwrap().pos, leaked);
}

/// A camera whose coordinates are outside the controller's working range is
/// left untouched for the frame.
#[test]
fn out_of_range_camera_untouched() {
    let mut world = World::new();
    let target = spawn_at(&mut world, Vec3 { x: 0, y: 0, z: 0 });
    let cam = spawn_at(&mut world, Vec3 { x: 2_000_000_000, y: 0, z: 0 });
    assert!(world.add_camera(cam));
    assert!(world.add_follow(cam, target));

    let before = world.transform_of(cam).unwrap();
    let mut sys = FollowSystem::new();
    sys.run(&mut world, 100);
    assert_eq!(world.transform_of(cam).unwrap(), before);
}

/// Entities without the camera tag or the follow relation never move.
#[test]
fn non_followers_never_move() {
    let mut world = World::new();
    let target = spawn_at(&mut world, Vec3 { x: 100_000, y: 0, z: 0 });
    let bystander = spawn_at(&mut world, Vec3 { x: 7, y: 8, z: 9 });
    let camera_only = spawn_at(&mut world, Vec3 { x: 1, y: 2, z: 3 });
    assert!(world.add_camera(camera_only));

    let mut sys = FollowSystem::new();
    sys.run(&mut world, 100);
    assert_eq!(
        world.transform_of(target).unwrap().pos,
        Vec3 { x: 100_000, y: 0, z: 0 }
    );
    assert_eq!(
        world.transform_of(bystander).unwrap().pos,
        Vec3 { x: 7, y: 8, z: 9 }
    );
    assert_eq!(
        world.transform_of(camera_only).unwrap().pos,
        Vec3 { x: 1, y: 2, z: 3 }
    );
}
