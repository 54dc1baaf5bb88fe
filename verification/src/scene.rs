//! The demo scene as data: one sphere, one camera trailing it, one
//! directional light, and the global render colours. The host hands these
//! values to its renderer; the registry and the follow relation live here.

use vstd::prelude::*;

use crate::math::{isqrt, scale_i64, scaled_div, sqrt_floor};
use crate::vec3::{norm2, V3, Vec3};
use crate::world::{Follow, World, FIX_SCALE};

verus! {

/// A colour with per-mille channels: 1000 stands for a full channel.
#[derive(Clone, Copy, Debug, PartialEq, Eq, Structural)]
pub struct Rgba {
    pub r: i64,
    pub g: i64,
    pub b: i64,
    pub a: i64,
}

/// A direction scaled to unit length in fixed-point: each component of `v`
/// multiplied by `FIX_SCALE` and divided by the truncated-root length.
pub open spec fn unit_of(v: V3) -> V3
    recommends
        norm2(v) > 0,
{
    let m = sqrt_floor(norm2(v));
    V3 {
        x: scaled_div(v.x, FIX_SCALE as int, m),
        y: scaled_div(v.y, FIX_SCALE as int, m),
        z: scaled_div(v.z, FIX_SCALE as int, m),
    }
}

/// Scales a nonzero direction to unit length in fixed-point coordinates.
pub fn normalize(v: &Vec3) -> (r: Vec3)
    requires
        crate::follow::coord_ok(v@),
        norm2(v@) > 0,
    ensures
        r@ == unit_of(v@),
{
    let xa: u64 = if v.x >= 0 {
        v.x as u64
    } else {
        (-v.x) as u64
    };
    let ya: u64 = if v.y >= 0 {
        v.y as u64
    } else {
        (-v.y) as u64
    };
    let za: u64 = if v.z >= 0 {
        v.z as u64
    } else {
        (-v.z) as u64
    };
    proof {
        assert((xa as int) * (xa as int) <= 4_000_000_000_000_000_000 && (xa as int) * (xa as int)
            == (v.x as int) * (v.x as int)) by (nonlinear_arith)
            requires
                0 <= xa as int <= 2_000_000_000,
                xa as int == v.x as int || xa as int == -(v.x as int),
        ;
        assert((ya as int) * (ya as int) <= 4_000_000_000_000_000_000 && (ya as int) * (ya as int)
            == (v.y as int) * (v.y as int)) by (nonlinear_arith)
            requires
                0 <= ya as int <= 2_000_000_000,
                ya as int == v.y as int || ya as int == -(v.y as int),
        ;
        assert((za as int) * (za as int) <= 4_000_000_000_000_000_000 && (za as int) * (za as int)
            == (v.z as int) * (v.z as int)) by (nonlinear_arith)
            requires
                0 <= za as int <= 2_000_000_000,
                za as int == v.z as int || za as int == -(v.z as int),
        ;
    }
    let n2: u64 = xa * xa + ya * ya + za * za;
    let m: u64 = isqrt(n2);
    proof {
        assert(m as int >= 1) by (nonlinear_arith)
            requires
                ((m as int) + 1) * ((m as int) + 1) > 1,
                m as int >= 0,
        ;
    }
    Vec3 {
        x: scale_i64(v.x, FIX_SCALE as u64, m),
        y: scale_i64(v.y, FIX_SCALE as u64, m),
        z: scale_i64(v.z, FIX_SCALE as u64, m),
    }
}

/// Everything the host needs to stand the scene up: the populated registry,
/// the three entity handles, projection numbers, and the render colours.
/// Angles are in millidegrees, aspect in thousandths, colours per-mille.
pub struct Scene {
    pub world: World,
    pub sphere: usize,
    pub camera: usize,
    pub light: usize,
    pub sphere_subdiv_u: u32,
    pub sphere_subdiv_v: u32,
    pub sphere_albedo: Rgba,
    pub camera_aspect_milli: i64,
    pub camera_fov_millideg: i64,
    pub light_color: Rgba,
    pub light_direction: Vec3,
    pub ambient: Rgba,
    pub skybox_zenith: Rgba,
    pub skybox_nadir: Rgba,
}

/// Builds the demo scene, once, when it becomes active: a sphere entity
/// scaled three-fold at (5, 30, 5); a camera entity at (0, 10, 300) with a
/// follow relation trailing the sphere and a 60-degree perspective
/// projection; a directional light at (5, 20, 15) shining along the unit
/// direction of (0.7, -1, 0.8); magenta sphere albedo, a dim blue ambient,
/// and a green-over-red skybox.
pub fn init_scene() -> (s: Scene)
    ensures
        s.world@.len() == 3,
        s.sphere == 0 && s.camera == 1 && s.light == 2,
        s.world@[0].alive && !s.world@[0].camera && s.world@[0].follow is None,
        s.world@[0].transform@.pos == (V3 { x: 5_000, y: 30_000, z: 5_000 }),
        s.world@[0].transform@.scale == (V3 { x: 3_000, y: 3_000, z: 3_000 }),
        s.world@[1].alive && s.world@[1].camera,
        s.world@[1].follow == Some(Follow { entity: 0 }),
        s.world@[1].transform@.pos == (V3 { x: 0, y: 10_000, z: 300_000 }),
        s.world@[1].transform@.facing == (V3 { x: 0, y: 0, z: -FIX_SCALE as int }),
        s.world@[1].transform@.scale == (V3 { x: 1_000, y: 1_000, z: 1_000 }),
        s.world@[2].alive && !s.world@[2].camera && s.world@[2].follow is None,
        s.world@[2].transform@.pos == (V3 { x: 5_000, y: 20_000, z: 15_000 }),
        s.world@[2].transform@.scale == (V3 { x: 1_000, y: 1_000, z: 1_000 }),
        s.sphere_subdiv_u == 32 && s.sphere_subdiv_v == 32,
        s.sphere_albedo == (Rgba { r: 1_000, g: 0, b: 1_000, a: 0 }),
        s.camera_aspect_milli == 1_000,
        s.camera_fov_millideg == 60_000,
        s.light_color == (Rgba { r: 400, g: 400, b: 500, a: 1_000 }),
        s.light_direction@ == unit_of(V3 { x: 700, y: -1_000, z: 800 }),
        s.ambient == (Rgba { r: 150, g: 180, b: 350, a: 1_000 }),
        s.skybox_zenith == (Rgba { r: 0, g: 1_000, b: 0, a: 1_000 }),
        s.skybox_nadir == (Rgba { r: 1_000, g: 0, b: 0, a: 1_000 }),
{
    let mut world = World::new();

    let sphere = world.create_entity();
    let mut t = world.slot_at(sphere).transform;
    t.pos = Vec3::new(5_000, 30_000, 5_000);
    t.scale = Vec3::new(3_000, 3_000, 3_000);
    world.set_transform(sphere, t);

    let camera = world.create_entity();
    let mut ct = world.slot_at(camera).transform;
    ct.pos = Vec3::new(0, 10_000, 300_000);
    world.set_transform(camera, ct);
    world.add_camera(camera);
    world.add_follow(camera, sphere);

    let light = world.create_entity();
    let mut lt = world.slot_at(light).transform;
    lt.pos = Vec3::new(5_000, 20_000, 15_000);
    world.set_transform(light, lt);

    let light_direction = normalize(&Vec3::new(700, -1_000, 800));

    Scene {
        world,
        sphere,
        camera,
        light,
        sphere_subdiv_u: 32,
        sphere_subdiv_v: 32,
        sphere_albedo: Rgba { r: 1_000, g: 0, b: 1_000, a: 0 },
        camera_aspect_milli: 1_000,
        camera_fov_millideg: 60_000,
        light_color: Rgba { r: 400, g: 400, b: 500, a: 1_000 },
        light_direction,
        ambient: Rgba { r: 150, g: 180, b: 350, a: 1_000 },
        skybox_zenith: Rgba { r: 0, g: 1_000, b: 0, a: 1_000 },
        skybox_nadir: Rgba { r: 1_000, g: 0, b: 0, a: 1_000 },
    }
}

} // verus!
