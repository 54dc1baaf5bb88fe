//! A data-oriented entity/component registry: entities are indices into a
//! slot table, each slot carrying a transform, a camera tag and an optional
//! follow relation. Every lookup checks that the entity is still alive, so a
//! stale reference is a normal, checked condition.

use vstd::prelude::*;

use crate::vec3::{v3_zero, V3, Vec3};

verus! {

/// An entity handle: an index into the registry's slot table.
pub type Entity = usize;

/// Position, orientation and scale of an entity.
///
/// Orientation is carried as `facing`, the unnormalised direction the entity
/// last looked along; the follow controller rebuilds it from the look target
/// each frame.
#[derive(Clone, Copy, Debug, PartialEq, Eq, Structural)]
pub struct Transform {
    pub pos: Vec3,
    pub facing: Vec3,
    pub scale: Vec3,
}

/// Mathematical view of a `Transform`.
pub struct TransformV {
    pub pos: V3,
    pub facing: V3,
    pub scale: V3,
}

impl View for Transform {
    type V = TransformV;

    open spec fn view(&self) -> TransformV {
        TransformV { pos: self.pos@, facing: self.facing@, scale: self.scale@ }
    }
}

/// Fixed-point sub-units per world unit.
pub const FIX_SCALE: i64 = 1000;

impl Transform {
    /// The identity transform: at the origin, facing along negative Z, unit
    /// scale.
    pub fn identity() -> (t: Transform)
        ensures
            t@.pos == v3_zero(),
            t@.facing == (V3 { x: 0, y: 0, z: -FIX_SCALE as int }),
            t@.scale == (V3 { x: FIX_SCALE as int, y: FIX_SCALE as int, z: FIX_SCALE as int }),
    {
        Transform {
            pos: Vec3::origin(),
            facing: Vec3::new(0, 0, -FIX_SCALE),
            scale: Vec3::new(FIX_SCALE, FIX_SCALE, FIX_SCALE),
        }
    }
}

/// The follow relation: attached to a camera entity, it names the entity the
/// camera should trail. A weak back-reference: the target may have been
/// destroyed, and every dereference checks.
#[derive(Clone, Copy, Debug, PartialEq, Eq, Structural)]
pub struct Follow {
    pub entity: Entity,
}

/// One entry of the registry's slot table.
#[derive(Clone, Copy, Debug)]
pub struct Slot {
    pub alive: bool,
    pub transform: Transform,
    pub camera: bool,
    pub follow: Option<Follow>,
}

/// True of a slot holding a live camera with a follow relation: the slots the
/// follow controller acts on.
pub open spec fn follower(s: Slot) -> bool {
    s.alive && s.camera && s.follow is Some
}

/// The entity a follower slot trails.
pub open spec fn follow_target(s: Slot) -> Entity
    recommends
        s.follow is Some,
{
    s.follow->Some_0.entity
}

/// The entity/component registry.
pub struct World {
    slots: Vec<Slot>,
}

impl View for World {
    type V = Seq<Slot>;

    closed spec fn view(&self) -> Seq<Slot> {
        self.slots@
    }
}

/// True when `e` names a live entity of `w`.
pub open spec fn live(w: Seq<Slot>, e: Entity) -> bool {
    e < w.len() && w[e as int].alive
}

impl World {
    /// An empty registry.
    pub fn new() -> (w: World)
        ensures
            w@.len() == 0,
    {
        World { slots: Vec::new() }
    }

    /// Number of slots ever created (live or not).
    pub fn len(&self) -> (n: usize)
        ensures
            n == self@.len(),
    {
        self.slots.len()
    }

    /// Creates a fresh live entity with an identity transform and no
    /// components, and returns its handle.
    pub fn create_entity(&mut self) -> (e: Entity)
        ensures
            e == old(self)@.len(),
            final(self)@.len() == old(self)@.len() + 1,
            forall|j: int| 0 <= j < old(self)@.len() ==> final(self)@[j] == old(self)@[j],
            final(self)@[e as int].alive,
            !final(self)@[e as int].camera,
            final(self)@[e as int].follow is None,
            final(self)@[e as int].transform@.pos == v3_zero(),
            final(self)@[e as int].transform@.facing == (V3 { x: 0, y: 0, z: -FIX_SCALE as int }),
            final(self)@[e as int].transform@.scale == (V3 {
                x: FIX_SCALE as int,
                y: FIX_SCALE as int,
                z: FIX_SCALE as int,
            }),
    {
        let e = self.slots.len();
        self.slots.push(
            Slot { alive: true, transform: Transform::identity(), camera: false, follow: None },
        );
        e
    }

    /// True when `e` names a live entity.
    pub fn is_alive(&self, e: Entity) -> (b: bool)
        ensures
            b == live(self@, e),
    {
        e < self.slots.len() && self.slots[e].alive
    }

    /// The transform of a live entity; `None` for a dead or unknown handle.
    pub fn transform_of(&self, e: Entity) -> (r: Option<Transform>)
        ensures
            live(self@, e) ==> r == Some(self@[e as int].transform),
            !live(self@, e) ==> r is None,
    {
        if e < self.slots.len() && self.slots[e].alive {
            Some(self.slots[e].transform)
        } else {
            None
        }
    }

    /// Replaces the transform of a live entity; reports whether it did.
    pub fn set_transform(&mut self, e: Entity, t: Transform) -> (ok: bool)
        ensures
            ok == live(old(self)@, e),
            ok ==> final(self)@ == old(self)@.update(
                e as int,
                (Slot { transform: t, ..old(self)@[e as int] }),
            ),
            !ok ==> final(self)@ == old(self)@,
    {
        if e < self.slots.len() && self.slots[e].alive {
            let s = self.slots[e];
            self.slots.set(e, Slot { transform: t, ..s });
            true
        } else {
            false
        }
    }

    /// Tags a live entity as a camera; reports whether it did.
    pub fn add_camera(&mut self, e: Entity) -> (ok: bool)
        ensures
            ok == live(old(self)@, e),
            ok ==> final(self)@ == old(self)@.update(
                e as int,
                (Slot { camera: true, ..old(self)@[e as int] }),
            ),
            !ok ==> final(self)@ == old(self)@,
    {
        if e < self.slots.len() && self.slots[e].alive {
            let s = self.slots[e];
            self.slots.set(e, Slot { camera: true, ..s });
            true
        } else {
            false
        }
    }

    /// Attaches a follow relation trailing `target` to a live entity;
    /// reports whether it did. At most one target per camera: a second call
    /// replaces the first.
    pub fn add_follow(&mut self, e: Entity, target: Entity) -> (ok: bool)
        ensures
            ok == live(old(self)@, e),
            ok ==> final(self)@ == old(self)@.update(
                e as int,
                (Slot { follow: Some(Follow { entity: target }), ..old(self)@[e as int] }),
            ),
            !ok ==> final(self)@ == old(self)@,
    {
        if e < self.slots.len() && self.slots[e].alive {
            let s = self.slots[e];
            self.slots.set(e, Slot { follow: Some(Follow { entity: target }), ..s });
            true
        } else {
            false
        }
    }

    /// Destroys a live entity, leaving its slot dead; reports whether it did.
    pub fn destroy(&mut self, e: Entity) -> (ok: bool)
        ensures
            ok == live(old(self)@, e),
            ok ==> final(self)@ == old(self)@.update(
                e as int,
                (Slot { alive: false, ..old(self)@[e as int] }),
            ),
            !ok ==> final(self)@ == old(self)@,
    {
        if e < self.slots.len() && self.slots[e].alive {
            let s = self.slots[e];
            self.slots.set(e, Slot { alive: false, ..s });
            true
        } else {
            false
        }
    }

    /// Reads the slot at index `i`.
    pub fn slot_at(&self, i: usize) -> (s: Slot)
        requires
            i < self@.len(),
        ensures
            s == self@[i as int],
    {
        self.slots[i]
    }
}

} // verus!
