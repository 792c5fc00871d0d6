//! The entity/world model shared by both demos.
//!
//! The host engine owns real entities; this model records exactly the
//! components the demos attach to them: a marker, a transform, optionally a
//! sprite, optionally a physics body with a box collider, and whether the
//! body's rotation is locked.

use crate::color::Color;
use crate::geom::{Vec2, Vec3};
use vstd::prelude::*;

verus! {

/// How an entity responds to the physics simulation.
#[derive(Clone, Copy, Debug, PartialEq, Eq)]
pub enum BodyKind {
    /// Immovable.
    Static,
    /// Fully simulated: moved by forces and collisions.
    Dynamic,
    /// Moved by explicit velocity, not by forces.
    KinematicVelocityBased,
    /// Detects overlap without physical response.
    Sensor,
}

/// What an entity is. A bullet carries the facing direction it was fired
/// with; it advances by that direction once per frame.
#[derive(Clone, Copy, Debug, PartialEq, Eq)]
pub enum Marker {
    Camera,
    Player,
    Enemy,
    Bullet { dir: Vec3 },
    Ground,
    Block,
}

/// Position and rotation of an entity. Only rotations about the Z axis
/// occur in these demos, and Z rotations compose by adding their angles, so
/// a rotation is stored as the accumulated signed Z angle in milliradians.
#[derive(Clone, Copy, Debug, PartialEq, Eq)]
pub struct Transform {
    pub translation: Vec3,
    pub rot_z_millirads: i64,
}

impl Transform {
    /// An unrotated transform at the given position.
    pub fn at(translation: Vec3) -> (t: Transform)
        ensures
            t == (Transform { translation, rot_z_millirads: 0 }),
    {
        Transform { translation, rot_z_millirads: 0 }
    }
}

/// A sprite: a handle to a flat fill material, and the sprite size.
#[derive(Clone, Copy, Debug, PartialEq, Eq)]
pub struct Visual {
    pub material: usize,
    pub size: Vec2,
}

/// A physics body: its kind, and the half-extents of its box collider.
#[derive(Clone, Copy, Debug, PartialEq, Eq)]
pub struct Body {
    pub kind: BodyKind,
    pub half_extents: Vec2,
}

/// One entity: the components attached to it.
#[derive(Clone, Copy, Debug, PartialEq, Eq)]
pub struct Entity {
    pub marker: Marker,
    pub transform: Transform,
    pub visual: Option<Visual>,
    pub body: Option<Body>,
    pub rotation_locked: bool,
}

/// An entity that shows a sprite and carries a collider has the collider
/// sized to the sprite: on each axis the half-extents are exactly half the
/// sprite size.
pub open spec fn entity_wf(e: Entity) -> bool {
    e.visual matches Some(v) ==> (e.body matches Some(b) ==> {
        &&& 2 * b.half_extents.x == v.size.x
        &&& 2 * b.half_extents.y == v.size.y
    })
}

/// The 2D camera entity both demos spawn at startup: no sprite, no body, at
/// the origin.
pub open spec fn camera_entity() -> Entity {
    Entity {
        marker: Marker::Camera,
        transform: Transform { translation: Vec3 { x: 0, y: 0, z: 0 }, rot_z_millirads: 0 },
        visual: None,
        body: None,
        rotation_locked: false,
    }
}

/// The world: every entity created so far, in creation order.
#[derive(Debug, PartialEq, Eq)]
pub struct World {
    pub entities: Vec<Entity>,
}

impl World {
    /// Every entity in the world is well-formed (`entity_wf`).
    pub open spec fn wf(self) -> bool {
        forall|i: int|
            0 <= i < self.entities@.len() ==> entity_wf(#[trigger] self.entities@[i])
    }

    /// An empty world.
    pub fn new() -> (w: World)
        ensures
            w.entities@ == Seq::<Entity>::empty(),
            w.wf(),
    {
        World { entities: Vec::new() }
    }
}

/// The asset table of flat fill materials. A material handle is an index
/// into this table.
#[derive(Debug, PartialEq, Eq)]
pub struct Assets {
    pub colors: Vec<Color>,
}

impl Assets {
    /// An empty asset table.
    pub fn new() -> (a: Assets)
        ensures
            a.colors@ == Seq::<Color>::empty(),
    {
        Assets { colors: Vec::new() }
    }

    /// Adds a flat color material and returns its handle.
    pub fn add(&mut self, c: Color) -> (h: usize)
        ensures
            final(self).colors@ == old(self).colors@.push(c),
            h == old(self).colors@.len(),
    {
        let h = self.colors.len();
        self.colors.push(c);
        h
    }
}

} // verus!
