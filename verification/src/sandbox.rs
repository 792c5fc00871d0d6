//! The "stack blocks on a static ground" physics sandbox demo.
//!
//! Startup systems create the camera, two flat fill materials, and then a
//! dynamic block above a static ground. The demo registers no per-frame
//! systems of its own: once spawned, the entities are simulated entirely by
//! the host physics engine. (The demo's own gravity setting is disabled, so
//! the engine's default gravity is in force; nothing to model there.)

use crate::color::Color;
use crate::geom::{Vec2, Vec3, MILLIS_PER_UNIT};
use crate::world::{camera_entity, entity_wf, Assets, Body, BodyKind, Entity, Marker, Transform,
    Visual, World};
use vstd::prelude::*;

verus! {

/// The ground sprite is 500 world units wide.
pub const GROUND_WIDTH_MILLI: i64 = 500 * MILLIS_PER_UNIT;

/// The ground sprite is 50 world units tall.
pub const GROUND_HEIGHT_MILLI: i64 = 50 * MILLIS_PER_UNIT;

/// Half the ground sprite width, the ground collider's horizontal half-extent.
pub const GROUND_HALF_WIDTH_MILLI: i64 = 250 * MILLIS_PER_UNIT;

/// Half the ground sprite height, the ground collider's vertical half-extent.
pub const GROUND_HALF_HEIGHT_MILLI: i64 = 25 * MILLIS_PER_UNIT;

/// The ground sits 300 world units below the origin.
pub const GROUND_Y_MILLI: i64 = -300 * MILLIS_PER_UNIT;

/// Handles to the two flat fill materials of this demo.
#[derive(Clone, Copy, Debug, PartialEq, Eq)]
pub struct SandboxMaterials {
    pub block: usize,
    pub ground: usize,
}

/// The ground: a 500 by 50 unit sprite at (0, −300, 0), with an immovable
/// static body and a matching box collider.
pub open spec fn ground_entity(material: usize) -> Entity {
    Entity {
        marker: Marker::Ground,
        transform: Transform {
            translation: Vec3 { x: 0, y: GROUND_Y_MILLI, z: 0 },
            rot_z_millirads: 0,
        },
        visual: Some(
            Visual {
                material,
                size: Vec2 { x: GROUND_WIDTH_MILLI, y: GROUND_HEIGHT_MILLI },
            },
        ),
        body: Some(
            Body {
                kind: BodyKind::Static,
                half_extents: Vec2 { x: GROUND_HALF_WIDTH_MILLI, y: GROUND_HALF_HEIGHT_MILLI },
            },
        ),
        rotation_locked: false,
    }
}

/// A block of the given sprite size at the given position: a fully simulated
/// dynamic body with a box collider matching the sprite.
pub open spec fn block_entity(material: usize, size: Vec2, position: Vec3) -> Entity {
    Entity {
        marker: Marker::Block,
        transform: Transform { translation: position, rot_z_millirads: 0 },
        visual: Some(Visual { material, size }),
        body: Some(
            Body {
                kind: BodyKind::Dynamic,
                half_extents: Vec2 { x: (size.x / 2) as i64, y: (size.y / 2) as i64 },
            },
        ),
        rotation_locked: false,
    }
}

/// Law: both sandbox entities have their colliders sized to their sprites —
/// on each axis the collision half-extents are exactly half the sprite size.
pub proof fn lemma_sandbox_entities_wf(material: usize, size: Vec2, position: Vec3)
    requires
        0 <= size.x,
        0 <= size.y,
        size.x % 2 == 0,
        size.y % 2 == 0,
    ensures
        entity_wf(ground_entity(material)),
        entity_wf(block_entity(material, size, position)),
{
}

/// One-shot startup system: spawns the 2D camera and creates the two flat
/// fill materials from the given colors, returning their handles.
pub fn setup(world: &mut World, assets: &mut Assets, block_color: Color, ground_color: Color) -> (m:
    SandboxMaterials)
    ensures
        final(world).entities@ == old(world).entities@.push(camera_entity()),
        final(assets).colors@ == old(assets).colors@ + seq![block_color, ground_color],
        m.block == old(assets).colors@.len(),
        m.ground == old(assets).colors@.len() + 1,
        old(world).wf() ==> final(world).wf(),
{
    world.entities.push(
        Entity {
            marker: Marker::Camera,
            transform: Transform { translation: Vec3 { x: 0, y: 0, z: 0 }, rot_z_millirads: 0 },
            visual: None,
            body: None,
            rotation_locked: false,
        },
    );
    let block = assets.add(block_color);
    let ground = assets.add(ground_color);
    proof {
        assert(assets.colors@ =~= old(assets).colors@ + seq![block_color, ground_color]);
        if old(world).wf() {
            assert forall|i: int| 0 <= i < world.entities@.len() implies entity_wf(
                #[trigger] world.entities@[i],
            ) by {
                if i < old(world).entities@.len() {
                    assert(world.entities@[i] == old(world).entities@[i]);
                }
            }
        }
    }
    SandboxMaterials { block, ground }
}

/// One-shot startup system: spawns the static ground entity.
pub fn spawn_ground(world: &mut World, materials: &SandboxMaterials)
    ensures
        final(world).entities@ == old(world).entities@.push(ground_entity(materials.ground)),
        old(world).wf() ==> final(world).wf(),
{
    world.entities.push(
        Entity {
            marker: Marker::Ground,
            transform: Transform {
                translation: Vec3 { x: 0, y: GROUND_Y_MILLI, z: 0 },
                rot_z_millirads: 0,
            },
            visual: Some(
                Visual {
                    material: materials.ground,
                    size: Vec2 { x: GROUND_WIDTH_MILLI, y: GROUND_HEIGHT_MILLI },
                },
            ),
            body: Some(
                Body {
                    kind: BodyKind::Static,
                    half_extents: Vec2 {
                        x: GROUND_HALF_WIDTH_MILLI,
                        y: GROUND_HALF_HEIGHT_MILLI,
                    },
                },
            ),
            rotation_locked: false,
        },
    );
    proof {
        if old(world).wf() {
            assert forall|i: int| 0 <= i < world.entities@.len() implies entity_wf(
                #[trigger] world.entities@[i],
            ) by {
                if i < old(world).entities@.len() {
                    assert(world.entities@[i] == old(world).entities@[i]);
                }
            }
        }
    }
}

/// One-shot startup system: spawns a dynamic block of the given sprite size
/// at the given position. The size must be even on each axis so that the
/// collider half-extents are exactly half the sprite size.
pub fn spawn_block(world: &mut World, materials: &SandboxMaterials, size: Vec2, position: Vec3)
    requires
        0 <= size.x,
        0 <= size.y,
        size.x % 2 == 0,
        size.y % 2 == 0,
    ensures
        final(world).entities@ == old(world).entities@.push(
            block_entity(materials.block, size, position),
        ),
        old(world).wf() ==> final(world).wf(),
{
    world.entities.push(
        Entity {
            marker: Marker::Block,
            transform: Transform { translation: position, rot_z_millirads: 0 },
            visual: Some(Visual { material: materials.block, size }),
            body: Some(
                Body {
                    kind: BodyKind::Dynamic,
                    half_extents: Vec2 { x: size.x / 2, y: size.y / 2 },
                },
            ),
            rotation_locked: false,
        },
    );
    proof {
        if old(world).wf() {
            lemma_sandbox_entities_wf(materials.block, size, position);
            assert forall|i: int| 0 <= i < world.entities@.len() implies entity_wf(
                #[trigger] world.entities@[i],
            ) by {
                if i < old(world).entities@.len() {
                    assert(world.entities@[i] == old(world).entities@[i]);
                }
            }
        }
    }
}

} // verus!
