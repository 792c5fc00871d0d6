//! The "player shoots at a rotating enemy" demo.
//!
//! One-shot startup systems create the camera, the materials, the player and
//! the enemy; three per-frame systems then rotate the enemy by a fixed step,
//! spawn one bullet per enemy at the enemy's current transform, and advance
//! every bullet along its facing direction.
//!
//! The facing direction of a freshly fired bullet is the enemy's local "up"
//! axis turned by the enemy's current rotation. Computing that vector from
//! the angle is trigonometry on the host's floating-point side, so
//! `spawn_bullets` takes the per-enemy directions ready-made, one per enemy,
//! and the contracts pin everything else exactly. Nothing ever rotates a
//! bullet after it is fired, so the direction stored at firing time is the
//! bullet's current facing direction for the rest of its life.

use crate::color::{hex, valid_hex_rgb, Color, Rgb};
use crate::geom::{vec3_add, vec3_sum_fits, Vec2, Vec3, MILLIS_PER_UNIT};
use crate::world::{camera_entity, entity_wf, Assets, Body, BodyKind, Entity, Marker, Transform, Visual, World};
use vstd::prelude::*;

verus! {

/// The fixed per-frame rotation step composed onto each enemy's rotation:
/// −0.1 radians about the Z axis, i.e. −100 milliradians.
pub const ROTATE_STEP_MILLIRADS: i64 = -100;

/// The player sprite is 10 by 10 world units.
pub const PLAYER_SIZE_MILLI: i64 = 10 * MILLIS_PER_UNIT;

/// Half the player sprite size, the player collider's half-extent.
pub const PLAYER_HALF_MILLI: i64 = 5 * MILLIS_PER_UNIT;

/// The enemy sprite is 50 by 50 world units.
pub const ENEMY_SIZE_MILLI: i64 = 50 * MILLIS_PER_UNIT;

/// The enemy starts 300 world units above the origin.
pub const ENEMY_START_Y_MILLI: i64 = 300 * MILLIS_PER_UNIT;

/// A bullet sprite is 10 by 10 world units.
pub const BULLET_SIZE_MILLI: i64 = 10 * MILLIS_PER_UNIT;

/// Half the bullet sprite size, a bullet collider's half-extent.
pub const BULLET_HALF_MILLI: i64 = 5 * MILLIS_PER_UNIT;

/// Handles to the three flat fill materials of this demo.
#[derive(Clone, Copy, Debug, PartialEq, Eq)]
pub struct Materials {
    pub player: usize,
    pub bullet: usize,
    pub enemy: usize,
}

/// The player's fill color: 0.7/0.7/0.7.
pub open spec fn player_color() -> Color {
    Color { red_milli: 700, green_milli: 700, blue_milli: 700 }
}

/// The bullets' fill color: 0.2/0.7/0.7.
pub open spec fn bullet_color() -> Color {
    Color { red_milli: 200, green_milli: 700, blue_milli: 700 }
}

/// The enemy's fill color: 0.2/0.3/0.7.
pub open spec fn enemy_color() -> Color {
    Color { red_milli: 200, green_milli: 300, blue_milli: 700 }
}

/// The player: a 10 by 10 unit sprite at the origin, with a velocity-driven
/// kinematic body, a matching box collider, and rotation locked.
pub open spec fn player_entity(material: usize) -> Entity {
    Entity {
        marker: Marker::Player,
        transform: Transform { translation: Vec3 { x: 0, y: 0, z: 0 }, rot_z_millirads: 0 },
        visual: Some(
            Visual {
                material,
                size: Vec2 { x: PLAYER_SIZE_MILLI, y: PLAYER_SIZE_MILLI },
            },
        ),
        body: Some(
            Body {
                kind: BodyKind::KinematicVelocityBased,
                half_extents: Vec2 { x: PLAYER_HALF_MILLI, y: PLAYER_HALF_MILLI },
            },
        ),
        rotation_locked: true,
    }
}

/// The enemy: a 50 by 50 unit sprite at (0, 300, 0), unrotated, with no
/// physics body.
pub open spec fn enemy_entity(material: usize) -> Entity {
    Entity {
        marker: Marker::Enemy,
        transform: Transform {
            translation: Vec3 { x: 0, y: ENEMY_START_Y_MILLI, z: 0 },
            rot_z_millirads: 0,
        },
        visual: Some(
            Visual {
                material,
                size: Vec2 { x: ENEMY_SIZE_MILLI, y: ENEMY_SIZE_MILLI },
            },
        ),
        body: None,
        rotation_locked: false,
    }
}

/// A bullet: a 10 by 10 unit sprite carrying its firing transform, a sensor
/// body with a matching box collider, and the facing direction it advances
/// along each frame.
pub open spec fn bullet_entity(transform: Transform, dir: Vec3, material: usize) -> Entity {
    Entity {
        marker: Marker::Bullet { dir },
        transform,
        visual: Some(
            Visual {
                material,
                size: Vec2 { x: BULLET_SIZE_MILLI, y: BULLET_SIZE_MILLI },
            },
        ),
        body: Some(
            Body {
                kind: BodyKind::Sensor,
                half_extents: Vec2 { x: BULLET_HALF_MILLI, y: BULLET_HALF_MILLI },
            },
        ),
        rotation_locked: false,
    }
}

/// Law: every entity this demo spawns has its collider sized to its sprite —
/// on each axis the collision half-extents are exactly half the sprite size.
pub proof fn lemma_spawned_entities_wf(material: usize, transform: Transform, dir: Vec3)
    ensures
        entity_wf(camera_entity()),
        entity_wf(player_entity(material)),
        entity_wf(enemy_entity(material)),
        entity_wf(bullet_entity(transform, dir, material)),
{
}

/// The window clear color: hex `"212738"`, which the verified parser is
/// proven to accept.
pub fn clear_color() -> (c: Rgb)
    ensures
        c == (Rgb { red: 0x21, green: 0x27, blue: 0x38 }),
{
    let r = hex("212738");
    proof {
        reveal_strlit("212738");
        assert(valid_hex_rgb("212738"@));
    }
    r.unwrap()
}

/// One-shot startup system: spawns the 2D camera and creates the three flat
/// fill materials, returning their handles.
pub fn setup(world: &mut World, assets: &mut Assets) -> (m: Materials)
    ensures
        final(world).entities@ == old(world).entities@.push(camera_entity()),
        final(assets).colors@ == old(assets).colors@ + seq![
            player_color(),
            bullet_color(),
            enemy_color(),
        ],
        m.player == old(assets).colors@.len(),
        m.bullet == old(assets).colors@.len() + 1,
        m.enemy == old(assets).colors@.len() + 2,
        old(world).wf() ==> final(world).wf(),
{
    world.entities.push(
        Entity {
            marker: Marker::Camera,
            transform: Transform { translation: Vec3 { x: 0, y: 0, z: 0 }, rot_z_millirads: 0 },
            visual: None,
            body: None,
            rotation_locked: false,
        },
    );
    let player = assets.add(Color::rgb_milli(700, 700, 700));
    let bullet = assets.add(Color::rgb_milli(200, 700, 700));
    let enemy = assets.add(Color::rgb_milli(200, 300, 700));
    proof {
        assert(assets.colors@ =~= old(assets).colors@ + seq![
            player_color(),
            bullet_color(),
            enemy_color(),
        ]);
        if old(world).wf() {
            assert forall|i: int| 0 <= i < world.entities@.len() implies entity_wf(
                #[trigger] world.entities@[i],
            ) by {
                if i < old(world).entities@.len() {
                    assert(world.entities@[i] == old(world).entities@[i]);
                }
            }
        }
    }
    Materials { player, bullet, enemy }
}

/// One-shot startup system: spawns the player entity.
pub fn add_player(world: &mut World, materials: &Materials)
    ensures
        final(world).entities@ == old(world).entities@.push(player_entity(materials.player)),
        old(world).wf() ==> final(world).wf(),
{
    let size = Vec2 { x: PLAYER_SIZE_MILLI, y: PLAYER_SIZE_MILLI };
    world.entities.push(
        Entity {
            marker: Marker::Player,
            transform: Transform { translation: Vec3 { x: 0, y: 0, z: 0 }, rot_z_millirads: 0 },
            visual: Some(Visual { material: materials.player, size }),
            body: Some(
                Body {
                    kind: BodyKind::KinematicVelocityBased,
                    half_extents: Vec2 { x: PLAYER_HALF_MILLI, y: PLAYER_HALF_MILLI },
                },
            ),
            rotation_locked: true,
        },
    );
    proof {
        if old(world).wf() {
            assert forall|i: int| 0 <= i < world.entities@.len() implies entity_wf(
                #[trigger] world.entities@[i],
            ) by {
                if i < old(world).entities@.len() {
                    assert(world.entities@[i] == old(world).entities@[i]);
                }
            }
        }
    }
}

/// One-shot startup system: spawns the enemy entity.
pub fn add_enemy(world: &mut World, materials: &Materials)
    ensures
        final(world).entities@ == old(world).entities@.push(enemy_entity(materials.enemy)),
        old(world).wf() ==> final(world).wf(),
{
    let size = Vec2 { x: ENEMY_SIZE_MILLI, y: ENEMY_SIZE_MILLI };
    world.entities.push(
        Entity {
            marker: Marker::Enemy,
            transform: Transform {
                translation: Vec3 { x: 0, y: ENEMY_START_Y_MILLI, z: 0 },
                rot_z_millirads: 0,
            },
            visual: Some(Visual { material: materials.enemy, size }),
            body: None,
            rotation_locked: false,
        },
    );
    proof {
        if old(world).wf() {
            assert forall|i: int| 0 <= i < world.entities@.len() implies entity_wf(
                #[trigger] world.entities@[i],
            ) by {
                if i < old(world).entities@.len() {
                    assert(world.entities@[i] == old(world).entities@[i]);
                }
            }
        }
    }
}

/// The enemy's rotation can take one more step without leaving the machine
/// range.
pub open spec fn can_rotate(e: Entity) -> bool {
    e.marker is Enemy ==> i64::MIN <= e.transform.rot_z_millirads + ROTATE_STEP_MILLIRADS
        <= i64::MAX
}

/// What one frame of `rotate_enemy` does to one entity: an enemy's rotation
/// is composed with the fixed −0.1 rad Z step; every other component, and
/// every non-enemy entity, is unchanged.
pub open spec fn rotated(e: Entity) -> Entity {
    if e.marker is Enemy {
        Entity {
            transform: Transform {
                rot_z_millirads: (e.transform.rot_z_millirads + ROTATE_STEP_MILLIRADS) as i64,
                ..e.transform
            },
            ..e
        }
    } else {
        e
    }
}

/// Per-frame system: composes the fixed −0.1 radian Z step onto the rotation
/// of every enemy; nothing else changes.
pub fn rotate_enemy(world: &mut World)
    requires
        forall|i: int|
            0 <= i < old(world).entities@.len() ==> can_rotate(#[trigger] old(world).entities@[i]),
    ensures
        final(world).entities@.len() == old(world).entities@.len(),
        forall|i: int|
            0 <= i < old(world).entities@.len() ==> final(world).entities@[i] == rotated(
                #[trigger] old(world).entities@[i],
            ),
        old(world).wf() ==> final(world).wf(),
{
    let n = world.entities.len();
    for idx in 0..n
        invariant
            n == old(world).entities@.len(),
            world.entities@.len() == n,
            forall|i: int|
                0 <= i < n ==> can_rotate(#[trigger] old(world).entities@[i]),
            forall|i: int|
                0 <= i < idx ==> world.entities@[i] == rotated(#[trigger] old(world).entities@[i]),
            forall|i: int| idx <= i < n ==> world.entities@[i] == old(world).entities@[i],
    {
        let e = world.entities[idx];
        match e.marker {
            Marker::Enemy => {
                let t = Transform {
                    translation: e.transform.translation,
                    rot_z_millirads: e.transform.rot_z_millirads + ROTATE_STEP_MILLIRADS,
                };
                world.entities.set(idx, Entity { transform: t, ..e });
            },
            _ => {},
        }
    }
    proof {
        if old(world).wf() {
            assert forall|i: int| 0 <= i < world.entities@.len() implies entity_wf(
                #[trigger] world.entities@[i],
            ) by {
                assert(entity_wf(old(world).entities@[i]));
            }
        }
    }
}

/// How many enemies are among the entities.
pub open spec fn enemy_count(s: Seq<Entity>) -> nat
    decreases s.len(),
{
    if s.len() == 0 {
        0
    } else {
        enemy_count(s.drop_last()) + if s.last().marker is Enemy {
            1nat
        } else {
            0nat
        }
    }
}

/// The enemies among the entities, in creation order.
pub open spec fn enemies(s: Seq<Entity>) -> Seq<Entity>
    decreases s.len(),
{
    if s.len() == 0 {
        Seq::empty()
    } else {
        enemies(s.drop_last()) + if s.last().marker is Enemy {
            seq![s.last()]
        } else {
            Seq::empty()
        }
    }
}

/// The bullets one `spawn_bullets` call creates: one per enemy, in enemy
/// order, the k-th at the k-th enemy's current transform, fired along the
/// k-th direction.
pub open spec fn bullets_for(s: Seq<Entity>, dirs: Seq<Vec3>, material: usize) -> Seq<Entity>
    decreases s.len(),
{
    if s.len() == 0 {
        Seq::empty()
    } else {
        bullets_for(s.drop_last(), dirs, material) + if s.last().marker is Enemy {
            seq![
                bullet_entity(
                    s.last().transform,
                    dirs[enemy_count(s.drop_last()) as int],
                    material,
                ),
            ]
        } else {
            Seq::empty()
        }
    }
}

/// Taking a prefix of the entities cannot increase the enemy count.
pub proof fn lemma_enemy_count_take_le(s: Seq<Entity>, i: int)
    requires
        0 <= i <= s.len(),
    ensures
        enemy_count(s.take(i)) <= enemy_count(s),
    decreases s.len() - i,
{
    if i == s.len() {
        assert(s.take(i) =~= s);
    } else {
        lemma_enemy_count_take_le(s, i + 1);
        assert(s.take(i + 1).drop_last() =~= s.take(i));
        assert(s.take(i + 1).last() == s[i]);
    }
}

/// Law: with N enemies among the entities, `spawn_bullets` creates exactly N
/// new bullet entities, and the k-th of them is a bullet placed at the k-th
/// enemy's current transform, fired along the k-th direction.
pub proof fn lemma_bullets_match_enemies(s: Seq<Entity>, dirs: Seq<Vec3>, material: usize)
    ensures
        enemies(s).len() == enemy_count(s),
        bullets_for(s, dirs, material).len() == enemy_count(s),
        forall|k: int| 0 <= k < enemy_count(s) ==> (#[trigger] enemies(s)[k]).marker is Enemy,
        forall|k: int|
            0 <= k < enemy_count(s) ==> bullets_for(s, dirs, material)[k] == bullet_entity(
                enemies(s)[k].transform,
                dirs[k],
                material,
            ),
    decreases s.len(),
{
    if s.len() == 0 {
    } else {
        let dl = s.drop_last();
        lemma_bullets_match_enemies(dl, dirs, material);
        if s.last().marker is Enemy {
            assert forall|k: int| 0 <= k < enemy_count(s) implies bullets_for(s, dirs, material)[k]
                == bullet_entity(enemies(s)[k].transform, dirs[k], material) by {
                if k < enemy_count(dl) {
                    assert(bullets_for(s, dirs, material)[k] == bullets_for(dl, dirs, material)[k]);
                    assert(enemies(s)[k] == enemies(dl)[k]);
                } else {
                    assert(bullets_for(s, dirs, material)[k] == bullet_entity(
                        s.last().transform,
                        dirs[enemy_count(dl) as int],
                        material,
                    ));
                    assert(enemies(s)[k] == s.last());
                }
            }
        } else {
            assert(bullets_for(s, dirs, material) =~= bullets_for(dl, dirs, material));
            assert(enemies(s) =~= enemies(dl));
        }
    }
}

/// Per-frame system: spawns one new bullet per enemy, placed at that enemy's
/// current transform and fired along the matching entry of `dirs` (one
/// facing direction per enemy, in enemy order). Nothing else changes.
pub fn spawn_bullets(world: &mut World, materials: &Materials, dirs: &Vec<Vec3>)
    requires
        dirs@.len() == enemy_count(old(world).entities@),
    ensures
        final(world).entities@ == old(world).entities@ + bullets_for(
            old(world).entities@,
            dirs@,
            materials.bullet,
        ),
        old(world).wf() ==> final(world).wf(),
{
    let n = world.entities.len();
    let dir_count = dirs.len();
    let mut fired: usize = 0;
    for idx in 0..n
        invariant
            n == old(world).entities@.len(),
            dir_count == dirs@.len(),
            dirs@.len() == enemy_count(old(world).entities@),
            fired == enemy_count(old(world).entities@.take(idx as int)),
            world.entities@ == old(world).entities@ + bullets_for(
                old(world).entities@.take(idx as int),
                dirs@,
                materials.bullet,
            ),
    {
        proof {
            assert(old(world).entities@.take(idx as int + 1).drop_last() =~= old(
                world,
            ).entities@.take(idx as int));
            assert(old(world).entities@.take(idx as int + 1).last() == old(
                world,
            ).entities@[idx as int]);
            assert(world.entities@[idx as int] == old(world).entities@[idx as int]);
        }
        let e = world.entities[idx];
        match e.marker {
            Marker::Enemy => {
                proof {
                    lemma_enemy_count_take_le(old(world).entities@, idx as int + 1);
                    assert(enemy_count(old(world).entities@.take(idx as int + 1)) == fired + 1);
                    assert(fired + 1 <= dirs@.len());
                }
                let dir = dirs[fired];
                world.entities.push(
                    Entity {
                        marker: Marker::Bullet { dir },
                        transform: e.transform,
                        visual: Some(
                            Visual {
                                material: materials.bullet,
                                size: Vec2 { x: BULLET_SIZE_MILLI, y: BULLET_SIZE_MILLI },
                            },
                        ),
                        body: Some(
                            Body {
                                kind: BodyKind::Sensor,
                                half_extents: Vec2 { x: BULLET_HALF_MILLI, y: BULLET_HALF_MILLI },
                            },
                        ),
                        rotation_locked: false,
                    },
                );
                fired = fired + 1;
                proof {
                    assert(world.entities@ =~= old(world).entities@ + bullets_for(
                        old(world).entities@.take(idx as int + 1),
                        dirs@,
                        materials.bullet,
                    ));
                }
            },
            _ => {
                proof {
                    assert(bullets_for(
                        old(world).entities@.take(idx as int + 1),
                        dirs@,
                        materials.bullet,
                    ) =~= bullets_for(
                        old(world).entities@.take(idx as int),
                        dirs@,
                        materials.bullet,
                    ));
                }
            },
        }
    }
    proof {
        assert(old(world).entities@.take(n as int) =~= old(world).entities@);
        if old(world).wf() {
            lemma_bullets_match_enemies(old(world).entities@, dirs@, materials.bullet);
            assert forall|i: int| 0 <= i < world.entities@.len() implies entity_wf(
                #[trigger] world.entities@[i],
            ) by {
                if i < old(world).entities@.len() {
                    assert(world.entities@[i] == old(world).entities@[i]);
                } else {
                    let bullets = bullets_for(old(world).entities@, dirs@, materials.bullet);
                    assert(world.entities@[i] == bullets[i - old(world).entities@.len()]);
                }
            }
        }
    }
}

/// The bullet can take one more step along its facing direction without
/// leaving the machine range.
pub open spec fn can_step(e: Entity) -> bool {
    e.marker matches Marker::Bullet { dir } ==> vec3_sum_fits(e.transform.translation, dir)
}

/// What one frame of `move_bullets` does to one entity: a bullet's position
/// advances by its facing direction; every other component, and every
/// non-bullet entity, is unchanged.
pub open spec fn stepped(e: Entity) -> Entity {
    match e.marker {
        Marker::Bullet { dir } => Entity {
            transform: Transform {
                translation: Vec3 {
                    x: (e.transform.translation.x + dir.x) as i64,
                    y: (e.transform.translation.y + dir.y) as i64,
                    z: (e.transform.translation.z + dir.z) as i64,
                },
                ..e.transform
            },
            ..e
        },
        _ => e,
    }
}

/// Per-frame system: advances every bullet from its position P by its facing
/// direction D to exactly P + D; nothing else changes.
pub fn move_bullets(world: &mut World)
    requires
        forall|i: int|
            0 <= i < old(world).entities@.len() ==> can_step(#[trigger] old(world).entities@[i]),
    ensures
        final(world).entities@.len() == old(world).entities@.len(),
        forall|i: int|
            0 <= i < old(world).entities@.len() ==> final(world).entities@[i] == stepped(
                #[trigger] old(world).entities@[i],
            ),
        old(world).wf() ==> final(world).wf(),
{
    let n = world.entities.len();
    for idx in 0..n
        invariant
            n == old(world).entities@.len(),
            world.entities@.len() == n,
            forall|i: int|
                0 <= i < n ==> can_step(#[trigger] old(world).entities@[i]),
            forall|i: int|
                0 <= i < idx ==> world.entities@[i] == stepped(#[trigger] old(world).entities@[i]),
            forall|i: int| idx <= i < n ==> world.entities@[i] == old(world).entities@[i],
    {
        let e = world.entities[idx];
        match e.marker {
            Marker::Bullet { dir } => {
                let t = Transform {
                    translation: vec3_add(e.transform.translation, dir),
                    rot_z_millirads: e.transform.rot_z_millirads,
                };
                world.entities.set(idx, Entity { transform: t, ..e });
            },
            _ => {},
        }
    }
    proof {
        if old(world).wf() {
            assert forall|i: int| 0 <= i < world.entities@.len() implies entity_wf(
                #[trigger] world.entities@[i],
            ) by {
                assert(entity_wf(old(world).entities@[i]));
            }
        }
    }
}

} // verus!
