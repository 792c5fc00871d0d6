use gameworld::color::Color;
use gameworld::geom::{Vec2, Vec3, MILLIS_PER_UNIT};
use gameworld::sandbox::{setup, spawn_block, spawn_ground, SandboxMaterials};
use gameworld::world::{Assets, BodyKind, Marker, World};

fn sandbox_world() -> (World, Assets, SandboxMaterials) {
    let mut world = World::new();
    let mut assets = Assets::new();
    let block_color = Color::rgb_milli(800, 700, 600);
    let ground_color = Color::rgb_milli(100, 400, 100);
    let materials = setup(&mut world, &mut assets, block_color, ground_color);
    (world, assets, materials)
}

#[test]
fn sandbox_setup_spawns_camera_and_two_materials() {
    let (world, assets, materials) = sandbox_world();
    assert_eq!(world.entities.len(), 1);
    assert_eq!(world.entities[0].marker, Marker::Camera);
    assert_eq!(assets.colors.len(), 2);
    assert_eq!(assets.colors[0], Color::rgb_milli(800, 700, 600));
    assert_eq!(assets.colors[1], Color::rgb_milli(100, 400, 100));
    assert_eq!(materials.block, 0);
    assert_eq!(materials.ground, 1);
}

#[test]
fn ground_spawns_static_at_minus_three_hundred() {
    let (mut world, _assets, materials) = sandbox_world();
    spawn_ground(&mut world, &materials);
    let ground = world.entities[1];
    assert_eq!(ground.marker, Marker::Ground);
    assert_eq!(ground.transform.translation, Vec3 { x: 0, y: -300 * MILLIS_PER_UNIT, z: 0 });
    assert_eq!(ground.transform.rot_z_millirads, 0);
    let visual = ground.visual.unwrap();
    let body = ground.body.unwrap();
    assert_eq!(visual.material, materials.ground);
    assert_eq!(visual.size, Vec2 { x: 500 * MILLIS_PER_UNIT, y: 50 * MILLIS_PER_UNIT });
    assert_eq!(body.kind, BodyKind::Static);
    assert_eq!(body.half_extents, Vec2 { x: 250 * MILLIS_PER_UNIT, y: 25 * MILLIS_PER_UNIT });
    assert_eq!(2 * body.half_extents.x, visual.size.x);
    assert_eq!(2 * body.half_extents.y, visual.size.y);
}

#[test]
fn block_spawns_dynamic_with_half_extent_collider() {
    let (mut world, _assets, materials) = sandbox_world();
    let size = Vec2 { x: 30 * MILLIS_PER_UNIT, y: 30 * MILLIS_PER_UNIT };
    let position = Vec3 { x: 0, y: 200 * MILLIS_PER_UNIT, z: 0 };
    spawn_block(&mut world, &materials, size, position);
    let block = world.entities[1];
    assert_eq!(block.marker, Marker::Block);
    assert_eq!(block.transform.translation, position);
    let visual = block.visual.unwrap();
    let body = block.body.unwrap();
    assert_eq!(visual.material, materials.block);
    assert_eq!(visual.size, size);
    assert_eq!(body.kind, BodyKind::Dynamic);
    assert_eq!(2 * body.half_extents.x, size.x);
    assert_eq!(2 * body.half_extents.y, size.y);
}

#[test]
fn stacked_blocks_all_satisfy_the_collider_invariant() {
    let (mut world, _assets, materials) = sandbox_world();
    spawn_ground(&mut world, &materials);
    for i in 0..5i64 {
        let size = Vec2 { x: 30 * MILLIS_PER_UNIT, y: 30 * MILLIS_PER_UNIT };
        let position = Vec3 { x: 0, y: i * 40 * MILLIS_PER_UNIT, z: 0 };
        spawn_block(&mut world, &materials, size, position);
    }
    assert_eq!(world.entities.len(), 7);
    for e in &world.entities {
        if let (Some(v), Some(b)) = (e.visual, e.body) {
            assert_eq!(2 * b.half_extents.x, v.size.x);
            assert_eq!(2 * b.half_extents.y, v.size.y);
        }
    }
}
