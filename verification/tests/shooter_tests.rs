use gameworld::color::Color;
use gameworld::geom::{Vec2, Vec3, MILLIS_PER_UNIT};
use gameworld::shooter::{
    add_enemy, add_player, move_bullets, rotate_enemy, setup, spawn_bullets, Materials,
    ROTATE_STEP_MILLIRADS,
};
use gameworld::world::{Assets, Body, BodyKind, Marker, Visual, World};

fn shooter_world() -> (World, Assets, Materials) {
    let mut world = World::new();
    let mut assets = Assets::new();
    let materials = setup(&mut world, &mut assets);
    (world, assets, materials)
}

#[test]
fn setup_spawns_camera_and_three_materials() {
    let (world, assets, materials) = shooter_world();
    assert_eq!(world.entities.len(), 1);
    assert_eq!(world.entities[0].marker, Marker::Camera);
    assert_eq!(world.entities[0].visual, None);
    assert_eq!(world.entities[0].body, None);
    assert_eq!(
        assets.colors,
        vec![
            Color { red_milli: 700, green_milli: 700, blue_milli: 700 },
            Color { red_milli: 200, green_milli: 700, blue_milli: 700 },
            Color { red_milli: 200, green_milli: 300, blue_milli: 700 },
        ]
    );
    assert_eq!(materials.player, 0);
    assert_eq!(materials.bullet, 1);
    assert_eq!(materials.enemy, 2);
}

#[test]
fn player_collider_is_half_the_sprite_size() {
    let (mut world, _assets, materials) = shooter_world();
    add_player(&mut world, &materials);
    let player = world.entities[1];
    assert_eq!(player.marker, Marker::Player);
    assert_eq!(player.transform.translation, Vec3 { x: 0, y: 0, z: 0 });
    assert_eq!(player.transform.rot_z_millirads, 0);
    let visual = player.visual.unwrap();
    let body = player.body.unwrap();
    assert_eq!(visual.material, materials.player);
    assert_eq!(visual.size, Vec2 { x: 10 * MILLIS_PER_UNIT, y: 10 * MILLIS_PER_UNIT });
    assert_eq!(body.kind, BodyKind::KinematicVelocityBased);
    assert_eq!(2 * body.half_extents.x, visual.size.x);
    assert_eq!(2 * body.half_extents.y, visual.size.y);
    assert!(player.rotation_locked);
}

#[test]
fn enemy_spawns_high_above_the_origin_without_a_body() {
    let (mut world, _assets, materials) = shooter_world();
    add_enemy(&mut world, &materials);
    let enemy = world.entities[1];
    assert_eq!(enemy.marker, Marker::Enemy);
    assert_eq!(enemy.transform.translation, Vec3 { x: 0, y: 300 * MILLIS_PER_UNIT, z: 0 });
    assert_eq!(enemy.transform.rot_z_millirads, 0);
    assert_eq!(
        enemy.visual,
        Some(Visual {
            material: materials.enemy,
            size: Vec2 { x: 50 * MILLIS_PER_UNIT, y: 50 * MILLIS_PER_UNIT },
        })
    );
    assert_eq!(enemy.body, None);
    assert!(!enemy.rotation_locked);
}

#[test]
fn rotate_enemy_composes_one_negative_tenth_radian_step() {
    let (mut world, _assets, materials) = shooter_world();
    add_player(&mut world, &materials);
    add_enemy(&mut world, &materials);
    rotate_enemy(&mut world);
    assert_eq!(ROTATE_STEP_MILLIRADS, -100);
    assert_eq!(world.entities[2].transform.rot_z_millirads, -100);
    // Position and everything else unchanged.
    assert_eq!(world.entities[2].transform.translation, Vec3 { x: 0, y: 300 * MILLIS_PER_UNIT, z: 0 });
    // Non-enemies are untouched.
    assert_eq!(world.entities[1].transform.rot_z_millirads, 0);
    rotate_enemy(&mut world);
    assert_eq!(world.entities[2].transform.rot_z_millirads, -200);
}

#[test]
fn spawn_bullets_creates_one_bullet_per_enemy_at_its_transform() {
    let (mut world, _assets, materials) = shooter_world();
    add_enemy(&mut world, &materials);
    add_enemy(&mut world, &materials);
    rotate_enemy(&mut world);
    let d0 = Vec3 { x: 99, y: 995, z: 0 };
    let d1 = Vec3 { x: -99, y: 995, z: 0 };
    let dirs = vec![d0, d1];
    spawn_bullets(&mut world, &materials, &dirs);
    assert_eq!(world.entities.len(), 5);
    let b0 = world.entities[3];
    let b1 = world.entities[4];
    assert_eq!(b0.marker, Marker::Bullet { dir: d0 });
    assert_eq!(b1.marker, Marker::Bullet { dir: d1 });
    // Each bullet is placed at its source enemy's current transform.
    assert_eq!(b0.transform, world.entities[1].transform);
    assert_eq!(b1.transform, world.entities[2].transform);
    assert_eq!(b0.transform.rot_z_millirads, -100);
    for b in [b0, b1] {
        let visual = b.visual.unwrap();
        let body = b.body.unwrap();
        assert_eq!(visual.material, materials.bullet);
        assert_eq!(visual.size, Vec2 { x: 10 * MILLIS_PER_UNIT, y: 10 * MILLIS_PER_UNIT });
        assert_eq!(body.kind, BodyKind::Sensor);
        assert_eq!(2 * body.half_extents.x, visual.size.x);
        assert_eq!(2 * body.half_extents.y, visual.size.y);
    }
}

#[test]
fn spawn_bullets_with_no_enemies_spawns_nothing() {
    let (mut world, _assets, materials) = shooter_world();
    add_player(&mut world, &materials);
    let dirs: Vec<Vec3> = vec![];
    spawn_bullets(&mut world, &materials, &dirs);
    assert_eq!(world.entities.len(), 2);
}

#[test]
fn move_bullets_advances_each_bullet_by_its_direction() {
    let (mut world, _assets, materials) = shooter_world();
    add_enemy(&mut world, &materials);
    let d = Vec3 { x: 5, y: -7, z: 0 };
    let dirs = vec![d];
    spawn_bullets(&mut world, &materials, &dirs);
    let start = world.entities[2].transform.translation;
    move_bullets(&mut world);
    let after_one = world.entities[2].transform.translation;
    assert_eq!(after_one, Vec3 { x: start.x + d.x, y: start.y + d.y, z: start.z + d.z });
    // The enemy does not move.
    assert_eq!(world.entities[1].transform.translation, Vec3 { x: 0, y: 300 * MILLIS_PER_UNIT, z: 0 });
    move_bullets(&mut world);
    let after_two = world.entities[2].transform.translation;
    assert_eq!(after_two, Vec3 { x: start.x + 2 * d.x, y: start.y + 2 * d.y, z: start.z + 2 * d.z });
}

/// The facing direction of a bullet fired at the given accumulated Z angle:
/// the local up axis rotated by the angle, scaled to thousandths and rounded.
fn facing_of(rot_z_millirads: i64) -> Vec3 {
    let angle = rot_z_millirads as f64 / 1000.0;
    let x = -angle.sin() * MILLIS_PER_UNIT as f64;
    let y = angle.cos() * MILLIS_PER_UNIT as f64;
    Vec3 { x: x.round() as i64, y: y.round() as i64, z: 0 }
}

#[test]
fn frame_loop_accumulates_one_bullet_per_enemy_per_frame() {
    let (mut world, _assets, materials) = shooter_world();
    add_player(&mut world, &materials);
    add_enemy(&mut world, &materials);
    let frames = 10;
    for _ in 0..frames {
        rotate_enemy(&mut world);
        let dir = facing_of(world.entities[2].transform.rot_z_millirads);
        let dirs = vec![dir];
        spawn_bullets(&mut world, &materials, &dirs);
        move_bullets(&mut world);
    }
    // camera + player + enemy + one bullet per frame
    assert_eq!(world.entities.len(), 3 + frames);
    assert_eq!(
        world.entities[2].transform.rot_z_millirads,
        frames as i64 * ROTATE_STEP_MILLIRADS
    );
    // The newest bullet has moved exactly once, from the enemy's position.
    let newest = world.entities[2 + frames];
    match newest.marker {
        Marker::Bullet { dir } => {
            assert_eq!(
                newest.transform.translation,
                Vec3 { x: dir.x, y: 300 * MILLIS_PER_UNIT + dir.y, z: dir.z }
            );
        }
        _ => panic!("newest entity is not a bullet"),
    }
}
