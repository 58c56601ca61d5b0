use tdr2024::levels::next_level;
use tdr2024::sprites::{classify_sprite, CollisionShape, SpriteClass};

#[test]
fn player_car_is_red() {
    let c = classify_sprite("kenney_racing-pack/PNG/Cars/car_red_5.png");
    assert_eq!(
        c,
        SpriteClass {
            shape: CollisionShape::Rounded { percent: 60 },
            half_size: false,
            is_car: true,
            is_player: true,
        }
    );
}

#[test]
fn other_cars_are_ai() {
    let c = classify_sprite("Cars/car_blue_1.png");
    assert!(c.is_car && !c.is_player);
    assert_eq!(c.shape, CollisionShape::Rounded { percent: 60 });
}

#[test]
fn trees_use_half_size() {
    let c = classify_sprite("Objects/tree_large.png");
    assert_eq!(
        c,
        SpriteClass {
            shape: CollisionShape::Rounded { percent: 40 },
            half_size: true,
            is_car: false,
            is_player: false,
        }
    );
}

#[test]
fn tires_are_rounded_full_size() {
    let c = classify_sprite("Objects/tires_white.png");
    assert_eq!(c.shape, CollisionShape::Rounded { percent: 40 });
    assert!(!c.half_size && !c.is_car);
}

#[test]
fn other_sprites_are_rectangles() {
    let c = classify_sprite("Objects/barrier_red_race.png");
    assert_eq!(
        c,
        SpriteClass { shape: CollisionShape::Rectangle, half_size: false, is_car: false, is_player: false }
    );
    assert_eq!(classify_sprite("").shape, CollisionShape::Rectangle);
}

#[test]
fn tree_shape_wins_over_car() {
    let c = classify_sprite("tree_by_car_red.png");
    assert_eq!(c.shape, CollisionShape::Rounded { percent: 40 });
    assert!(c.half_size && c.is_car && c.is_player);
}

#[test]
fn levels_cycle() {
    assert_eq!(next_level(1), 2);
    assert_eq!(next_level(2), 1);
    assert_eq!(next_level(7), 8);
}
