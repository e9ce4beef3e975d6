use space_shooter::components::{Bullet, PlayerShip};
use space_shooter::geometry::{Heading, Point, Viewport, UNIT};
use space_shooter::input::{fire_bullet, keyboard_input, Key, KeyInput, KeySet};
use space_shooter::resources::GameData;

fn viewport() -> Viewport {
    Viewport::from_units(800, 600)
}

fn game_with_bullets(bullet_count: i32) -> GameData {
    let mut game = GameData::default();
    game.bullet_count = bullet_count;
    game
}

#[test]
fn key_sets_hold_what_was_added() {
    let keys = KeySet::empty().with(Key::Up).with(Key::D).with(Key::Space);
    let all = [Key::Up, Key::Down, Key::Left, Key::Right, Key::W, Key::A, Key::S, Key::D, Key::Space];
    for key in all {
        assert_eq!(keys.contains(key), matches!(key, Key::Up | Key::D | Key::Space));
        assert!(!KeySet::empty().contains(key));
        assert!(KeySet::empty().with(key).contains(key));
    }
}

#[test]
fn pressing_is_held_and_fresh_holding_is_held_only() {
    let input = KeyInput::idle().pressing(Key::Left).holding(Key::W);
    assert!(input.pressed(Key::Left));
    assert!(input.just_pressed(Key::Left));
    assert!(input.pressed(Key::W));
    assert!(!input.just_pressed(Key::W));
    assert!(!input.pressed(Key::Right));
    assert!(!input.just_pressed(Key::Right));
}

#[test]
fn fire_bullet_leaves_the_ship_position() {
    let mut ship = PlayerShip::default();
    ship.position = Point::from_units(12, -7);
    let game = GameData::default();
    assert_eq!(
        fire_bullet(&game, &ship, Heading::Left),
        Some(Bullet { position: Point::from_units(12, -7), rotation: Heading::Left, speed: 600 })
    );
    assert_eq!(fire_bullet(&game_with_bullets(5), &ship, Heading::Up).map(|b| b.rotation), Some(Heading::Up));
    assert_eq!(fire_bullet(&game_with_bullets(6), &ship, Heading::Up), None);
}

#[test]
fn each_arrow_fires_along_its_heading() {
    let cases = [
        (Key::Up, Heading::Up, 0),
        (Key::Down, Heading::Down, 180),
        (Key::Left, Heading::Left, 90),
        (Key::Right, Heading::Right, 270),
    ];
    for (key, heading, degrees) in cases {
        let mut game = GameData::default();
        let mut ship = PlayerShip::default();
        let fired = keyboard_input(&KeyInput::idle().pressing(key), &mut ship, &mut game, &viewport(), 16_000);
        assert_eq!(fired, Some(Bullet::fired(Point { x: 0, y: 0 }, heading)));
        assert_eq!(fired.unwrap().rotation.degrees(), degrees);
        assert_eq!(game.bullet_count, 1);
        assert_eq!(ship.rotation, heading);
    }
}

#[test]
fn up_at_the_cap_still_fires() {
    let mut game = game_with_bullets(5);
    let mut ship = PlayerShip::default();
    let fired = keyboard_input(&KeyInput::idle().pressing(Key::Up), &mut ship, &mut game, &viewport(), 16_000);
    assert_eq!(fired, Some(Bullet::fired(Point { x: 0, y: 0 }, Heading::Up)));
    assert_eq!(game.bullet_count, 6);
}

#[test]
fn up_above_the_cap_fires_nothing() {
    let mut game = game_with_bullets(6);
    let before = game;
    let mut ship = PlayerShip::default();
    let fired = keyboard_input(&KeyInput::idle().pressing(Key::Up), &mut ship, &mut game, &viewport(), 16_000);
    assert_eq!(fired, None);
    assert_eq!(game, before);
    assert_eq!(game.bullet_count, 6);
}

#[test]
fn a_held_key_fires_only_once() {
    let mut game = GameData::default();
    let mut ship = PlayerShip::default();
    let first = keyboard_input(&KeyInput::idle().pressing(Key::Up), &mut ship, &mut game, &viewport(), 16_000);
    assert!(first.is_some());
    assert_eq!(game.bullet_count, 1);
    for _ in 0..100 {
        let later = keyboard_input(&KeyInput::idle().holding(Key::Up), &mut ship, &mut game, &viewport(), 16_000);
        assert_eq!(later, None);
        assert_eq!(game.bullet_count, 1);
    }
}

#[test]
fn letter_keys_and_space_do_not_fire() {
    let mut game = GameData::default();
    let mut ship = PlayerShip::default();
    let input = KeyInput::idle()
        .pressing(Key::W)
        .pressing(Key::A)
        .pressing(Key::S)
        .pressing(Key::D)
        .pressing(Key::Space);
    assert_eq!(keyboard_input(&input, &mut ship, &mut game, &viewport(), 16_000), None);
    assert_eq!(game, GameData::default());
}

#[test]
fn several_arrows_fire_one_bullet() {
    let mut game = GameData::default();
    let mut ship = PlayerShip::default();
    let all = KeyInput::idle().pressing(Key::Right).pressing(Key::Left).pressing(Key::Up).pressing(Key::Down);
    let fired = keyboard_input(&all, &mut ship, &mut game, &viewport(), 0);
    assert_eq!(fired.map(|b| b.rotation), Some(Heading::Down));
    assert_eq!(game.bullet_count, 1);
    assert_eq!(ship.rotation, Heading::Right);

    let three = KeyInput::idle().pressing(Key::Right).pressing(Key::Left).pressing(Key::Up);
    assert_eq!(keyboard_input(&three, &mut ship, &mut game, &viewport(), 0).map(|b| b.rotation), Some(Heading::Up));
    let two = KeyInput::idle().pressing(Key::Right).pressing(Key::Left);
    assert_eq!(keyboard_input(&two, &mut ship, &mut game, &viewport(), 0).map(|b| b.rotation), Some(Heading::Left));
    assert_eq!(game.bullet_count, 3);
}

#[test]
fn ship_faces_the_held_arrow_by_precedence() {
    let turn = |input: KeyInput, from: Heading| {
        let mut game = GameData::default();
        let mut ship = PlayerShip::default();
        ship.rotation = from;
        keyboard_input(&input, &mut ship, &mut game, &viewport(), 16_000);
        ship.rotation
    };
    assert_eq!(turn(KeyInput::idle(), Heading::Left), Heading::Left);
    assert_eq!(turn(KeyInput::idle().holding(Key::W), Heading::Down), Heading::Down);
    assert_eq!(turn(KeyInput::idle().holding(Key::Down), Heading::Left), Heading::Down);
    assert_eq!(turn(KeyInput::idle().holding(Key::Down).holding(Key::Up), Heading::Left), Heading::Up);
    assert_eq!(
        turn(KeyInput::idle().holding(Key::Down).holding(Key::Up).holding(Key::Left), Heading::Up),
        Heading::Left
    );
    assert_eq!(
        turn(
            KeyInput::idle().holding(Key::Down).holding(Key::Up).holding(Key::Left).holding(Key::Right),
            Heading::Up
        ),
        Heading::Right
    );
}

#[test]
fn letter_keys_move_the_ship() {
    let step = |input: KeyInput| {
        let mut game = GameData::default();
        let mut ship = PlayerShip::default();
        keyboard_input(&input, &mut ship, &mut game, &viewport(), 16_000);
        assert_eq!(game, GameData::default());
        ship.position
    };
    assert_eq!(step(KeyInput::idle()), Point { x: 0, y: 0 });
    assert_eq!(step(KeyInput::idle().holding(Key::D)), Point { x: 3_200_000, y: 0 });
    assert_eq!(step(KeyInput::idle().holding(Key::A)), Point { x: -3_200_000, y: 0 });
    assert_eq!(step(KeyInput::idle().holding(Key::W)), Point { x: 0, y: 3_200_000 });
    assert_eq!(step(KeyInput::idle().holding(Key::S)), Point { x: 0, y: -3_200_000 });
    assert_eq!(step(KeyInput::idle().holding(Key::W).holding(Key::D)), Point { x: 3_200_000, y: 3_200_000 });
    assert_eq!(step(KeyInput::idle().holding(Key::A).holding(Key::D)), Point { x: 0, y: 0 });
    assert_eq!(step(KeyInput::idle().holding(Key::W).holding(Key::S)), Point { x: 0, y: 0 });
}

#[test]
fn ship_stops_at_the_viewport_edges() {
    let mut game = GameData::default();
    let mut ship = PlayerShip::default();
    ship.position = Point::from_units(399, -299);
    let input = KeyInput::idle().holding(Key::D).holding(Key::S);
    keyboard_input(&input, &mut ship, &mut game, &viewport(), 16_000);
    assert_eq!(ship.position, Point { x: 400 * UNIT, y: -300 * UNIT });
    keyboard_input(&input, &mut ship, &mut game, &viewport(), u32::MAX);
    assert_eq!(ship.position, Point { x: 400 * UNIT, y: -300 * UNIT });

    ship.position = Point::from_units(1000, 1000);
    keyboard_input(&KeyInput::idle(), &mut ship, &mut game, &viewport(), 16_000);
    assert_eq!(ship.position, Point::from_units(400, 300));
}

#[test]
fn bullet_starts_where_the_ship_was_before_it_moved() {
    let mut game = GameData::default();
    let mut ship = PlayerShip::default();
    ship.position = Point::from_units(5, 5);
    let input = KeyInput::idle().pressing(Key::Left).holding(Key::D);
    let fired = keyboard_input(&input, &mut ship, &mut game, &viewport(), 1_000_000);
    assert_eq!(fired, Some(Bullet::fired(Point::from_units(5, 5), Heading::Left)));
    assert_eq!(ship.position, Point::from_units(205, 5));
    assert_eq!(ship.rotation, Heading::Left);
    assert_eq!(ship.speed, 200);
    assert_eq!(ship.rotation_speed, 180);
}
