use space_shooter::components::Bullet;
use space_shooter::geometry::{Heading, Point, UNIT};
use space_shooter::movement::move_bullets;

#[test]
fn bullets_fly_along_their_heading() {
    let start = Point::from_units(10, -20);
    let mut bullets = vec![
        Bullet::fired(start, Heading::Up),
        Bullet::fired(start, Heading::Left),
        Bullet::fired(start, Heading::Down),
        Bullet::fired(start, Heading::Right),
    ];
    move_bullets(&mut bullets, 16_000);
    assert_eq!(
        bullets,
        vec![
            Bullet { position: Point { x: 10_000_000, y: -10_400_000 }, rotation: Heading::Up, speed: 600 },
            Bullet { position: Point { x: 400_000, y: -20_000_000 }, rotation: Heading::Left, speed: 600 },
            Bullet { position: Point { x: 10_000_000, y: -29_600_000 }, rotation: Heading::Down, speed: 600 },
            Bullet { position: Point { x: 19_600_000, y: -20_000_000 }, rotation: Heading::Right, speed: 600 },
        ]
    );
}

#[test]
fn a_second_of_flight_is_the_speed_in_units() {
    let mut bullets = vec![Bullet::fired(Point { x: 0, y: 0 }, Heading::Up)];
    move_bullets(&mut bullets, 1_000_000);
    assert_eq!(bullets[0].position, Point { x: 0, y: 600 * UNIT });
    let mut slow = vec![Bullet { position: Point { x: 0, y: 0 }, rotation: Heading::Right, speed: 7 }];
    move_bullets(&mut slow, 3);
    assert_eq!(slow[0].position, Point { x: 21, y: 0 });
}

#[test]
fn no_time_and_no_bullets_change_nothing() {
    let mut none: Vec<Bullet> = Vec::new();
    move_bullets(&mut none, 16_000);
    assert!(none.is_empty());
    let mut still = vec![Bullet::fired(Point::from_units(1, 2), Heading::Right)];
    move_bullets(&mut still, 0);
    assert_eq!(still, vec![Bullet::fired(Point::from_units(1, 2), Heading::Right)]);
}

#[test]
fn flight_stops_at_the_end_of_the_coordinate_range() {
    let mut bullets = vec![
        Bullet { position: Point { x: i64::MAX - 5, y: 3 }, rotation: Heading::Right, speed: u32::MAX },
        Bullet { position: Point { x: 3, y: i64::MIN + 5 }, rotation: Heading::Down, speed: u32::MAX },
    ];
    move_bullets(&mut bullets, u32::MAX);
    assert_eq!(bullets[0].position, Point { x: i64::MAX, y: 3 });
    assert_eq!(bullets[1].position, Point { x: 3, y: i64::MIN });
}
