use road_intersection::config::{MAX_VELOCITY, MIN_VELOCITY, SAFETY_DISTANCE};
use road_intersection::traffic::{follow_queue, keeps_safety_gap, pick_green, room_behind};
use road_intersection::types::exit_direction;
use road_intersection::{Compass, Direction, Intersection, LightState, Side, TrafficLight, Vehicle};

fn vehicle_at(side: Side, direction: Direction, x: i32, y: i32, velocity: i32) -> Vehicle {
    let mut v = Vehicle::with_route(side, direction, velocity);
    v.x = x;
    v.y = y;
    v
}

fn greens(i: &Intersection) -> usize {
    [&i.north_light, &i.south_light, &i.east_light, &i.west_light]
        .iter()
        .filter(|l| l.state == LightState::Green)
        .count()
}

fn total(i: &Intersection) -> usize {
    let (waiting, passing, passed, _, _) = i.stats();
    waiting + passing + passed
}

#[test]
fn exit_direction_table() {
    assert_eq!(exit_direction(Side::FromEast, Direction::Left), Compass::North);
    assert_eq!(exit_direction(Side::FromEast, Direction::Right), Compass::South);
    assert_eq!(exit_direction(Side::FromEast, Direction::Straight), Compass::West);
    assert_eq!(exit_direction(Side::FromWest, Direction::Left), Compass::South);
    assert_eq!(exit_direction(Side::FromWest, Direction::Right), Compass::North);
    assert_eq!(exit_direction(Side::FromWest, Direction::Straight), Compass::East);
    assert_eq!(exit_direction(Side::FromNorth, Direction::Left), Compass::East);
    assert_eq!(exit_direction(Side::FromNorth, Direction::Right), Compass::West);
    assert_eq!(exit_direction(Side::FromNorth, Direction::Straight), Compass::South);
    assert_eq!(exit_direction(Side::FromSouth, Direction::Left), Compass::West);
    assert_eq!(exit_direction(Side::FromSouth, Direction::Right), Compass::East);
    assert_eq!(exit_direction(Side::FromSouth, Direction::Straight), Compass::North);
}

#[test]
fn scheduler_tie_break_prefers_east() {
    assert_eq!(pick_green(3, 3, 1, 0), Some(Side::FromEast));

    let mut i = Intersection::new();
    for k in 0..3 {
        i.vehicles_waiting_east.push(vehicle_at(Side::FromEast, Direction::Left, 100 - 40 * k, 400, 2));
        i.vehicles_waiting_west.push(vehicle_at(Side::FromWest, Direction::Left, 600 + 40 * k, 380, 2));
    }
    i.vehicles_waiting_north.push(Vehicle::with_route(Side::FromNorth, Direction::Left, 2));
    i.update();
    assert_eq!(i.east_light.state, LightState::Green);
    assert_eq!(i.west_light.state, LightState::Red);
    assert_eq!(i.north_light.state, LightState::Red);
    assert_eq!(i.south_light.state, LightState::Red);
}

#[test]
fn scheduler_priority_on_other_ties() {
    assert_eq!(pick_green(0, 2, 2, 2), Some(Side::FromWest));
    assert_eq!(pick_green(0, 0, 2, 2), Some(Side::FromNorth));
    assert_eq!(pick_green(0, 0, 0, 1), Some(Side::FromSouth));
    assert_eq!(pick_green(1, 0, 5, 2), Some(Side::FromNorth));
    assert_eq!(pick_green(0, 0, 0, 0), None);
}

#[test]
fn green_light_is_reset_to_all_red() {
    let mut i = Intersection::new();
    i.vehicles_waiting_north.push(Vehicle::with_route(Side::FromNorth, Direction::Left, 2));
    i.update();
    assert_eq!(i.north_light.state, LightState::Green);
    i.update();
    assert_eq!(greens(&i), 0);
    i.update();
    assert_eq!(i.north_light.state, LightState::Green);
}

#[test]
fn no_vehicles_keeps_all_red() {
    let mut i = Intersection::new();
    for _ in 0..5 {
        i.update();
        assert_eq!(greens(&i), 0);
    }
    assert_eq!(i.stats(), (0, 0, 0, 0, 5));
}

#[test]
fn car_following_blocks_within_safety_distance() {
    assert_eq!(SAFETY_DISTANCE, 30);
    let lead = vehicle_at(Side::FromNorth, Direction::Straight, 380, 100, 3);
    let close = vehicle_at(Side::FromNorth, Direction::Straight, 380, 68, 3);
    assert!(!keeps_safety_gap(&close, &lead, false));
    let mut queue = vec![lead, close];
    follow_queue(&mut queue, &TrafficLight::red(), false);
    assert_eq!(queue[0].y, 103);
    assert_eq!(queue[1].y, 68);

    let far = vehicle_at(Side::FromNorth, Direction::Straight, 380, 67, 3);
    assert!(keeps_safety_gap(&far, &lead, false));
    let mut queue = vec![lead, far];
    follow_queue(&mut queue, &TrafficLight::red(), false);
    assert_eq!(queue[0].y, 103);
    assert_eq!(queue[1].y, 70);
}

#[test]
fn car_following_uses_position_before_the_step() {
    // The third vehicle is measured against where the second stood, even
    // though the second moves in the same step.
    let a = vehicle_at(Side::FromEast, Direction::Straight, 200, 400, 2);
    let b = vehicle_at(Side::FromEast, Direction::Straight, 160, 400, 2);
    let c = vehicle_at(Side::FromEast, Direction::Straight, 129, 400, 2);
    let mut queue = vec![a, b, c];
    follow_queue(&mut queue, &TrafficLight::green(), false);
    assert_eq!(queue[0].x, 202);
    assert_eq!(queue[1].x, 162);
    assert_eq!(queue[2].x, 129);
}

#[test]
fn departed_queue_follows_exit_direction() {
    let a = vehicle_at(Side::FromEast, Direction::Left, 400, 300, 2);
    let b = vehicle_at(Side::FromEast, Direction::Left, 400, 331, 2);
    let c = vehicle_at(Side::FromEast, Direction::Left, 400, 333, 2);
    let mut queue = vec![a, b];
    follow_queue(&mut queue, &TrafficLight::green(), true);
    assert_eq!(queue[0].y, 298);
    assert_eq!(queue[1].y, 331);
    let mut queue = vec![a, c];
    follow_queue(&mut queue, &TrafficLight::green(), true);
    assert_eq!(queue[1].y, 331);
}

#[test]
fn north_straight_departs_south() {
    let mut i = Intersection::new();
    assert!(i.spawn_vehicle(Vehicle::with_route(Side::FromNorth, Direction::Straight, 2)));
    let mut ticks = 0;
    while i.vehicles_passed_south.is_empty() && ticks < 1000 {
        i.update();
        ticks += 1;
    }
    assert_eq!(i.vehicles_passed_south.len(), 1);
    assert_eq!(i.total_vehicles_processed, 1);
    assert!(i.vehicles_passed_north.is_empty());
    assert!(i.vehicles_passed_east.is_empty());
    assert!(i.vehicles_passed_west.is_empty());
    assert!(i.vehicles_in_intersection.is_empty());
    assert!(i.vehicles_waiting_north.is_empty());
    assert_eq!(i.stats(), (0, 0, 1, 1, ticks));
}

#[test]
fn spawn_rejected_when_rear_vehicle_too_close() {
    let mut i = Intersection::new();
    assert!(i.spawn_vehicle_from_east());
    assert_eq!(i.vehicles_waiting_east.len(), 1);
    assert!(!i.spawn_vehicle_from_east());
    assert_eq!(i.vehicles_waiting_east.len(), 1);

    i.vehicles_waiting_east[0].x = SAFETY_DISTANCE - 1;
    assert!(!i.spawn_vehicle_from_east());
    assert_eq!(i.vehicles_waiting_east.len(), 1);

    i.vehicles_waiting_east[0].x = SAFETY_DISTANCE;
    assert!(i.spawn_vehicle_from_east());
    assert_eq!(i.vehicles_waiting_east.len(), 2);
}

#[test]
fn spawn_room_measured_from_each_spawn_point() {
    let west = vec![vehicle_at(Side::FromWest, Direction::Left, 750, 380, 2)];
    assert!(room_behind(&west, Side::FromWest));
    let west = vec![vehicle_at(Side::FromWest, Direction::Left, 751, 380, 2)];
    assert!(!room_behind(&west, Side::FromWest));
    let south = vec![vehicle_at(Side::FromSouth, Direction::Left, 400, 750, 2)];
    assert!(room_behind(&south, Side::FromSouth));
    let south = vec![vehicle_at(Side::FromSouth, Direction::Left, 400, 751, 2)];
    assert!(!room_behind(&south, Side::FromSouth));
    let north = vec![vehicle_at(Side::FromNorth, Direction::Left, 380, 29, 2)];
    assert!(!room_behind(&north, Side::FromNorth));
    assert!(room_behind(&Vec::new(), Side::FromNorth));
}

#[test]
fn spawn_from_each_side() {
    let mut i = Intersection::new();
    assert!(i.spawn_vehicle_from_north());
    assert!(i.spawn_vehicle_from_south());
    assert!(i.spawn_vehicle_from_east());
    assert!(i.spawn_vehicle_from_west());
    assert_eq!((i.vehicles_waiting_north[0].x, i.vehicles_waiting_north[0].y), (380, 0));
    assert_eq!((i.vehicles_waiting_south[0].x, i.vehicles_waiting_south[0].y), (400, 780));
    assert_eq!((i.vehicles_waiting_east[0].x, i.vehicles_waiting_east[0].y), (0, 400));
    assert_eq!((i.vehicles_waiting_west[0].x, i.vehicles_waiting_west[0].y), (780, 380));
    assert_eq!(i.vehicles_waiting_west[0].side, Side::FromWest);
    assert_eq!(i.stats(), (4, 0, 0, 0, 0));
}

#[test]
fn random_vehicle_has_spawn_position_and_regular_speed() {
    for _ in 0..50 {
        let v = Vehicle::new(Side::FromSouth);
        assert_eq!(v.side, Side::FromSouth);
        assert_eq!((v.x, v.y), (400, 780));
        assert!(v.velocity >= MIN_VELOCITY && v.velocity < MAX_VELOCITY);
    }
}

#[test]
fn route_draws_map_to_turns() {
    assert_eq!(Vehicle::from_draws(Side::FromEast, 0, 2).direction, Direction::Left);
    assert_eq!(Vehicle::from_draws(Side::FromEast, 1, 2).direction, Direction::Straight);
    assert_eq!(Vehicle::from_draws(Side::FromEast, 2, 2).direction, Direction::Right);
}

#[test]
fn kinematics_zones_from_east() {
    let mut v = vehicle_at(Side::FromEast, Direction::Left, 0, 400, 2);
    v.update_position(&TrafficLight::red());
    assert_eq!((v.x, v.y), (2, 400));
    let mut v = vehicle_at(Side::FromEast, Direction::Left, 357, 400, 2);
    v.update_position(&TrafficLight::red());
    assert_eq!((v.x, v.y), (359, 400));
    let mut v = vehicle_at(Side::FromEast, Direction::Left, 359, 400, 2);
    v.update_position(&TrafficLight::red());
    assert_eq!((v.x, v.y), (360, 400));
    let mut v = vehicle_at(Side::FromEast, Direction::Left, 359, 400, 2);
    v.update_position(&TrafficLight::green());
    assert_eq!((v.x, v.y), (361, 400));
    let mut v = vehicle_at(Side::FromEast, Direction::Left, 378, 400, 2);
    v.update_position(&TrafficLight::red());
    assert_eq!((v.x, v.y), (400, 398));
    let mut v = vehicle_at(Side::FromEast, Direction::Right, 378, 400, 2);
    v.update_position(&TrafficLight::green());
    assert_eq!((v.x, v.y), (380, 402));
    let mut v = vehicle_at(Side::FromEast, Direction::Straight, 378, 400, 2);
    v.update_position(&TrafficLight::green());
    assert_eq!((v.x, v.y), (380, 400));
}

#[test]
fn kinematics_zones_from_other_sides() {
    let mut v = vehicle_at(Side::FromWest, Direction::Left, 410, 380, 2);
    v.update_position(&TrafficLight::red());
    assert_eq!((v.x, v.y), (420, 380));
    let mut v = vehicle_at(Side::FromWest, Direction::Right, 401, 380, 2);
    v.update_position(&TrafficLight::red());
    assert_eq!((v.x, v.y), (400, 378));
    let mut v = vehicle_at(Side::FromSouth, Direction::Left, 400, 430, 2);
    v.update_position(&TrafficLight::red());
    assert_eq!((v.x, v.y), (400, 420));
    let mut v = vehicle_at(Side::FromSouth, Direction::Right, 400, 401, 2);
    v.update_position(&TrafficLight::red());
    assert_eq!((v.x, v.y), (402, 400));
    let mut v = vehicle_at(Side::FromNorth, Direction::Right, 380, 379, 2);
    v.update_position(&TrafficLight::red());
    assert_eq!((v.x, v.y), (378, 380));
    let mut v = vehicle_at(Side::FromNorth, Direction::Left, 380, 370, 2);
    v.update_position(&TrafficLight::red());
    assert_eq!((v.x, v.y), (380, 360));
}

fn run_until_departed(side: Side, direction: Direction) -> Intersection {
    let mut i = Intersection::new();
    assert!(i.spawn_vehicle(Vehicle::with_route(side, direction, 2)));
    let mut ticks = 0;
    while i.total_vehicles_processed == 0 && ticks < 1000 {
        i.update();
        ticks += 1;
    }
    assert_eq!(i.total_vehicles_processed, 1);
    i
}

#[test]
fn every_route_departs_by_its_exit() {
    let sides = [Side::FromNorth, Side::FromSouth, Side::FromEast, Side::FromWest];
    let routes = [Direction::Left, Direction::Right, Direction::Straight];
    for side in sides {
        for route in routes {
            let i = run_until_departed(side, route);
            let queue = match exit_direction(side, route) {
                Compass::North => &i.vehicles_passed_north,
                Compass::South => &i.vehicles_passed_south,
                Compass::East => &i.vehicles_passed_east,
                Compass::West => &i.vehicles_passed_west,
            };
            assert_eq!(queue.len(), 1);
            assert_eq!(queue[0].side, side);
            assert_eq!(i.stats().2, 1);
        }
    }
}

#[test]
fn invariants_hold_under_random_traffic() {
    let mut i = Intersection::new();
    let mut expected = 0;
    for tick in 0..3000 {
        if tick % 7 == 0 && i.spawn_vehicle_random() {
            expected += 1;
        }
        if tick % 13 == 0 && i.spawn_vehicle_from_north() {
            expected += 1;
        }
        assert_eq!(total(&i), expected);
        assert!(i.can_update());
        i.update();
        assert!(greens(&i) <= 1);
        assert!(i.vehicles_in_intersection.len() <= 1);
        assert_eq!(total(&i), expected);
    }
    assert!(i.total_vehicles_processed > 0);
}

#[test]
fn admitted_vehicle_eventually_departs() {
    let mut i = Intersection::new();
    assert!(i.spawn_vehicle(Vehicle::with_route(Side::FromWest, Direction::Left, 2)));
    while i.vehicles_in_intersection.is_empty() {
        i.update();
    }
    let mut ticks = 0;
    while !i.vehicles_in_intersection.is_empty() {
        i.update();
        ticks += 1;
        assert!(ticks < 100);
    }
    assert_eq!(i.vehicles_passed_south.len(), 1);
    assert_eq!(i.total_vehicles_processed, 1);
}

#[test]
fn can_update_refuses_far_positions() {
    let mut i = Intersection::new();
    assert!(i.can_update());
    i.vehicles_passed_east.push(vehicle_at(Side::FromWest, Direction::Straight, -1_000_000_001, 380, 2));
    assert!(!i.can_update());
}

#[test]
fn random_routes_cover_every_turn() {
    let mut seen = [false; 3];
    for _ in 0..300 {
        match Vehicle::new(Side::FromEast).direction {
            Direction::Left => seen[0] = true,
            Direction::Straight => seen[1] = true,
            Direction::Right => seen[2] = true,
        }
    }
    assert_eq!(seen, [true, true, true]);
}

#[test]
fn random_spawns_cover_every_side() {
    let mut i = Intersection::new();
    for _ in 0..200 {
        i.spawn_vehicle_random();
        for q in [
            &mut i.vehicles_waiting_north,
            &mut i.vehicles_waiting_south,
            &mut i.vehicles_waiting_east,
            &mut i.vehicles_waiting_west,
        ] {
            // Keep one vehicle per queue, far enough from its spawn point.
            q.truncate(1);
            if let Some(v) = q.first_mut() {
                match v.side {
                    Side::FromEast => v.x = 300,
                    Side::FromNorth => v.y = 300,
                    Side::FromWest => v.x = 500,
                    Side::FromSouth => v.y = 500,
                }
            }
        }
    }
    assert_eq!(i.vehicles_waiting_north.len(), 1);
    assert_eq!(i.vehicles_waiting_south.len(), 1);
    assert_eq!(i.vehicles_waiting_east.len(), 1);
    assert_eq!(i.vehicles_waiting_west.len(), 1);
}

#[test]
fn spawn_draws_map_to_sides() {
    let expected = [Side::FromEast, Side::FromWest, Side::FromNorth, Side::FromSouth];
    for (draw, side) in expected.into_iter().enumerate() {
        let mut i = Intersection::new();
        assert!(i.spawn_vehicle_from_draw(draw as i32));
        let queues = [
            (Side::FromEast, i.vehicles_waiting_east.len()),
            (Side::FromWest, i.vehicles_waiting_west.len()),
            (Side::FromNorth, i.vehicles_waiting_north.len()),
            (Side::FromSouth, i.vehicles_waiting_south.len()),
        ];
        for (s, len) in queues {
            assert_eq!(len, if s == side { 1 } else { 0 });
        }
        // A second draw for the same side finds no room at the spawn point.
        let before = i.clone();
        assert!(!i.spawn_vehicle_from_draw(draw as i32));
        assert_eq!(i, before);
    }
}

fn identities(i: &Intersection) -> Vec<(Side, Direction, i32)> {
    [
        &i.vehicles_waiting_north,
        &i.vehicles_waiting_south,
        &i.vehicles_waiting_east,
        &i.vehicles_waiting_west,
        &i.vehicles_in_intersection,
        &i.vehicles_passed_north,
        &i.vehicles_passed_south,
        &i.vehicles_passed_east,
        &i.vehicles_passed_west,
    ]
    .iter()
    .flat_map(|q| q.iter().map(|v| (v.side, v.direction, v.velocity)))
    .collect()
}

fn same_multiset(a: &[(Side, Direction, i32)], b: &[(Side, Direction, i32)]) -> bool {
    let mut rest = b.to_vec();
    for x in a {
        match rest.iter().position(|y| y == x) {
            Some(k) => {
                rest.remove(k);
            }
            None => return false,
        }
    }
    rest.is_empty()
}

#[test]
fn tick_keeps_every_vehicle() {
    let mut i = Intersection::new();
    for tick in 0..1500 {
        if tick % 5 == 0 {
            i.spawn_vehicle_random();
        }
        let before = identities(&i);
        i.update();
        assert!(same_multiset(&before, &identities(&i)));
    }
}
