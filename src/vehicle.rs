//! A vehicle and its per-tick kinematics.

use vstd::prelude::*;
use crate::config::{
    CENTER_X, CENTER_Y, MAX_VELOCITY, MIN_VELOCITY, POSITION_LIMIT, SAFETY_DISTANCE,
    VEHICLE_HEIGHT, VEHICLE_WIDTH, WINDOW_HEIGHT, WINDOW_WIDTH,
};
use crate::random::random_in;
use crate::types::{Direction, LightState, Side, TrafficLight};

verus! {

/// A vehicle in the simulation.
#[derive(Clone, Copy, Debug, PartialEq, Eq, Structural)]
pub struct Vehicle {
    /// X position of the vehicle
    pub x: i32,
    /// Y position of the vehicle
    pub y: i32,
    /// Turn the vehicle takes at the intersection
    pub direction: Direction,
    /// Side from which the vehicle enters the intersection
    pub side: Side,
    /// Distance covered per tick
    pub velocity: i32,
}

/// Starting position of a vehicle entering from `side`.
pub open spec fn spawn_point(side: Side) -> (int, int) {
    match side {
        Side::FromEast => (0, CENTER_Y as int),
        Side::FromNorth => (CENTER_X - VEHICLE_WIDTH, 0),
        Side::FromSouth => (CENTER_X as int, WINDOW_HEIGHT - VEHICLE_HEIGHT),
        Side::FromWest => (WINDOW_WIDTH - VEHICLE_WIDTH, CENTER_Y - VEHICLE_HEIGHT),
    }
}

/// The route that the draw `d` (one of 0, 1, 2) stands for.
pub open spec fn route_of_draw(d: int) -> Direction {
    if d == 0 {
        Direction::Left
    } else if d == 1 {
        Direction::Straight
    } else {
        Direction::Right
    }
}

impl Vehicle {
    /// A speed that new vehicles are given.
    pub open spec fn has_regular_speed(self) -> bool {
        MIN_VELOCITY <= self.velocity < MAX_VELOCITY
    }

    /// The coordinates and the speed are small enough that moving by the
    /// speed, and comparing against a gap, stays within `i32`.
    pub open spec fn in_bounds(self) -> bool {
        &&& -2 * POSITION_LIMIT <= self.x <= 2 * POSITION_LIMIT
        &&& -2 * POSITION_LIMIT <= self.y <= 2 * POSITION_LIMIT
        &&& 0 <= self.velocity <= POSITION_LIMIT / 10
    }

    /// Position after one tick, under a light that is green or not.
    pub open spec fn advanced(self, green: bool) -> Vehicle {
        match self.side {
            Side::FromEast => self.advanced_from_east(green),
            Side::FromNorth => self.advanced_from_north(green),
            Side::FromSouth => self.advanced_from_south(green),
            Side::FromWest => self.advanced_from_west(green),
        }
    }

    /// Moving along increasing x: before the stop line, at the light, then
    /// on the route.
    pub open spec fn advanced_from_east(self, green: bool) -> Vehicle {
        let next = self.x + self.velocity;
        if next < CENTER_X - 2 * VEHICLE_WIDTH {
            Vehicle { x: next as i32, ..self }
        } else if next < CENTER_X - VEHICLE_WIDTH {
            if green {
                Vehicle { x: next as i32, ..self }
            } else {
                Vehicle { x: (CENTER_X - 2 * VEHICLE_WIDTH) as i32, ..self }
            }
        } else {
            match self.direction {
                Direction::Left => Vehicle { x: CENTER_X, y: (self.y - self.velocity) as i32, ..self },
                Direction::Right => Vehicle {
                    x: (CENTER_X - VEHICLE_WIDTH) as i32,
                    y: (self.y + self.velocity) as i32,
                    ..self
                },
                Direction::Straight => Vehicle { x: next as i32, ..self },
            }
        }
    }

    /// Moving along increasing y.
    pub open spec fn advanced_from_north(self, green: bool) -> Vehicle {
        let next = self.y + self.velocity;
        if next < CENTER_Y - 2 * VEHICLE_HEIGHT {
            Vehicle { y: next as i32, ..self }
        } else if next < CENTER_Y - VEHICLE_HEIGHT {
            if green {
                Vehicle { y: next as i32, ..self }
            } else {
                Vehicle { y: (CENTER_Y - 2 * VEHICLE_HEIGHT) as i32, ..self }
            }
        } else {
            match self.direction {
                Direction::Left => Vehicle { y: CENTER_Y, x: (self.x + self.velocity) as i32, ..self },
                Direction::Right => Vehicle {
                    y: (CENTER_Y - VEHICLE_HEIGHT) as i32,
                    x: (self.x - self.velocity) as i32,
                    ..self
                },
                Direction::Straight => Vehicle { y: next as i32, ..self },
            }
        }
    }

    /// Moving along decreasing x.
    pub open spec fn advanced_from_west(self, green: bool) -> Vehicle {
        let next = self.x - self.velocity;
        if next > CENTER_X + 2 * VEHICLE_WIDTH {
            Vehicle { x: next as i32, ..self }
        } else if next > CENTER_X {
            if green {
                Vehicle { x: next as i32, ..self }
            } else {
                Vehicle { x: (CENTER_X + VEHICLE_WIDTH) as i32, ..self }
            }
        } else {
            match self.direction {
                Direction::Left => Vehicle {
                    x: (CENTER_X - VEHICLE_WIDTH) as i32,
                    y: (self.y + self.velocity) as i32,
                    ..self
                },
                Direction::Right => Vehicle { x: CENTER_X, y: (self.y - self.velocity) as i32, ..self },
                Direction::Straight => Vehicle { x: next as i32, ..self },
            }
        }
    }

    /// Moving along decreasing y.
    pub open spec fn advanced_from_south(self, green: bool) -> Vehicle {
        let next = self.y - self.velocity;
        if next > CENTER_Y + 2 * VEHICLE_HEIGHT {
            Vehicle { y: next as i32, ..self }
        } else if next > CENTER_Y {
            if green {
                Vehicle { y: next as i32, ..self }
            } else {
                Vehicle { y: (CENTER_Y + VEHICLE_HEIGHT) as i32, ..self }
            }
        } else {
            match self.direction {
                Direction::Left => Vehicle {
                    y: (CENTER_Y - VEHICLE_HEIGHT) as i32,
                    x: (self.x - self.velocity) as i32,
                    ..self
                },
                Direction::Right => Vehicle { y: CENTER_Y, x: (self.x + self.velocity) as i32, ..self },
                Direction::Straight => Vehicle { y: next as i32, ..self },
            }
        }
    }

    /// A vehicle entering from `side` at its spawn point, with the given
    /// route and speed.
    pub fn with_route(side: Side, direction: Direction, velocity: i32) -> (r: Vehicle)
        ensures
            r.side == side,
            r.direction == direction,
            r.velocity == velocity,
            (r.x as int, r.y as int) == spawn_point(side),
    {
        let (x, y) = match side {
            Side::FromEast => (0, CENTER_Y),
            Side::FromNorth => (CENTER_X - VEHICLE_WIDTH, 0),
            Side::FromSouth => (CENTER_X, WINDOW_HEIGHT - VEHICLE_HEIGHT),
            Side::FromWest => (WINDOW_WIDTH - VEHICLE_WIDTH, CENTER_Y - VEHICLE_HEIGHT),
        };
        Vehicle { x, y, direction, side, velocity }
    }

    /// A vehicle entering from `side` from two draws: `route_draw` picks the
    /// route (0 left, 1 straight, anything else right).
    pub fn from_draws(side: Side, route_draw: i32, velocity: i32) -> (r: Vehicle)
        ensures
            r == Vehicle::spec_with_route(side, route_of_draw(route_draw as int), velocity),
    {
        let direction = if route_draw == 0 {
            Direction::Left
        } else if route_draw == 1 {
            Direction::Straight
        } else {
            Direction::Right
        };
        Vehicle::with_route(side, direction, velocity)
    }

    /// The vehicle that `with_route` builds.
    pub open spec fn spec_with_route(side: Side, direction: Direction, velocity: i32) -> Vehicle {
        Vehicle {
            x: spawn_point(side).0 as i32,
            y: spawn_point(side).1 as i32,
            direction,
            side,
            velocity,
        }
    }

    /// Creates a new vehicle entering from `side`, with a route drawn
    /// uniformly and a speed drawn uniformly from the configured range.
    pub fn new(side: Side) -> (r: Self)
        ensures
            r.side == side,
            (r.x as int, r.y as int) == spawn_point(side),
            r.has_regular_speed(),
    {
        let route_draw = random_in(0, 3);
        let velocity = random_in(MIN_VELOCITY, MAX_VELOCITY);
        Vehicle::from_draws(side, route_draw, velocity)
    }

    /// Updates the vehicle position based on its side and the traffic light.
    pub fn update_position(&mut self, traffic_light: &TrafficLight)
        requires
            old(self).in_bounds(),
        ensures
            *final(self) == old(self).advanced(traffic_light.is_green()),
    {
        match self.side {
            Side::FromEast => self.update_from_east(traffic_light),
            Side::FromNorth => self.update_from_north(traffic_light),
            Side::FromSouth => self.update_from_south(traffic_light),
            Side::FromWest => self.update_from_west(traffic_light),
        }
    }

    /// Handles movement for vehicles coming from the east.
    fn update_from_east(&mut self, traffic_light: &TrafficLight)
        requires
            old(self).in_bounds(),
        ensures
            *final(self) == old(self).advanced_from_east(traffic_light.is_green()),
    {
        if self.x + self.velocity < CENTER_X - 2 * VEHICLE_WIDTH {
            self.x = self.x + self.velocity;
        } else if self.x + self.velocity < CENTER_X - VEHICLE_WIDTH {
            if traffic_light.state == LightState::Green {
                self.x = self.x + self.velocity;
            } else {
                self.x = CENTER_X - 2 * VEHICLE_WIDTH;
            }
        } else {
            match self.direction {
                Direction::Left => {
                    self.x = CENTER_X;
                    self.y = self.y - self.velocity;
                },
                Direction::Right => {
                    self.x = CENTER_X - VEHICLE_WIDTH;
                    self.y = self.y + self.velocity;
                },
                Direction::Straight => {
                    self.x = self.x + self.velocity;
                },
            }
        }
    }

    /// Handles movement for vehicles coming from the north.
    fn update_from_north(&mut self, traffic_light: &TrafficLight)
        requires
            old(self).in_bounds(),
        ensures
            *final(self) == old(self).advanced_from_north(traffic_light.is_green()),
    {
        if self.y + self.velocity < CENTER_Y - 2 * VEHICLE_HEIGHT {
            self.y = self.y + self.velocity;
        } else if self.y + self.velocity < CENTER_Y - VEHICLE_HEIGHT {
            if traffic_light.state == LightState::Green {
                self.y = self.y + self.velocity;
            } else {
                self.y = CENTER_Y - 2 * VEHICLE_HEIGHT;
            }
        } else {
            match self.direction {
                Direction::Left => {
                    self.y = CENTER_Y;
                    self.x = self.x + self.velocity;
                },
                Direction::Right => {
                    self.y = CENTER_Y - VEHICLE_HEIGHT;
                    self.x = self.x - self.velocity;
                },
                Direction::Straight => {
                    self.y = self.y + self.velocity;
                },
            }
        }
    }

    /// Handles movement for vehicles coming from the west.
    fn update_from_west(&mut self, traffic_light: &TrafficLight)
        requires
            old(self).in_bounds(),
        ensures
            *final(self) == old(self).advanced_from_west(traffic_light.is_green()),
    {
        if self.x - self.velocity > CENTER_X + 2 * VEHICLE_WIDTH {
            self.x = self.x - self.velocity;
        } else if self.x - self.velocity > CENTER_X {
            if traffic_light.state == LightState::Green {
                self.x = self.x - self.velocity;
            } else {
                self.x = CENTER_X + VEHICLE_WIDTH;
            }
        } else {
            match self.direction {
                Direction::Left => {
                    self.x = CENTER_X - VEHICLE_WIDTH;
                    self.y = self.y + self.velocity;
                },
                Direction::Right => {
                    self.x = CENTER_X;
                    self.y = self.y - self.velocity;
                },
                Direction::Straight => {
                    self.x = self.x - self.velocity;
                },
            }
        }
    }

    /// Handles movement for vehicles coming from the south.
    fn update_from_south(&mut self, traffic_light: &TrafficLight)
        requires
            old(self).in_bounds(),
        ensures
            *final(self) == old(self).advanced_from_south(traffic_light.is_green()),
    {
        if self.y - self.velocity > CENTER_Y + 2 * VEHICLE_HEIGHT {
            self.y = self.y - self.velocity;
        } else if self.y - self.velocity > CENTER_Y {
            if traffic_light.state == LightState::Green {
                self.y = self.y - self.velocity;
            } else {
                self.y = CENTER_Y + VEHICLE_HEIGHT;
            }
        } else {
            match self.direction {
                Direction::Left => {
                    self.y = CENTER_Y - VEHICLE_HEIGHT;
                    self.x = self.x - self.velocity;
                },
                Direction::Right => {
                    self.y = CENTER_Y;
                    self.x = self.x + self.velocity;
                },
                Direction::Straight => {
                    self.y = self.y - self.velocity;
                },
            }
        }
    }
}

} // verus!
