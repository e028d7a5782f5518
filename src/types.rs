//! Common types used throughout the simulation.

use vstd::prelude::*;

verus! {

/// Turn a vehicle takes at the intersection.
#[derive(Clone, Copy, Debug, PartialEq, Eq, Structural)]
pub enum Direction {
    /// Turn left at the intersection
    Left,
    /// Turn right at the intersection
    Right,
    /// Go straight through the intersection
    Straight,
}

/// Side from which a vehicle enters the intersection.
#[derive(Clone, Copy, Debug, PartialEq, Eq, Structural)]
pub enum Side {
    /// Vehicle coming from the south side
    FromSouth,
    /// Vehicle coming from the north side
    FromNorth,
    /// Vehicle coming from the west side
    FromWest,
    /// Vehicle coming from the east side
    FromEast,
}

/// Exit of the intersection; each names one departed queue.
#[derive(Clone, Copy, Debug, PartialEq, Eq, Structural)]
pub enum Compass {
    North,
    South,
    East,
    West,
}

/// Axis and sign along which a vehicle moves.
#[derive(Clone, Copy, Debug, PartialEq, Eq, Structural)]
pub enum Travel {
    IncreasingX,
    DecreasingX,
    IncreasingY,
    DecreasingY,
}

/// Traffic light states.
#[derive(Clone, Copy, Debug, PartialEq, Eq, Structural)]
pub enum LightState {
    /// Green light - vehicles can proceed
    Green,
    /// Red light - vehicles must stop
    Red,
}

/// Traffic light representation.
#[derive(Clone, Copy, Debug, PartialEq, Eq, Structural)]
pub struct TrafficLight {
    /// Current state of the traffic light
    pub state: LightState,
}

impl TrafficLight {
    /// Whether this light lets vehicles through.
    pub open spec fn is_green(self) -> bool {
        self.state == LightState::Green
    }

    /// Create a new traffic light with a red state.
    pub fn red() -> (r: Self)
        ensures
            r.state == LightState::Red,
    {
        Self { state: LightState::Red }
    }

    /// Create a new traffic light with a green state.
    pub fn green() -> (r: Self)
        ensures
            r.state == LightState::Green,
    {
        Self { state: LightState::Green }
    }
}

/// Exit taken by a vehicle that entered from `side` and takes turn `direction`.
pub open spec fn exit_of(side: Side, direction: Direction) -> Compass {
    match (side, direction) {
        (Side::FromEast, Direction::Left) => Compass::North,
        (Side::FromEast, Direction::Right) => Compass::South,
        (Side::FromEast, Direction::Straight) => Compass::West,
        (Side::FromWest, Direction::Left) => Compass::South,
        (Side::FromWest, Direction::Right) => Compass::North,
        (Side::FromWest, Direction::Straight) => Compass::East,
        (Side::FromNorth, Direction::Left) => Compass::East,
        (Side::FromNorth, Direction::Right) => Compass::West,
        (Side::FromNorth, Direction::Straight) => Compass::South,
        (Side::FromSouth, Direction::Left) => Compass::West,
        (Side::FromSouth, Direction::Right) => Compass::East,
        (Side::FromSouth, Direction::Straight) => Compass::North,
    }
}

/// Exit taken by a vehicle that entered from `side` and takes turn `direction`.
pub fn exit_direction(side: Side, direction: Direction) -> (r: Compass)
    ensures
        r == exit_of(side, direction),
{
    match (side, direction) {
        (Side::FromEast, Direction::Left) => Compass::North,
        (Side::FromEast, Direction::Right) => Compass::South,
        (Side::FromEast, Direction::Straight) => Compass::West,
        (Side::FromWest, Direction::Left) => Compass::South,
        (Side::FromWest, Direction::Right) => Compass::North,
        (Side::FromWest, Direction::Straight) => Compass::East,
        (Side::FromNorth, Direction::Left) => Compass::East,
        (Side::FromNorth, Direction::Right) => Compass::West,
        (Side::FromNorth, Direction::Straight) => Compass::South,
        (Side::FromSouth, Direction::Left) => Compass::West,
        (Side::FromSouth, Direction::Right) => Compass::East,
        (Side::FromSouth, Direction::Straight) => Compass::North,
    }
}

/// Direction of travel while approaching from `side`.
pub open spec fn approach_travel(side: Side) -> Travel {
    match side {
        Side::FromEast => Travel::IncreasingX,
        Side::FromWest => Travel::DecreasingX,
        Side::FromNorth => Travel::IncreasingY,
        Side::FromSouth => Travel::DecreasingY,
    }
}

/// Direction of travel once the turn `direction` from `side` is made.
pub open spec fn exit_travel(side: Side, direction: Direction) -> Travel {
    match (side, direction) {
        (Side::FromEast, Direction::Left) => Travel::DecreasingY,
        (Side::FromEast, Direction::Right) => Travel::IncreasingY,
        (Side::FromEast, Direction::Straight) => Travel::IncreasingX,
        (Side::FromWest, Direction::Left) => Travel::IncreasingY,
        (Side::FromWest, Direction::Right) => Travel::DecreasingY,
        (Side::FromWest, Direction::Straight) => Travel::DecreasingX,
        (Side::FromNorth, Direction::Left) => Travel::IncreasingX,
        (Side::FromNorth, Direction::Right) => Travel::DecreasingX,
        (Side::FromNorth, Direction::Straight) => Travel::IncreasingY,
        (Side::FromSouth, Direction::Left) => Travel::DecreasingX,
        (Side::FromSouth, Direction::Right) => Travel::IncreasingX,
        (Side::FromSouth, Direction::Straight) => Travel::DecreasingY,
    }
}

/// Direction of travel while approaching from `side`.
pub fn approach_travel_of(side: Side) -> (r: Travel)
    ensures
        r == approach_travel(side),
{
    match side {
        Side::FromEast => Travel::IncreasingX,
        Side::FromWest => Travel::DecreasingX,
        Side::FromNorth => Travel::IncreasingY,
        Side::FromSouth => Travel::DecreasingY,
    }
}

/// Direction of travel once the turn `direction` from `side` is made.
pub fn exit_travel_of(side: Side, direction: Direction) -> (r: Travel)
    ensures
        r == exit_travel(side, direction),
{
    match (side, direction) {
        (Side::FromEast, Direction::Left) => Travel::DecreasingY,
        (Side::FromEast, Direction::Right) => Travel::IncreasingY,
        (Side::FromEast, Direction::Straight) => Travel::IncreasingX,
        (Side::FromWest, Direction::Left) => Travel::IncreasingY,
        (Side::FromWest, Direction::Right) => Travel::DecreasingY,
        (Side::FromWest, Direction::Straight) => Travel::DecreasingX,
        (Side::FromNorth, Direction::Left) => Travel::IncreasingX,
        (Side::FromNorth, Direction::Right) => Travel::DecreasingX,
        (Side::FromNorth, Direction::Straight) => Travel::IncreasingY,
        (Side::FromSouth, Direction::Left) => Travel::DecreasingX,
        (Side::FromSouth, Direction::Right) => Travel::IncreasingX,
        (Side::FromSouth, Direction::Straight) => Travel::DecreasingY,
    }
}

} // verus!
