//! The intersection and its per-tick state transition.

use vstd::prelude::*;
use vstd::multiset::Multiset;
use crate::config::{
    CENTER_X, CENTER_Y, MAX_VELOCITY, MIN_VELOCITY, POSITION_LIMIT, SAFETY_DISTANCE,
    VEHICLE_HEIGHT, VEHICLE_WIDTH, WINDOW_HEIGHT, WINDOW_WIDTH,
};
use crate::types::{approach_travel, approach_travel_of, exit_direction, exit_of, exit_travel};
use crate::types::{exit_travel_of, Compass, Direction, LightState, Side, TrafficLight, Travel};
use crate::random::random_in;
use crate::vehicle::{spawn_point, Vehicle};

verus! {

/// Whether `v`, moved by its speed along `travel`, stays at least
/// `SAFETY_DISTANCE` behind `front`.
pub open spec fn keeps_gap(v: Vehicle, front: Vehicle, travel: Travel) -> bool {
    match travel {
        Travel::IncreasingX => v.x + v.velocity + SAFETY_DISTANCE <= front.x,
        Travel::DecreasingX => v.x - v.velocity - SAFETY_DISTANCE >= front.x,
        Travel::IncreasingY => v.y + v.velocity + SAFETY_DISTANCE <= front.y,
        Travel::DecreasingY => v.y - v.velocity - SAFETY_DISTANCE >= front.y,
    }
}

/// Direction in which `v` moves: along its approach while waiting, along
/// its exit once departed.
pub open spec fn travel_of(v: Vehicle, departed: bool) -> Travel {
    if departed {
        exit_travel(v.side, v.direction)
    } else {
        approach_travel(v.side)
    }
}

/// One car-following step of a queue. The lead always advances; each other
/// vehicle advances only if it keeps its gap to where the vehicle ahead of
/// it stood at the start of the step.
pub open spec fn followed(q: Seq<Vehicle>, green: bool, departed: bool) -> Seq<Vehicle> {
    Seq::new(
        q.len(),
        |i: int|
            if i == 0 || keeps_gap(q[i], q[i - 1], travel_of(q[i], departed)) {
                q[i].advanced(green)
            } else {
                q[i]
            },
    )
}

/// In a car-following step, a vehicle behind the lead stays where it is
/// when moving by its speed would bring it closer than `SAFETY_DISTANCE` to
/// where the vehicle ahead stood before the step, and moves otherwise.
pub proof fn lemma_follower_keeps_distance(q: Seq<Vehicle>, green: bool, departed: bool, i: int)
    requires
        1 <= i < q.len(),
    ensures
        !keeps_gap(q[i], q[i - 1], travel_of(q[i], departed)) ==> followed(q, green, departed)[i]
            == q[i],
        keeps_gap(q[i], q[i - 1], travel_of(q[i], departed)) ==> followed(q, green, departed)[i]
            == q[i].advanced(green),
{
}

/// Every vehicle of `q` can be moved without leaving `i32`.
pub open spec fn all_in_bounds(q: Seq<Vehicle>) -> bool {
    forall|i: int| 0 <= i < q.len() ==> (#[trigger] q[i]).in_bounds()
}

/// Whether `v` may move behind `front` (see `keeps_gap`).
pub fn keeps_safety_gap(v: &Vehicle, front: &Vehicle, departed: bool) -> (r: bool)
    requires
        v.in_bounds(),
    ensures
        r == keeps_gap(*v, *front, travel_of(*v, departed)),
{
    let travel = if departed {
        exit_travel_of(v.side, v.direction)
    } else {
        approach_travel_of(v.side)
    };
    match travel {
        Travel::IncreasingX => v.x + v.velocity + SAFETY_DISTANCE <= front.x,
        Travel::DecreasingX => v.x - v.velocity - SAFETY_DISTANCE >= front.x,
        Travel::IncreasingY => v.y + v.velocity + SAFETY_DISTANCE <= front.y,
        Travel::DecreasingY => v.y - v.velocity - SAFETY_DISTANCE >= front.y,
    }
}

/// Moves a queue by one car-following step under `traffic_light`.
pub fn follow_queue(queue: &mut Vec<Vehicle>, traffic_light: &TrafficLight, departed: bool)
    requires
        all_in_bounds(old(queue)@),
    ensures
        final(queue)@ == followed(old(queue)@, traffic_light.is_green(), departed),
{
    let ghost start = queue@;
    let ghost green = traffic_light.is_green();
    let n = queue.len();
    if n == 0 {
        assert(queue@ =~= followed(start, green, departed));
        return;
    }
    let mut front = queue[0];
    let mut lead = front;
    lead.update_position(traffic_light);
    queue.set(0, lead);
    let mut i: usize = 1;
    while i < n
        invariant
            n == queue@.len(),
            n == start.len(),
            1 <= i <= n,
            all_in_bounds(start),
            front == start[i - 1],
            forall|j: int| 0 <= j < i ==> queue@[j] == followed(start, green, departed)[j],
            forall|j: int| i <= j < n ==> queue@[j] == start[j],
            green == traffic_light.is_green(),
        decreases n - i,
    {
        let current = queue[i];
        assert(current == start[i as int]);
        if keeps_safety_gap(&current, &front, departed) {
            let mut moved = current;
            moved.update_position(traffic_light);
            queue.set(i, moved);
        }
        front = current;
        i = i + 1;
    }
    assert(queue@ =~= followed(start, green, departed));
}

/// The lead vehicle `v` has reached the stop line of its approach.
pub open spec fn at_stop_line(v: Vehicle) -> bool {
    match v.side {
        Side::FromNorth => v.y >= CENTER_Y - 2 * VEHICLE_HEIGHT,
        Side::FromSouth => v.y <= CENTER_Y + 2 * VEHICLE_HEIGHT,
        Side::FromEast => v.x >= CENTER_X - 2 * VEHICLE_WIDTH,
        Side::FromWest => v.x <= CENTER_X + VEHICLE_WIDTH,
    }
}

/// Whether `v` has reached the stop line of its approach.
pub fn is_at_stop_line(v: &Vehicle) -> (r: bool)
    ensures
        r == at_stop_line(*v),
{
    match v.side {
        Side::FromNorth => v.y >= CENTER_Y - 2 * VEHICLE_HEIGHT,
        Side::FromSouth => v.y <= CENTER_Y + 2 * VEHICLE_HEIGHT,
        Side::FromEast => v.x >= CENTER_X - 2 * VEHICLE_WIDTH,
        Side::FromWest => v.x <= CENTER_X + VEHICLE_WIDTH,
    }
}

/// One step of a waiting queue and the intersection slot: a lead vehicle
/// at its stop line enters the empty slot under a green light; a lead
/// vehicle before its stop line moves the queue one car-following step; a
/// lead held at the stop line holds the whole queue.
pub open spec fn waiting_step(q: Seq<Vehicle>, green: bool, slot: Seq<Vehicle>) -> (
    Seq<Vehicle>,
    Seq<Vehicle>,
) {
    if q.len() == 0 {
        (q, slot)
    } else if at_stop_line(q[0]) {
        if green && slot.len() == 0 {
            (q.drop_first(), slot.push(q[0]))
        } else {
            (q, slot)
        }
    } else {
        (followed(q, green, false), slot)
    }
}

/// Processes the vehicles waiting at one traffic light.
pub fn process_waiting_queue(
    queue: &mut Vec<Vehicle>,
    traffic_light: &TrafficLight,
    slot: &mut Vec<Vehicle>,
)
    requires
        all_in_bounds(old(queue)@),
    ensures
        (final(queue)@, final(slot)@) == waiting_step(
            old(queue)@,
            traffic_light.is_green(),
            old(slot)@,
        ),
{
    if queue.len() == 0 {
        return;
    }
    if is_at_stop_line(&queue[0]) {
        if traffic_light.state == LightState::Green && slot.len() == 0 {
            let vehicle = queue.remove(0);
            slot.push(vehicle);
            assert(queue@ =~= old(queue)@.drop_first());
        }
    } else {
        follow_queue(queue, traffic_light, false);
    }
}

/// The largest of four counts.
pub open spec fn max_of_four(a: nat, b: nat, c: nat, d: nat) -> nat {
    let ab = if a >= b { a } else { b };
    let cd = if c >= d { c } else { d };
    if ab >= cd { ab } else { cd }
}

/// Side whose light turns green when all lights are red: none when no
/// vehicle waits; otherwise the first of East, West, North, South whose
/// waiting count is the largest of the four.
pub open spec fn next_green(east: nat, west: nat, north: nat, south: nat) -> Option<Side> {
    let most = max_of_four(east, west, north, south);
    if most == 0 {
        None
    } else if east == most {
        Some(Side::FromEast)
    } else if west == most {
        Some(Side::FromWest)
    } else if north == most {
        Some(Side::FromNorth)
    } else {
        Some(Side::FromSouth)
    }
}

/// Side whose light turns green, given the waiting counts (see `next_green`).
pub fn pick_green(east: usize, west: usize, north: usize, south: usize) -> (r: Option<Side>)
    ensures
        r == next_green(east as nat, west as nat, north as nat, south as nat),
{
    if east >= west && east >= north && east >= south && east > 0 {
        Some(Side::FromEast)
    } else if west >= east && west >= north && west >= south && west > 0 {
        Some(Side::FromWest)
    } else if north >= east && north >= west && north >= south && north > 0 {
        Some(Side::FromNorth)
    } else if south > 0 {
        Some(Side::FromSouth)
    } else {
        None
    }
}

/// `v` has left the box around the centre of the intersection.
pub open spec fn outside_box(v: Vehicle) -> bool {
    ||| v.x > CENTER_X + VEHICLE_WIDTH
    ||| v.x < CENTER_X - 2 * VEHICLE_WIDTH
    ||| v.y > CENTER_Y + VEHICLE_HEIGHT
    ||| v.y < CENTER_Y - 2 * VEHICLE_HEIGHT
}

/// Distance from the spawn point of `side` covered by `v` along its approach.
pub open spec fn travelled(v: Vehicle, side: Side) -> int {
    match side {
        Side::FromEast => v.x as int,
        Side::FromNorth => v.y as int,
        Side::FromWest => (WINDOW_WIDTH - VEHICLE_WIDTH) - v.x,
        Side::FromSouth => (WINDOW_HEIGHT - VEHICLE_HEIGHT) - v.y,
    }
}

/// A new vehicle fits behind the rearmost one waiting from `side`.
pub open spec fn has_room(q: Seq<Vehicle>, side: Side) -> bool {
    q.len() == 0 || travelled(q.last(), side) >= SAFETY_DISTANCE
}

/// Every vehicle of `q` entered from `side`.
pub open spec fn all_from(q: Seq<Vehicle>, side: Side) -> bool {
    forall|i: int| 0 <= i < q.len() ==> (#[trigger] q[i]).side == side
}

/// Every vehicle of `q` has a speed that new vehicles are given.
pub open spec fn all_regular(q: Seq<Vehicle>) -> bool {
    forall|i: int| 0 <= i < q.len() ==> (#[trigger] q[i]).has_regular_speed()
}

/// Every vehicle of `q` lies within `bound` of the origin on both axes.
pub open spec fn all_within(q: Seq<Vehicle>, bound: int) -> bool {
    forall|i: int|
        0 <= i < q.len() ==> -bound <= (#[trigger] q[i]).x <= bound && -bound <= q[i].y <= bound
}

/// The state of an intersection as mathematical values.
pub struct IntersectionView {
    pub waiting_north: Seq<Vehicle>,
    pub waiting_south: Seq<Vehicle>,
    pub waiting_east: Seq<Vehicle>,
    pub waiting_west: Seq<Vehicle>,
    pub in_intersection: Seq<Vehicle>,
    pub passed_north: Seq<Vehicle>,
    pub passed_south: Seq<Vehicle>,
    pub passed_east: Seq<Vehicle>,
    pub passed_west: Seq<Vehicle>,
    pub north_light: LightState,
    pub south_light: LightState,
    pub east_light: LightState,
    pub west_light: LightState,
    pub total_vehicles_processed: nat,
    pub simulation_time: nat,
}

impl IntersectionView {
    /// Waiting queue of `side`.
    pub open spec fn waiting(self, side: Side) -> Seq<Vehicle> {
        match side {
            Side::FromNorth => self.waiting_north,
            Side::FromSouth => self.waiting_south,
            Side::FromEast => self.waiting_east,
            Side::FromWest => self.waiting_west,
        }
    }

    /// Departed queue of exit `c`.
    pub open spec fn passed(self, c: Compass) -> Seq<Vehicle> {
        match c {
            Compass::North => self.passed_north,
            Compass::South => self.passed_south,
            Compass::East => self.passed_east,
            Compass::West => self.passed_west,
        }
    }

    /// Light of `side`.
    pub open spec fn light(self, side: Side) -> LightState {
        match side {
            Side::FromNorth => self.north_light,
            Side::FromSouth => self.south_light,
            Side::FromEast => self.east_light,
            Side::FromWest => self.west_light,
        }
    }

    /// This state with the waiting queue of `side` replaced by `q`.
    pub open spec fn with_waiting(self, side: Side, q: Seq<Vehicle>) -> Self {
        match side {
            Side::FromNorth => IntersectionView { waiting_north: q, ..self },
            Side::FromSouth => IntersectionView { waiting_south: q, ..self },
            Side::FromEast => IntersectionView { waiting_east: q, ..self },
            Side::FromWest => IntersectionView { waiting_west: q, ..self },
        }
    }

    /// This state with the departed queue of `c` replaced by `q`.
    pub open spec fn with_passed(self, c: Compass, q: Seq<Vehicle>) -> Self {
        match c {
            Compass::North => IntersectionView { passed_north: q, ..self },
            Compass::South => IntersectionView { passed_south: q, ..self },
            Compass::East => IntersectionView { passed_east: q, ..self },
            Compass::West => IntersectionView { passed_west: q, ..self },
        }
    }

    /// Number of vehicles over all queues and the slot.
    pub open spec fn count(self) -> nat {
        self.waiting_north.len() + self.waiting_south.len() + self.waiting_east.len()
            + self.waiting_west.len() + self.in_intersection.len() + self.passed_north.len()
            + self.passed_south.len() + self.passed_east.len() + self.passed_west.len()
    }

    /// Identities of all vehicles over all queues and the slot.
    pub open spec fn all_identities(self) -> Multiset<(Side, Direction, i32)> {
        identities(self.waiting_north).add(identities(self.waiting_south)).add(
            identities(self.waiting_east),
        ).add(identities(self.waiting_west)).add(identities(self.in_intersection)).add(
            identities(self.passed_north),
        ).add(identities(self.passed_south)).add(identities(self.passed_east)).add(
            identities(self.passed_west),
        )
    }

    /// Number of lights that are green.
    pub open spec fn green_count(self) -> int {
        (if self.north_light == LightState::Green { 1int } else { 0 }) + (if self.south_light
            == LightState::Green {
            1int
        } else {
            0
        }) + (if self.east_light == LightState::Green { 1int } else { 0 }) + (if self.west_light
            == LightState::Green {
            1int
        } else {
            0
        })
    }

    /// Every vehicle lies within `bound` of the origin on both axes.
    pub open spec fn within(self, bound: int) -> bool {
        &&& all_within(self.waiting_north, bound)
        &&& all_within(self.waiting_south, bound)
        &&& all_within(self.waiting_east, bound)
        &&& all_within(self.waiting_west, bound)
        &&& all_within(self.in_intersection, bound)
        &&& all_within(self.passed_north, bound)
        &&& all_within(self.passed_south, bound)
        &&& all_within(self.passed_east, bound)
        &&& all_within(self.passed_west, bound)
    }

    /// The invariant kept by every operation: at most one green light, at
    /// most one vehicle in the intersection, every waiting vehicle in the
    /// queue of its own side, and every vehicle with a regular speed.
    pub open spec fn wf(self) -> bool {
        &&& self.green_count() <= 1
        &&& self.in_intersection.len() <= 1
        &&& all_from(self.waiting_north, Side::FromNorth)
        &&& all_from(self.waiting_south, Side::FromSouth)
        &&& all_from(self.waiting_east, Side::FromEast)
        &&& all_from(self.waiting_west, Side::FromWest)
        &&& all_regular(self.waiting_north)
        &&& all_regular(self.waiting_south)
        &&& all_regular(self.waiting_east)
        &&& all_regular(self.waiting_west)
        &&& all_regular(self.in_intersection)
        &&& all_regular(self.passed_north)
        &&& all_regular(self.passed_south)
        &&& all_regular(self.passed_east)
        &&& all_regular(self.passed_west)
    }

    /// A tick can be computed exactly: coordinates within `POSITION_LIMIT`,
    /// and room left in the counters.
    pub open spec fn in_bounds(self) -> bool {
        &&& self.within(POSITION_LIMIT as int)
        &&& self.simulation_time < u32::MAX
        &&& self.total_vehicles_processed < usize::MAX
    }

    /// Light selection: any green light turns all lights red; with all
    /// lights red, the side chosen by `next_green` turns green.
    pub open spec fn lights_updated(self) -> Self {
        if self.green_count() > 0 {
            IntersectionView {
                north_light: LightState::Red,
                south_light: LightState::Red,
                east_light: LightState::Red,
                west_light: LightState::Red,
                ..self
            }
        } else {
            match next_green(
                self.waiting_east.len(),
                self.waiting_west.len(),
                self.waiting_north.len(),
                self.waiting_south.len(),
            ) {
                Some(Side::FromEast) => IntersectionView { east_light: LightState::Green, ..self },
                Some(Side::FromWest) => IntersectionView { west_light: LightState::Green, ..self },
                Some(Side::FromNorth) => IntersectionView {
                    north_light: LightState::Green,
                    ..self
                },
                Some(Side::FromSouth) => IntersectionView {
                    south_light: LightState::Green,
                    ..self
                },
                None => self,
            }
        }
    }

    /// The vehicle in the intersection advances; once out of the box it is
    /// counted and appended to the departed queue of its exit.
    pub open spec fn slot_advanced(self) -> Self {
        if self.in_intersection.len() == 0 {
            self
        } else {
            let v = self.in_intersection[0].advanced(true);
            if outside_box(v) {
                let e = exit_of(v.side, v.direction);
                IntersectionView {
                    in_intersection: self.in_intersection.drop_first(),
                    total_vehicles_processed: self.total_vehicles_processed + 1,
                    ..self.with_passed(e, self.passed(e).push(v))
                }
            } else {
                IntersectionView { in_intersection: self.in_intersection.update(0, v), ..self }
            }
        }
    }

    /// Every departed queue moves one car-following step.
    pub open spec fn departed_followed(self) -> Self {
        IntersectionView {
            passed_north: followed(self.passed_north, true, true),
            passed_south: followed(self.passed_south, true, true),
            passed_east: followed(self.passed_east, true, true),
            passed_west: followed(self.passed_west, true, true),
            ..self
        }
    }

    /// The waiting queue of `side` takes its `waiting_step`.
    pub open spec fn side_processed(self, side: Side) -> Self {
        let step = waiting_step(
            self.waiting(side),
            self.light(side) == LightState::Green,
            self.in_intersection,
        );
        IntersectionView { in_intersection: step.1, ..self.with_waiting(side, step.0) }
    }

    /// The waiting queues take their steps, North, South, East, West.
    pub open spec fn waiting_processed(self) -> Self {
        self.side_processed(Side::FromNorth).side_processed(Side::FromSouth).side_processed(
            Side::FromEast,
        ).side_processed(Side::FromWest)
    }

    /// One tick of the simulation.
    pub open spec fn tick(self) -> Self {
        let s = self.lights_updated().slot_advanced().departed_followed().waiting_processed();
        IntersectionView { simulation_time: s.simulation_time + 1, ..s }
    }
}

/// Fields that a step never changes: side, route and speed of each vehicle.
pub open spec fn same_vehicles(a: Seq<Vehicle>, b: Seq<Vehicle>) -> bool {
    &&& a.len() == b.len()
    &&& forall|i: int|
        0 <= i < a.len() ==> (#[trigger] a[i]).side == b[i].side && a[i].direction
            == b[i].direction && a[i].velocity == b[i].velocity
}

proof fn lemma_followed_same_vehicles(q: Seq<Vehicle>, green: bool, departed: bool)
    ensures
        same_vehicles(followed(q, green, departed), q),
{
}

proof fn lemma_same_vehicles_regular(a: Seq<Vehicle>, b: Seq<Vehicle>)
    requires
        same_vehicles(a, b),
        all_regular(b),
    ensures
        all_regular(a),
{
    assert forall|i: int| 0 <= i < a.len() implies (#[trigger] a[i]).has_regular_speed() by {
        assert(a[i].velocity == b[i].velocity);
    }
}

proof fn lemma_same_vehicles_from(a: Seq<Vehicle>, b: Seq<Vehicle>, side: Side)
    requires
        same_vehicles(a, b),
        all_from(b, side),
    ensures
        all_from(a, side),
{
    assert forall|i: int| 0 <= i < a.len() implies (#[trigger] a[i]).side == side by {
        assert(a[i].side == b[i].side);
    }
}

proof fn lemma_waiting_step_keeps(q: Seq<Vehicle>, green: bool, slot: Seq<Vehicle>, side: Side)
    requires
        all_from(q, side),
        all_regular(q),
        all_regular(slot),
        slot.len() <= 1,
    ensures
        all_from(waiting_step(q, green, slot).0, side),
        all_regular(waiting_step(q, green, slot).0),
        all_regular(waiting_step(q, green, slot).1),
        waiting_step(q, green, slot).1.len() <= 1,
        waiting_step(q, green, slot).0.len() + waiting_step(q, green, slot).1.len() == q.len()
            + slot.len(),
{
    lemma_followed_same_vehicles(q, green, false);
    lemma_same_vehicles_regular(followed(q, green, false), q);
    lemma_same_vehicles_from(followed(q, green, false), q, side);
    if q.len() > 0 && at_stop_line(q[0]) && green && slot.len() == 0 {
        let r = slot.push(q[0]);
        assert(r[0] == q[0]);
        let d = q.drop_first();
        assert forall|i: int| 0 <= i < d.len() implies (#[trigger] d[i]).side == side
            && d[i].has_regular_speed() by {
            assert(d[i] == q[i + 1]);
        }
    }
}

proof fn lemma_side_processed_keeps(s: IntersectionView, side: Side)
    requires
        s.wf(),
    ensures
        s.side_processed(side).wf(),
        s.side_processed(side).count() == s.count(),
        s.side_processed(side).passed_north == s.passed_north,
        s.side_processed(side).passed_south == s.passed_south,
        s.side_processed(side).passed_east == s.passed_east,
        s.side_processed(side).passed_west == s.passed_west,
        s.side_processed(side).total_vehicles_processed == s.total_vehicles_processed,
{
    lemma_waiting_step_keeps(
        s.waiting(side),
        s.light(side) == LightState::Green,
        s.in_intersection,
        side,
    );
}

proof fn lemma_slot_advanced_keeps(s: IntersectionView)
    requires
        s.wf(),
    ensures
        s.slot_advanced().wf(),
        s.slot_advanced().count() == s.count(),
{
    if s.in_intersection.len() > 0 {
        let v = s.in_intersection[0].advanced(true);
        assert(s.in_intersection[0].has_regular_speed());
        if outside_box(v) {
            let e = exit_of(v.side, v.direction);
            let q = s.passed(e).push(v);
            assert forall|i: int| 0 <= i < q.len() implies (#[trigger] q[i]).has_regular_speed() by {
                if i < s.passed(e).len() {
                    assert(q[i] == s.passed(e)[i]);
                }
            }
        } else {
            let q = s.in_intersection.update(0, v);
            assert(q[0] == v);
        }
    }
}

proof fn lemma_departed_followed_keeps(s: IntersectionView)
    requires
        s.wf(),
    ensures
        s.departed_followed().wf(),
        s.departed_followed().count() == s.count(),
{
    lemma_followed_same_vehicles(s.passed_north, true, true);
    lemma_followed_same_vehicles(s.passed_south, true, true);
    lemma_followed_same_vehicles(s.passed_east, true, true);
    lemma_followed_same_vehicles(s.passed_west, true, true);
    lemma_same_vehicles_regular(followed(s.passed_north, true, true), s.passed_north);
    lemma_same_vehicles_regular(followed(s.passed_south, true, true), s.passed_south);
    lemma_same_vehicles_regular(followed(s.passed_east, true, true), s.passed_east);
    lemma_same_vehicles_regular(followed(s.passed_west, true, true), s.passed_west);
}

proof fn lemma_tick_phases(s: IntersectionView)
    requires
        s.wf(),
    ensures
        s.tick().count() == s.count(),
        s.tick().wf(),
{
    let s1 = s.lights_updated();
    assert(s1.wf());
    lemma_slot_advanced_keeps(s1);
    let s2 = s1.slot_advanced();
    lemma_departed_followed_keeps(s2);
    let s3 = s2.departed_followed();
    lemma_side_processed_keeps(s3, Side::FromNorth);
    let s4 = s3.side_processed(Side::FromNorth);
    lemma_side_processed_keeps(s4, Side::FromSouth);
    let s5 = s4.side_processed(Side::FromSouth);
    lemma_side_processed_keeps(s5, Side::FromEast);
    let s6 = s5.side_processed(Side::FromEast);
    lemma_side_processed_keeps(s6, Side::FromWest);
}

/// What a step never changes about a vehicle: its side, route and speed.
pub open spec fn identity(v: Vehicle) -> (Side, Direction, i32) {
    (v.side, v.direction, v.velocity)
}

/// The identities of the vehicles of `q`, counted with multiplicity.
pub open spec fn identities(q: Seq<Vehicle>) -> Multiset<(Side, Direction, i32)> {
    q.map_values(|v: Vehicle| identity(v)).to_multiset()
}

proof fn lemma_identities_same(a: Seq<Vehicle>, b: Seq<Vehicle>)
    requires
        same_vehicles(a, b),
    ensures
        identities(a) == identities(b),
{
    assert(a.map_values(|v: Vehicle| identity(v)) =~= b.map_values(|v: Vehicle| identity(v)));
}

proof fn lemma_identities_push(q: Seq<Vehicle>, v: Vehicle)
    ensures
        identities(q.push(v)) == identities(q).insert(identity(v)),
{
    let f = |w: Vehicle| identity(w);
    assert(q.push(v).map_values(f) =~= q.map_values(f).push(identity(v)));
    vstd::seq_lib::to_multiset_build(q.map_values(f), identity(v));
}

proof fn lemma_identities_drop_first(q: Seq<Vehicle>)
    requires
        q.len() > 0,
    ensures
        identities(q) == identities(q.drop_first()).insert(identity(q[0])),
{
    broadcast use vstd::multiset::group_multiset_axioms;

    let f = |w: Vehicle| identity(w);
    let m = q.map_values(f);
    assert(m.remove(0) =~= q.drop_first().map_values(f));
    vstd::seq_lib::to_multiset_remove(m, 0);
    m.to_multiset_ensures();
    assert(m.contains(m[0]));
    assert(m.to_multiset() =~= m.to_multiset().remove(m[0]).insert(m[0]));
}

proof fn lemma_identities_update(q: Seq<Vehicle>, w: Vehicle)
    requires
        q.len() > 0,
        identity(w) == identity(q[0]),
    ensures
        identities(q.update(0, w)) == identities(q),
{
    let f = |v: Vehicle| identity(v);
    assert(q.update(0, w).map_values(f) =~= q.map_values(f));
}

proof fn lemma_slot_advanced_identities(s: IntersectionView)
    ensures
        s.slot_advanced().all_identities() == s.all_identities(),
{
    broadcast use vstd::multiset::group_multiset_axioms;

    if s.in_intersection.len() > 0 {
        let v = s.in_intersection[0];
        let w = v.advanced(true);
        assert(identity(w) == identity(v));
        if outside_box(w) {
            let e = exit_of(w.side, w.direction);
            lemma_identities_drop_first(s.in_intersection);
            lemma_identities_push(s.passed(e), w);
            assert(s.slot_advanced().all_identities() =~= s.all_identities());
        } else {
            lemma_identities_update(s.in_intersection, w);
        }
    }
}

proof fn lemma_departed_followed_identities(s: IntersectionView)
    ensures
        s.departed_followed().all_identities() == s.all_identities(),
{
    lemma_followed_same_vehicles(s.passed_north, true, true);
    lemma_followed_same_vehicles(s.passed_south, true, true);
    lemma_followed_same_vehicles(s.passed_east, true, true);
    lemma_followed_same_vehicles(s.passed_west, true, true);
    lemma_identities_same(followed(s.passed_north, true, true), s.passed_north);
    lemma_identities_same(followed(s.passed_south, true, true), s.passed_south);
    lemma_identities_same(followed(s.passed_east, true, true), s.passed_east);
    lemma_identities_same(followed(s.passed_west, true, true), s.passed_west);
}

proof fn lemma_side_processed_identities(s: IntersectionView, side: Side)
    ensures
        s.side_processed(side).all_identities() == s.all_identities(),
{
    broadcast use vstd::multiset::group_multiset_axioms;

    let q = s.waiting(side);
    let green = s.light(side) == LightState::Green;
    if q.len() > 0 {
        if at_stop_line(q[0]) {
            if green && s.in_intersection.len() == 0 {
                lemma_identities_drop_first(q);
                lemma_identities_push(s.in_intersection, q[0]);
                assert(s.side_processed(side).all_identities() =~= s.all_identities());
            }
        } else {
            lemma_followed_same_vehicles(q, green, false);
            lemma_identities_same(followed(q, green, false), q);
        }
    }
}

/// No vehicle is ever dropped or duplicated: a tick keeps the identities
/// (side, route, speed) of all vehicles, counted with multiplicity, over
/// all queues and the intersection.
pub proof fn lemma_tick_keeps_identities(s: IntersectionView)
    ensures
        s.tick().all_identities() == s.all_identities(),
{
    let s1 = s.lights_updated();
    assert(s1.all_identities() == s.all_identities());
    lemma_slot_advanced_identities(s1);
    let s2 = s1.slot_advanced();
    lemma_departed_followed_identities(s2);
    let s3 = s2.departed_followed();
    lemma_side_processed_identities(s3, Side::FromNorth);
    let s4 = s3.side_processed(Side::FromNorth);
    lemma_side_processed_identities(s4, Side::FromSouth);
    let s5 = s4.side_processed(Side::FromSouth);
    lemma_side_processed_identities(s5, Side::FromEast);
    let s6 = s5.side_processed(Side::FromEast);
    lemma_side_processed_identities(s6, Side::FromWest);
}

/// A tick keeps the invariant `wf`: at most one green light, at most one
/// vehicle in the intersection, waiting vehicles on their own side, regular
/// speeds.
pub proof fn lemma_tick_keeps_invariant(s: IntersectionView)
    requires
        s.wf(),
    ensures
        s.tick().wf(),
{
    lemma_tick_phases(s);
}

/// A tick neither drops nor duplicates a vehicle: the number of vehicles
/// over all queues and the intersection stays the same.
pub proof fn lemma_tick_conserves_vehicles(s: IntersectionView)
    requires
        s.wf(),
    ensures
        s.tick().count() == s.count(),
{
    lemma_tick_phases(s);
}

/// Whatever the lights were, after a tick at most one of them is green.
pub proof fn lemma_tick_at_most_one_green(s: IntersectionView)
    ensures
        s.tick().green_count() <= 1,
{
}

/// An intersection that holds at most one vehicle still holds at most one
/// after a tick.
pub proof fn lemma_tick_slot_capacity(s: IntersectionView)
    requires
        s.in_intersection.len() <= 1,
    ensures
        s.tick().in_intersection.len() <= 1,
{
}

proof fn lemma_advanced_within(v: Vehicle, green: bool, bound: int)
    requires
        -bound <= v.x <= bound,
        -bound <= v.y <= bound,
        WINDOW_WIDTH <= bound <= POSITION_LIMIT,
        0 <= v.velocity < MAX_VELOCITY,
    ensures
        -(bound + MAX_VELOCITY) <= v.advanced(green).x <= bound + MAX_VELOCITY,
        -(bound + MAX_VELOCITY) <= v.advanced(green).y <= bound + MAX_VELOCITY,
{
}

proof fn lemma_within_in_bounds(q: Seq<Vehicle>, bound: int)
    requires
        all_within(q, bound),
        all_regular(q),
        bound <= 2 * POSITION_LIMIT,
    ensures
        all_in_bounds(q),
{
    assert forall|i: int| 0 <= i < q.len() implies (#[trigger] q[i]).in_bounds() by {
        assert(q[i].has_regular_speed());
    }
}

proof fn lemma_slot_advanced_within(s: IntersectionView)
    requires
        s.wf(),
        s.within(POSITION_LIMIT as int),
    ensures
        s.slot_advanced().within(POSITION_LIMIT + MAX_VELOCITY),
{
    let b = POSITION_LIMIT + MAX_VELOCITY;
    assert forall|q: Seq<Vehicle>| all_within(q, POSITION_LIMIT as int) implies all_within(q, b) by {
        assert forall|i: int| 0 <= i < q.len() implies -b <= (#[trigger] q[i]).x <= b && -b
            <= q[i].y <= b by {
            assert(-POSITION_LIMIT <= q[i].x <= POSITION_LIMIT);
        }
    }
    if s.in_intersection.len() > 0 {
        let w = s.in_intersection[0];
        assert(w.has_regular_speed());
        assert(-POSITION_LIMIT <= w.x <= POSITION_LIMIT && -POSITION_LIMIT <= w.y <= POSITION_LIMIT);
        lemma_advanced_within(w, true, POSITION_LIMIT as int);
        let v = w.advanced(true);
        if outside_box(v) {
            let e = exit_of(v.side, v.direction);
            let q = s.passed(e).push(v);
            assert(all_within(s.passed(e), b));
            assert forall|i: int| 0 <= i < q.len() implies -b <= (#[trigger] q[i]).x <= b && -b
                <= q[i].y <= b by {
                if i < s.passed(e).len() {
                    assert(q[i] == s.passed(e)[i]);
                }
            }
            assert(all_within(s.in_intersection.drop_first(), b));
        } else {
            let q = s.in_intersection.update(0, v);
            assert(q[0] == v);
        }
    }
}

/// How far the vehicle `v` in the intersection still has to go before it
/// leaves the box: the distance to the far edge along its exit, plus the
/// distance to its turning point while it has not reached it.
pub open spec fn distance_to_exit(v: Vehicle) -> int {
    let far_x = CENTER_X + VEHICLE_WIDTH + 1;
    let near_x = CENTER_X - 2 * VEHICLE_WIDTH - 1;
    let far_y = CENTER_Y + VEHICLE_HEIGHT + 1;
    let near_y = CENTER_Y - 2 * VEHICLE_HEIGHT - 1;
    match v.side {
        Side::FromNorth => {
            let turn = if v.y + v.velocity < CENTER_Y - VEHICLE_HEIGHT {
                (CENTER_Y - VEHICLE_HEIGHT) - v.y
            } else {
                0
            };
            match v.direction {
                Direction::Straight => far_y - v.y,
                Direction::Left => far_x - v.x + turn,
                Direction::Right => v.x - near_x + turn,
            }
        },
        Side::FromEast => {
            let turn = if v.x + v.velocity < CENTER_X - VEHICLE_WIDTH {
                (CENTER_X - VEHICLE_WIDTH) - v.x
            } else {
                0
            };
            match v.direction {
                Direction::Straight => far_x - v.x,
                Direction::Left => v.y - near_y + turn,
                Direction::Right => far_y - v.y + turn,
            }
        },
        Side::FromWest => {
            let turn = if v.x - v.velocity > CENTER_X {
                v.x - CENTER_X
            } else {
                0
            };
            match v.direction {
                Direction::Straight => v.x - near_x,
                Direction::Left => far_y - v.y + turn,
                Direction::Right => v.y - near_y + turn,
            }
        },
        Side::FromSouth => {
            let turn = if v.y - v.velocity > CENTER_Y {
                v.y - CENTER_Y
            } else {
                0
            };
            match v.direction {
                Direction::Straight => v.y - near_y,
                Direction::Left => v.x - near_x + turn,
                Direction::Right => far_x - v.x + turn,
            }
        },
    }
}

proof fn lemma_distance_decreases(v: Vehicle)
    requires
        v.has_regular_speed(),
        -POSITION_LIMIT <= v.x <= POSITION_LIMIT,
        -POSITION_LIMIT <= v.y <= POSITION_LIMIT,
    ensures
        !outside_box(v.advanced(true)) ==> 0 <= distance_to_exit(v.advanced(true))
            <= distance_to_exit(v) - v.velocity,
{
}

proof fn lemma_side_processed_slot(s: IntersectionView, side: Side)
    ensures
        s.in_intersection.len() > 0 ==> s.side_processed(side).in_intersection
            == s.in_intersection,
        s.side_processed(side).total_vehicles_processed == s.total_vehicles_processed,
        s.side_processed(side).passed_north == s.passed_north,
        s.side_processed(side).passed_south == s.passed_south,
        s.side_processed(side).passed_east == s.passed_east,
        s.side_processed(side).passed_west == s.passed_west,
{
}

proof fn lemma_after_slot(s: IntersectionView)
    ensures
        ({
            let t = s.departed_followed().waiting_processed();
            &&& s.in_intersection.len() > 0 ==> t.in_intersection == s.in_intersection
            &&& t.total_vehicles_processed == s.total_vehicles_processed
            &&& forall|c: Compass| #[trigger] t.passed(c) == followed(s.passed(c), true, true)
        }),
{
    let s3 = s.departed_followed();
    lemma_side_processed_slot(s3, Side::FromNorth);
    let s4 = s3.side_processed(Side::FromNorth);
    lemma_side_processed_slot(s4, Side::FromSouth);
    let s5 = s4.side_processed(Side::FromSouth);
    lemma_side_processed_slot(s5, Side::FromEast);
    let s6 = s5.side_processed(Side::FromEast);
    lemma_side_processed_slot(s6, Side::FromWest);
}

/// Light selection leaves at most one light green, whatever the lights
/// were before.
pub proof fn lemma_lights_at_most_one_green(s: IntersectionView)
    ensures
        s.lights_updated().green_count() <= 1,
{
}

proof fn lemma_lights_phase(s: IntersectionView)
    ensures
        s.lights_updated().in_intersection == s.in_intersection,
        s.lights_updated().total_vehicles_processed == s.total_vehicles_processed,
        s.lights_updated().passed_north == s.passed_north,
        s.lights_updated().passed_south == s.passed_south,
        s.lights_updated().passed_east == s.passed_east,
        s.lights_updated().passed_west == s.passed_west,
{
}

/// A vehicle that leaves the intersection is appended, as moved, to the
/// departed queue of its exit by the exit table, and to no other, and is
/// counted once; one that stays keeps its place in the slot.
pub proof fn lemma_slot_phase(s: IntersectionView)
    requires
        s.in_intersection.len() == 1,
    ensures
        ({
            let w = s.in_intersection[0].advanced(true);
            let e = exit_of(w.side, w.direction);
            let t = s.slot_advanced();
            &&& outside_box(w) ==> {
                &&& t.passed(e) == s.passed(e).push(w)
                &&& forall|c: Compass| c != e ==> #[trigger] t.passed(c) == s.passed(c)
                &&& t.total_vehicles_processed == s.total_vehicles_processed + 1
            }
            &&& !outside_box(w) ==> {
                &&& t.in_intersection.len() == 1
                &&& t.in_intersection[0] == w
                &&& forall|c: Compass| #[trigger] t.passed(c) == s.passed(c)
                &&& t.total_vehicles_processed == s.total_vehicles_processed
            }
        }),
{
}

proof fn lemma_tick_parts(s: IntersectionView)
    ensures
        ({
            let u = s.lights_updated().slot_advanced().departed_followed().waiting_processed();
            &&& s.tick().in_intersection == u.in_intersection
            &&& s.tick().total_vehicles_processed == u.total_vehicles_processed
            &&& forall|c: Compass| #[trigger] s.tick().passed(c) == u.passed(c)
        }),
{
}

/// The vehicle in the intersection is never dropped and always leaves: each
/// tick either counts it once and appends it to the departed queue of its
/// exit (and to no other), or keeps it in the intersection with its
/// `distance_to_exit` smaller by at least its speed and still non-negative,
/// so that it departs within `distance_to_exit / velocity` ticks, rounded
/// up.
pub proof fn lemma_slot_vehicle_departs(s: IntersectionView)
    requires
        s.wf(),
        s.in_bounds(),
        s.in_intersection.len() == 1,
    ensures
        ({
            let v = s.in_intersection[0];
            let t = s.tick();
            let e = exit_of(v.side, v.direction);
            ||| {
                &&& t.total_vehicles_processed == s.total_vehicles_processed + 1
                &&& t.passed(e).len() == s.passed(e).len() + 1
                &&& t.passed(e).last().side == v.side
                &&& t.passed(e).last().direction == v.direction
                &&& forall|c: Compass| c != e ==> #[trigger] t.passed(c).len() == s.passed(c).len()
            }
            ||| {
                &&& t.total_vehicles_processed == s.total_vehicles_processed
                &&& t.in_intersection.len() == 1
                &&& t.in_intersection[0].side == v.side
                &&& t.in_intersection[0].direction == v.direction
                &&& 0 <= distance_to_exit(t.in_intersection[0]) <= distance_to_exit(v)
                    - v.velocity
                &&& forall|c: Compass| #[trigger] t.passed(c).len() == s.passed(c).len()
            }
        }),
{
    let v = s.in_intersection[0];
    assert(v.has_regular_speed());
    assert(-POSITION_LIMIT <= v.x <= POSITION_LIMIT && -POSITION_LIMIT <= v.y <= POSITION_LIMIT);
    lemma_distance_decreases(v);
    let w = v.advanced(true);
    assert(w.side == v.side && w.direction == v.direction);
    let e = exit_of(v.side, v.direction);
    let s1 = s.lights_updated();
    lemma_lights_phase(s);
    assert(forall|c: Compass| #[trigger] s1.passed(c) == s.passed(c));
    let s2 = s1.slot_advanced();
    lemma_slot_phase(s1);
    lemma_after_slot(s2);
    lemma_tick_parts(s);
    let t = s.tick();
    assert forall|c: Compass| #[trigger] t.passed(c).len() == s2.passed(c).len() by {
        lemma_followed_same_vehicles(s2.passed(c), true, true);
    }
    if outside_box(w) {
        let q = s2.passed(e);
        assert(q.last() == w);
        lemma_followed_same_vehicles(q, true, true);
        assert(t.passed(e) == followed(q, true, true));
        assert(t.passed(e)[q.len() - 1].side == q[q.len() - 1].side);
    }
}

/// The intersection: four waiting queues, the slot for the one vehicle
/// crossing, four departed queues, one light per approach, and counters.
#[derive(Debug, Clone, PartialEq, Eq)]
pub struct Intersection {
    /// Vehicles waiting at the north light
    pub vehicles_waiting_north: Vec<Vehicle>,
    /// Vehicles waiting at the south light
    pub vehicles_waiting_south: Vec<Vehicle>,
    /// Vehicles waiting at the east light
    pub vehicles_waiting_east: Vec<Vehicle>,
    /// Vehicles waiting at the west light
    pub vehicles_waiting_west: Vec<Vehicle>,
    /// The vehicle crossing the intersection, if any
    pub vehicles_in_intersection: Vec<Vehicle>,
    /// Vehicles that left by the north exit
    pub vehicles_passed_north: Vec<Vehicle>,
    /// Vehicles that left by the south exit
    pub vehicles_passed_south: Vec<Vehicle>,
    /// Vehicles that left by the east exit
    pub vehicles_passed_east: Vec<Vehicle>,
    /// Vehicles that left by the west exit
    pub vehicles_passed_west: Vec<Vehicle>,
    /// Light of the north approach
    pub north_light: TrafficLight,
    /// Light of the south approach
    pub south_light: TrafficLight,
    /// Light of the east approach
    pub east_light: TrafficLight,
    /// Light of the west approach
    pub west_light: TrafficLight,
    /// Vehicles that have crossed the intersection
    pub total_vehicles_processed: usize,
    /// Ticks elapsed
    pub simulation_time: u32,
}

impl View for Intersection {
    type V = IntersectionView;

    open spec fn view(&self) -> IntersectionView {
        IntersectionView {
            waiting_north: self.vehicles_waiting_north@,
            waiting_south: self.vehicles_waiting_south@,
            waiting_east: self.vehicles_waiting_east@,
            waiting_west: self.vehicles_waiting_west@,
            in_intersection: self.vehicles_in_intersection@,
            passed_north: self.vehicles_passed_north@,
            passed_south: self.vehicles_passed_south@,
            passed_east: self.vehicles_passed_east@,
            passed_west: self.vehicles_passed_west@,
            north_light: self.north_light.state,
            south_light: self.south_light.state,
            east_light: self.east_light.state,
            west_light: self.west_light.state,
            total_vehicles_processed: self.total_vehicles_processed as nat,
            simulation_time: self.simulation_time as nat,
        }
    }
}

/// `v` has left the box around the centre of the intersection.
fn is_outside_box(v: &Vehicle) -> (r: bool)
    ensures
        r == outside_box(*v),
{
    v.x > CENTER_X + VEHICLE_WIDTH || v.x < CENTER_X - 2 * VEHICLE_WIDTH || v.y > CENTER_Y
        + VEHICLE_HEIGHT || v.y < CENTER_Y - 2 * VEHICLE_HEIGHT
}

/// Whether a new vehicle fits behind the rearmost one of `queue`.
pub fn room_behind(queue: &Vec<Vehicle>, side: Side) -> (r: bool)
    ensures
        r == has_room(queue@, side),
{
    if queue.len() == 0 {
        return true;
    }
    let last = queue[queue.len() - 1];
    match side {
        Side::FromEast => last.x >= SAFETY_DISTANCE,
        Side::FromNorth => last.y >= SAFETY_DISTANCE,
        Side::FromWest => last.x <= WINDOW_WIDTH - VEHICLE_WIDTH - SAFETY_DISTANCE,
        Side::FromSouth => last.y <= WINDOW_HEIGHT - VEHICLE_HEIGHT - SAFETY_DISTANCE,
    }
}

/// Whether every vehicle of `queue` lies within `bound` on both axes.
fn queue_within(queue: &Vec<Vehicle>, bound: i32) -> (r: bool)
    requires
        bound >= 0,
    ensures
        r == all_within(queue@, bound as int),
{
    let mut i: usize = 0;
    while i < queue.len()
        invariant
            bound >= 0,
            i <= queue@.len(),
            all_within(queue@.subrange(0, i as int), bound as int),
        decreases queue@.len() - i,
    {
        let v = queue[i];
        if v.x < -bound || v.x > bound || v.y < -bound || v.y > bound {
            assert(!all_within(queue@, bound as int)) by {
                assert(queue@[i as int] == v);
            }
            return false;
        }
        assert forall|j: int| 0 <= j < i + 1 implies -bound <= (#[trigger] queue@.subrange(
            0,
            i + 1,
        )[j]).x <= bound && -bound <= queue@.subrange(0, i + 1)[j].y <= bound by {
            if j < i {
                assert(queue@.subrange(0, i + 1)[j] == queue@.subrange(0, i as int)[j]);
            }
        }
        i = i + 1;
    }
    assert(queue@.subrange(0, i as int) =~= queue@);
    true
}

/// Whether every vehicle of `queue` has a regular speed and, where `side`
/// is given, entered from it.
fn queue_consistent(queue: &Vec<Vehicle>, side: Option<Side>) -> (r: bool)
    ensures
        r == (all_regular(queue@) && (side matches Some(sd) ==> all_from(queue@, sd))),
{
    let mut i: usize = 0;
    while i < queue.len()
        invariant
            i <= queue@.len(),
            all_regular(queue@.subrange(0, i as int)),
            side matches Some(sd) ==> all_from(queue@.subrange(0, i as int), sd),
        decreases queue@.len() - i,
    {
        let v = queue[i];
        let side_ok = match side {
            Some(sd) => v.side == sd,
            None => true,
        };
        if !(MIN_VELOCITY <= v.velocity && v.velocity < MAX_VELOCITY) || !side_ok {
            assert(queue@[i as int] == v);
            return false;
        }
        let ghost next = queue@.subrange(0, i + 1);
        assert forall|j: int| 0 <= j < i + 1 implies (#[trigger] next[j]).has_regular_speed()
            && (side matches Some(sd) ==> next[j].side == sd) by {
            if j < i {
                assert(next[j] == queue@.subrange(0, i as int)[j]);
            }
        }
        i = i + 1;
    }
    assert(queue@.subrange(0, i as int) =~= queue@);
    true
}

/// The side that the draw `d` (one of 0, 1, 2, 3) stands for.
pub open spec fn side_of_draw(d: int) -> Side {
    if d == 0 {
        Side::FromEast
    } else if d == 1 {
        Side::FromWest
    } else if d == 2 {
        Side::FromNorth
    } else {
        Side::FromSouth
    }
}

/// What a spawn from `side` did, going from `pre` to `post` with result `r`:
/// it succeeds exactly when there is room, and then appends one vehicle from
/// `side` at its spawn point with a regular speed; otherwise nothing changes.
pub open spec fn spawned(pre: IntersectionView, post: IntersectionView, side: Side, r: bool) -> bool {
    &&& r == has_room(pre.waiting(side), side)
    &&& r ==> {
        let v = post.waiting(side).last();
        &&& post == pre.with_waiting(side, pre.waiting(side).push(v))
        &&& v.side == side
        &&& (v.x as int, v.y as int) == spawn_point(side)
        &&& v.has_regular_speed()
    }
    &&& !r ==> post == pre
}

impl Intersection {
    /// Creates a new intersection with all lights red and no vehicles.
    pub fn new() -> (r: Self)
        ensures
            r@.wf(),
            r@.in_bounds(),
            r@.count() == 0,
            r@.green_count() == 0,
            r@.total_vehicles_processed == 0,
            r@.simulation_time == 0,
    {
        Intersection {
            vehicles_waiting_north: Vec::new(),
            vehicles_waiting_south: Vec::new(),
            vehicles_waiting_east: Vec::new(),
            vehicles_waiting_west: Vec::new(),
            vehicles_in_intersection: Vec::new(),
            vehicles_passed_north: Vec::new(),
            vehicles_passed_south: Vec::new(),
            vehicles_passed_east: Vec::new(),
            vehicles_passed_west: Vec::new(),
            north_light: TrafficLight::red(),
            south_light: TrafficLight::red(),
            east_light: TrafficLight::red(),
            west_light: TrafficLight::red(),
            total_vehicles_processed: 0,
            simulation_time: 0,
        }
    }

    /// Whether the invariant `wf` holds: at most one green light, at most one
    /// vehicle in the intersection, waiting vehicles on their own side, and
    /// regular speeds.
    pub fn is_valid(&self) -> (r: bool)
        ensures
            r == self@.wf(),
    {
        let greens: u32 = (if self.north_light.state == LightState::Green {
            1
        } else {
            0
        }) + (if self.south_light.state == LightState::Green {
            1
        } else {
            0
        }) + (if self.east_light.state == LightState::Green {
            1
        } else {
            0
        }) + (if self.west_light.state == LightState::Green {
            1
        } else {
            0
        });
        greens <= 1 && self.vehicles_in_intersection.len() <= 1 && queue_consistent(
            &self.vehicles_waiting_north,
            Some(Side::FromNorth),
        ) && queue_consistent(&self.vehicles_waiting_south, Some(Side::FromSouth))
            && queue_consistent(&self.vehicles_waiting_east, Some(Side::FromEast))
            && queue_consistent(&self.vehicles_waiting_west, Some(Side::FromWest))
            && queue_consistent(&self.vehicles_in_intersection, None) && queue_consistent(
            &self.vehicles_passed_north,
            None,
        ) && queue_consistent(&self.vehicles_passed_south, None) && queue_consistent(
            &self.vehicles_passed_east,
            None,
        ) && queue_consistent(&self.vehicles_passed_west, None)
    }

    /// Whether `update` may be called: coordinates within `POSITION_LIMIT`
    /// and room left in the counters.
    pub fn can_update(&self) -> (r: bool)
        ensures
            r == self@.in_bounds(),
    {
        self.simulation_time < u32::MAX && self.total_vehicles_processed < usize::MAX
            && queue_within(&self.vehicles_waiting_north, POSITION_LIMIT) && queue_within(
            &self.vehicles_waiting_south,
            POSITION_LIMIT,
        ) && queue_within(&self.vehicles_waiting_east, POSITION_LIMIT) && queue_within(
            &self.vehicles_waiting_west,
            POSITION_LIMIT,
        ) && queue_within(&self.vehicles_in_intersection, POSITION_LIMIT) && queue_within(
            &self.vehicles_passed_north,
            POSITION_LIMIT,
        ) && queue_within(&self.vehicles_passed_south, POSITION_LIMIT) && queue_within(
            &self.vehicles_passed_east,
            POSITION_LIMIT,
        ) && queue_within(&self.vehicles_passed_west, POSITION_LIMIT)
    }

    /// Performs a single tick of the whole simulation.
    pub fn update(&mut self)
        requires
            old(self)@.wf(),
            old(self)@.in_bounds(),
        ensures
            final(self)@ == old(self)@.tick(),
            final(self)@.wf(),
            final(self)@.count() == old(self)@.count(),
            final(self)@.all_identities() == old(self)@.all_identities(),
    {
        let ghost s0 = self@;
        proof {
            lemma_tick_keeps_invariant(s0);
            lemma_tick_conserves_vehicles(s0);
            lemma_tick_keeps_identities(s0);
        }
        self.update_traffic_lights();
        let ghost s1 = self@;
        proof {
            lemma_slot_advanced_within(s1);
            lemma_slot_advanced_keeps(s1);
        }
        self.process_intersection_vehicles();
        let ghost s2 = self@;
        proof {
            let b = POSITION_LIMIT + MAX_VELOCITY;
            lemma_within_in_bounds(s2.passed_north, b);
            lemma_within_in_bounds(s2.passed_south, b);
            lemma_within_in_bounds(s2.passed_east, b);
            lemma_within_in_bounds(s2.passed_west, b);
            lemma_within_in_bounds(s2.waiting_north, b);
            lemma_within_in_bounds(s2.waiting_south, b);
            lemma_within_in_bounds(s2.waiting_east, b);
            lemma_within_in_bounds(s2.waiting_west, b);
        }
        self.process_passed_vehicles();
        self.process_waiting_vehicles();
        self.simulation_time = self.simulation_time + 1;
    }

    /// Updates the traffic lights: a green light turns every light red; with
    /// all lights red, the longest waiting queue gets the green.
    fn update_traffic_lights(&mut self)
        ensures
            final(self)@ == old(self)@.lights_updated(),
    {
        let any_green = self.east_light.state == LightState::Green || self.west_light.state
            == LightState::Green || self.north_light.state == LightState::Green
            || self.south_light.state == LightState::Green;
        if any_green {
            self.east_light.state = LightState::Red;
            self.west_light.state = LightState::Red;
            self.north_light.state = LightState::Red;
            self.south_light.state = LightState::Red;
        } else {
            match pick_green(
                self.vehicles_waiting_east.len(),
                self.vehicles_waiting_west.len(),
                self.vehicles_waiting_north.len(),
                self.vehicles_waiting_south.len(),
            ) {
                Some(Side::FromEast) => self.east_light.state = LightState::Green,
                Some(Side::FromWest) => self.west_light.state = LightState::Green,
                Some(Side::FromNorth) => self.north_light.state = LightState::Green,
                Some(Side::FromSouth) => self.south_light.state = LightState::Green,
                None => {},
            }
        }
    }

    /// Moves the vehicle in the intersection; once it has left the box it is
    /// counted and handed to the departed queue of its exit.
    fn process_intersection_vehicles(&mut self)
        requires
            old(self)@.in_intersection.len() > 0 ==> old(self)@.in_intersection[0].in_bounds(),
            old(self)@.total_vehicles_processed < usize::MAX,
        ensures
            final(self)@ == old(self)@.slot_advanced(),
    {
        if self.vehicles_in_intersection.len() == 0 {
            return;
        }
        let mut vehicle = self.vehicles_in_intersection[0];
        vehicle.update_position(&TrafficLight::green());
        if is_outside_box(&vehicle) {
            self.vehicles_in_intersection.remove(0);
            self.total_vehicles_processed = self.total_vehicles_processed + 1;
            match exit_direction(vehicle.side, vehicle.direction) {
                Compass::North => self.vehicles_passed_north.push(vehicle),
                Compass::South => self.vehicles_passed_south.push(vehicle),
                Compass::East => self.vehicles_passed_east.push(vehicle),
                Compass::West => self.vehicles_passed_west.push(vehicle),
            }
            assert(self.vehicles_in_intersection@ =~= old(self)@.in_intersection.drop_first());
        } else {
            self.vehicles_in_intersection.set(0, vehicle);
        }
    }

    /// Moves every departed queue one car-following step.
    fn process_passed_vehicles(&mut self)
        requires
            all_in_bounds(old(self)@.passed_north),
            all_in_bounds(old(self)@.passed_south),
            all_in_bounds(old(self)@.passed_east),
            all_in_bounds(old(self)@.passed_west),
        ensures
            final(self)@ == old(self)@.departed_followed(),
    {
        let green = TrafficLight::green();
        follow_queue(&mut self.vehicles_passed_east, &green, true);
        follow_queue(&mut self.vehicles_passed_north, &green, true);
        follow_queue(&mut self.vehicles_passed_west, &green, true);
        follow_queue(&mut self.vehicles_passed_south, &green, true);
    }

    /// Processes the waiting queues, North, South, East, West.
    fn process_waiting_vehicles(&mut self)
        requires
            all_in_bounds(old(self)@.waiting_north),
            all_in_bounds(old(self)@.waiting_south),
            all_in_bounds(old(self)@.waiting_east),
            all_in_bounds(old(self)@.waiting_west),
        ensures
            final(self)@ == old(self)@.waiting_processed(),
    {
        let ghost s0 = self@;
        process_waiting_queue(
            &mut self.vehicles_waiting_north,
            &self.north_light,
            &mut self.vehicles_in_intersection,
        );
        assert(self@ == s0.side_processed(Side::FromNorth));
        let ghost s1 = self@;
        process_waiting_queue(
            &mut self.vehicles_waiting_south,
            &self.south_light,
            &mut self.vehicles_in_intersection,
        );
        assert(self@ == s1.side_processed(Side::FromSouth));
        let ghost s2 = self@;
        process_waiting_queue(
            &mut self.vehicles_waiting_east,
            &self.east_light,
            &mut self.vehicles_in_intersection,
        );
        assert(self@ == s2.side_processed(Side::FromEast));
        let ghost s3 = self@;
        process_waiting_queue(
            &mut self.vehicles_waiting_west,
            &self.west_light,
            &mut self.vehicles_in_intersection,
        );
        assert(self@ == s3.side_processed(Side::FromWest));
    }

    /// Appends `vehicle` to the waiting queue of its side if there is room
    /// behind the rearmost vehicle there; returns whether it did.
    pub fn spawn_vehicle(&mut self, vehicle: Vehicle) -> (r: bool)
        requires
            old(self)@.wf(),
            vehicle.has_regular_speed(),
        ensures
            final(self)@.wf(),
            r == has_room(old(self)@.waiting(vehicle.side), vehicle.side),
            final(self)@ == (if r {
                old(self)@.with_waiting(
                    vehicle.side,
                    old(self)@.waiting(vehicle.side).push(vehicle),
                )
            } else {
                old(self)@
            }),
            final(self)@.count() == old(self)@.count() + if r {
                1int
            } else {
                0int
            },
    {
        let ghost pre = self@;
        let queue = match vehicle.side {
            Side::FromNorth => &mut self.vehicles_waiting_north,
            Side::FromSouth => &mut self.vehicles_waiting_south,
            Side::FromEast => &mut self.vehicles_waiting_east,
            Side::FromWest => &mut self.vehicles_waiting_west,
        };
        if room_behind(queue, vehicle.side) {
            queue.push(vehicle);
            proof {
                let q = pre.waiting(vehicle.side).push(vehicle);
                assert forall|i: int| 0 <= i < q.len() implies (#[trigger] q[i]).side
                    == vehicle.side && q[i].has_regular_speed() by {
                    if i < q.len() - 1 {
                        assert(q[i] == pre.waiting(vehicle.side)[i]);
                    }
                }
            }
            true
        } else {
            false
        }
    }

    /// Spawns a vehicle with a random route and speed from `side`, if there
    /// is room.
    fn spawn_from(&mut self, side: Side) -> (r: bool)
        requires
            old(self)@.wf(),
        ensures
            final(self)@.wf(),
            spawned(old(self)@, final(self)@, side, r),
            final(self)@.count() == old(self)@.count() + if r {
                1int
            } else {
                0int
            },
    {
        let vehicle = Vehicle::new(side);
        let r = self.spawn_vehicle(vehicle);
        if r {
            assert(self@.waiting(side).last() == vehicle);
        }
        r
    }

    /// Creates a new vehicle from the east if there is room.
    pub fn spawn_vehicle_from_east(&mut self) -> (r: bool)
        requires
            old(self)@.wf(),
        ensures
            final(self)@.wf(),
            spawned(old(self)@, final(self)@, Side::FromEast, r),
            final(self)@.count() == old(self)@.count() + if r {
                1int
            } else {
                0int
            },
    {
        self.spawn_from(Side::FromEast)
    }

    /// Creates a new vehicle from the west if there is room.
    pub fn spawn_vehicle_from_west(&mut self) -> (r: bool)
        requires
            old(self)@.wf(),
        ensures
            final(self)@.wf(),
            spawned(old(self)@, final(self)@, Side::FromWest, r),
            final(self)@.count() == old(self)@.count() + if r {
                1int
            } else {
                0int
            },
    {
        self.spawn_from(Side::FromWest)
    }

    /// Creates a new vehicle from the north if there is room.
    pub fn spawn_vehicle_from_north(&mut self) -> (r: bool)
        requires
            old(self)@.wf(),
        ensures
            final(self)@.wf(),
            spawned(old(self)@, final(self)@, Side::FromNorth, r),
            final(self)@.count() == old(self)@.count() + if r {
                1int
            } else {
                0int
            },
    {
        self.spawn_from(Side::FromNorth)
    }

    /// Creates a new vehicle from the south if there is room.
    pub fn spawn_vehicle_from_south(&mut self) -> (r: bool)
        requires
            old(self)@.wf(),
        ensures
            final(self)@.wf(),
            spawned(old(self)@, final(self)@, Side::FromSouth, r),
            final(self)@.count() == old(self)@.count() + if r {
                1int
            } else {
                0int
            },
    {
        self.spawn_from(Side::FromSouth)
    }

    /// Creates a new vehicle from the side that `draw` stands for (see
    /// `side_of_draw`), if there is room there.
    pub fn spawn_vehicle_from_draw(&mut self, draw: i32) -> (r: bool)
        requires
            old(self)@.wf(),
            0 <= draw < 4,
        ensures
            final(self)@.wf(),
            spawned(old(self)@, final(self)@, side_of_draw(draw as int), r),
            final(self)@.count() == old(self)@.count() + if r {
                1int
            } else {
                0int
            },
    {
        if draw == 0 {
            self.spawn_vehicle_from_east()
        } else if draw == 1 {
            self.spawn_vehicle_from_west()
        } else if draw == 2 {
            self.spawn_vehicle_from_north()
        } else {
            self.spawn_vehicle_from_south()
        }
    }

    /// Creates a new vehicle from a side drawn uniformly at random, if there
    /// is room there.
    pub fn spawn_vehicle_random(&mut self) -> (r: bool)
        requires
            old(self)@.wf(),
        ensures
            final(self)@.wf(),
            exists|d: int| 0 <= d < 4 && spawned(old(self)@, final(self)@, side_of_draw(d), r),
            final(self)@.count() == old(self)@.count() + if r {
                1int
            } else {
                0int
            },
    {
        let draw = random_in(0, 4);
        let r = self.spawn_vehicle_from_draw(draw);
        assert(0 <= draw as int && (draw as int) < 4);
        r
    }

    /// Returns (waiting, in the intersection, departed, total processed,
    /// elapsed ticks).
    pub fn stats(&self) -> (r: (usize, usize, usize, usize, usize))
        requires
            self@.count() <= usize::MAX,
        ensures
            r.0 == self@.waiting_north.len() + self@.waiting_south.len()
                + self@.waiting_east.len() + self@.waiting_west.len(),
            r.1 == self@.in_intersection.len(),
            r.2 == self@.passed_north.len() + self@.passed_south.len() + self@.passed_east.len()
                + self@.passed_west.len(),
            r.3 == self.total_vehicles_processed,
            r.4 == self.simulation_time,
    {
        let waiting = self.vehicles_waiting_east.len() + self.vehicles_waiting_west.len()
            + self.vehicles_waiting_north.len() + self.vehicles_waiting_south.len();
        let passing = self.vehicles_in_intersection.len();
        let passed = self.vehicles_passed_east.len() + self.vehicles_passed_west.len()
            + self.vehicles_passed_north.len() + self.vehicles_passed_south.len();
        (waiting, passing, passed, self.total_vehicles_processed, self.simulation_time as usize)
    }
}

} // verus!
