//! A four-way road intersection simulated tick by tick: approach queues with
//! car-following, a single-vehicle intersection slot, traffic lights chosen
//! by a longest-queue-first scheduler, and departed queues per exit.

pub mod config;
pub mod types;
pub mod vehicle;
pub mod traffic;
mod random;

pub use traffic::Intersection;
pub use types::{Compass, Direction, LightState, Side, TrafficLight, Travel};
pub use vehicle::Vehicle;
