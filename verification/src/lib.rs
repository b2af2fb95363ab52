//! A verified model of vehicle flow through a four-way signalized
//! intersection: vehicles spawn from the four approach edges, advance each
//! tick, stop for red lights and for vehicles ahead, and a traffic-light
//! controller adapts its phase to queue congestion.

pub mod geometry;
pub mod input;
pub mod lights;
pub mod motion;
pub mod rng;
pub mod sim;
pub mod vehicle;
