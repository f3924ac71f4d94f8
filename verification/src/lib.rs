//! Traffic through a four-way, signal-free intersection.
//!
//! Vehicles enter on one of four approach roads, travel in an inbound lane,
//! commit to their turn at the intersection boundary, and leave on an
//! outbound lane until they are out of sight.

pub mod constants;
pub mod lanes;
pub mod population;
pub mod random;
pub mod turns;
pub mod vehicles;
