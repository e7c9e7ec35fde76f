//! Timing and sequencing logic of a fixed-cycle intersection: traffic-light
//! phase schedulers, retriggerable pulse timers and the per-tick controller
//! that ties them to a pedestrian call and a light-sensor gate.
pub mod controller;
pub mod gate;
pub mod light;
pub mod timer;
