//! Adaptive traffic-signal control core.
//!
//! The crate models the decision layer of an urban traffic manager:
//! per-intersection signal agents that adjust their green-phase duration
//! from queue telemetry, per-lane road-segment monitors that raise
//! congestion events from a saturation ratio, and a coordination manager
//! that drives one deterministic tick across all of them.
//!
//! All real-valued telemetry (speeds, flow rates, weights) is carried as
//! fixed-point integers in thousandths of the simulator's unit, so every
//! contract speaks of exact values.

pub mod manager;
pub mod segment;
pub mod signal;
pub mod telemetry;
