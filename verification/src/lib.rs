//! A deterministic vote-aggregation core for a per-turn decision agent.
//!
//! Independent producers (one per minigame subsystem) each submit a weight
//! vector over a fixed set of four actions; the aggregator reduces the
//! collected ballots to a single winning action by iterative weighted
//! instant-runoff: normalize each ballot, look for a majority among the
//! participating ballots, otherwise eliminate the weakest action and repeat.

pub mod action;
pub mod game;
pub mod heuristics;
pub mod laws;
pub mod tally;
