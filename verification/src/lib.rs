//! A discrete-time atmosphere/material simulation engine.
//!
//! A tree of sealed containers holds gas, fluid, and solid reservoirs.
//! Pipes exchange gas between containers under per-tick bandwidth and
//! conservation constraints, and chemical reactions consume and produce
//! matter subject to an atom-balance invariant checked at registration
//! time. Each tick applies every registered reaction (skipping those that
//! would drive a reservoir negative) and then every pipe flow, using exact
//! integer arithmetic with widened intermediates.

pub mod engine;
pub mod flow;
pub mod laws;
pub mod quantity;
pub mod recipes;
pub mod reaction;
