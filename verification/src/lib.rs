//! Verified decision core for autonomous non-player characters.
//!
//! Each simulation tick, an agent runs a fixed, priority-ordered tree of
//! decision procedures over its own mutable state and a read-only snapshot
//! of the world: perception intake, target acquisition, combat engagement,
//! flee and pursuit logic, and a multi-phase trade and dialogue protocol.
//! The host owns rendering, networking, pathfinding and entity storage; it
//! hands the core plain values (fixed-point positions, integer clocks, an
//! explicit pseudorandom source) and applies the intents and events the core
//! emits after the tick completes.

pub mod world;

pub mod rng;

pub mod compass;

pub mod memory;

pub mod trade;

pub mod consts;

pub mod events;

pub mod control;

pub mod agent;

pub mod target;

pub mod pet;

pub mod combat;

pub mod trading;

pub mod dialogue;

pub mod idle;

pub mod tree;

pub mod anim;
