//! A discrete-event factory line simulator.
//!
//! The library models a network of production machines joined by conveyor
//! belts.  Each machine is a three-stage state machine (input, processing,
//! output) with per-stage clocks, a fault table and a debounced observable
//! status; belts move items cell by cell at their own rate.  The whole graph
//! advances in fixed time steps driven by a monotonic clock, under a global
//! run/pause/stop/exit state, and is projected into an OPC UA address space.
#![allow(non_snake_case)]

pub mod arith;
pub mod belt;
pub mod factory;
pub mod json;
pub mod machine;
pub mod opc;
pub mod registers;
pub mod sim;
pub mod text;
