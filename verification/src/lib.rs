//! Synthesis of builder types.
//!
//! From the description of a record type (its name and its typed fields, in
//! declaration order) the synthesizer derives the shape of a companion builder
//! and emits its source text. The behaviour that every emitted builder has at
//! run time is given once, as a builder whose slots hold values of any one
//! type, and once
//! more for the `Command` record, written out by hand.

pub mod command;
pub mod descriptor;
pub mod emit;
pub mod ident;
pub mod naming;
pub mod plan;
pub mod runtime;
pub mod search;
pub mod synth;
