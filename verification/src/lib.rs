//! A verified model of a unidirectional-dataflow ("Elm architecture") runtime.
//!
//! A user-defined state value is mutated only through an ordered, FIFO queue of
//! discrete actions. Every mutation is one application of a pure, total
//! transition function to the committed state and the oldest pending action;
//! reads always observe a fully committed state. The [`model`] module holds the
//! generic runtime; the [`tea`] module instantiates it for a tea-brewing
//! state machine.

pub mod model;
pub mod tea;
