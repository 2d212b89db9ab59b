//! Core of an orbital-mechanics visualization: a physics/input simulation
//! loop and a render loop, paced independently and coupled only through a
//! single-slot latest-value channel and the quit flag carried in each
//! published snapshot.
//!
//! Everything here is plain integer arithmetic so that every state
//! transition is an exact mathematical function: times are nanoseconds,
//! world coordinates are fixed-point micro-units, and orbit angles are
//! micro-turns.  Window and rendering collaborators live outside this
//! library and only exchange plain values with it.

pub mod camera;
pub mod channel;
pub mod input;
pub mod metrics;
pub mod orbit;
pub mod pace;
pub mod render;
pub mod sim;
pub mod snapshot;
