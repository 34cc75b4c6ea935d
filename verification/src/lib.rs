//! Rules of a two-player Pong match: arena layout, collision response,
//! scoring, and the round and match state machines.
//!
//! The crate holds no rendering, input or audio code. A front end feeds it
//! plain values (key states, comparison results, elapsed nanoseconds) and
//! carries out what the functions here return.

pub mod arena;
pub mod collision;
pub mod countdown;
pub mod match_;
pub mod scored;
pub mod systems;
pub mod timer;
