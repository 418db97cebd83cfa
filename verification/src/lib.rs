//! The rules of a rock-paper-scissors hand cannon game, kept apart from the
//! engine that draws it: sprite animation, timed lifetimes, the hand cycle and
//! the cannon's controller, each as a function on plain values with a contract.

pub mod animations;
pub mod entity_gc;
pub mod hand;
pub mod hand_cannon;
pub mod timer;
