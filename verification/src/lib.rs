//! Control core of a small noise-making toy: an LED trail animation, a
//! square-wave tone driver, a frequency scheduler and a pseudo-random source.
//!
//! Every component is a plain state machine. A call takes the component by
//! exclusive reference, changes its state and hands back what the hardware is
//! to be told, so that the caller, holding the peripherals inside its critical
//! section, only has to carry the answer out.

pub mod display;
pub mod machine;
pub mod notes;
pub mod rand;
pub mod speaker;
