//! Driver for the nRF5x true random number generator.
//!
//! The peripheral produces one random byte per "value ready" event. The
//! driver collects four such bytes into a 32-bit word, least significant
//! byte first, and hands each finished word to a single registered consumer
//! through a one-shot iterator.

pub mod hardware;
pub mod state;
pub mod trng;

pub use hardware::{InterruptLine, RngRegisters};
pub use state::GenerationState;
pub use trng::{Client, Continue, Outcome, Trng, TrngIter};
