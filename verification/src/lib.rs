//! A fixed-capacity sliding-window signal analyser.
//!
//! For each sample of a stream the analyser updates a window of recent
//! history and decides, from the variance of that window, between silence and
//! a synthesized corrective value. The window and the decision live here and
//! are proved; all numbers cross the boundary as binary64 bit patterns, and
//! the floating-point arithmetic between the two steps belongs to the caller.
//!
//! - [`binary64`]: classification and ordering of bit patterns.
//! - [`window`]: the sliding window as a function of the stream, and its laws.
//! - [`v2k_buffer`]: the buffer itself.
//! - [`harmonics`]: the fixed prime basis of the synthesized signal.

pub mod binary64;
pub mod harmonics;
pub mod v2k_buffer;
pub mod window;

pub use harmonics::prime_harmonics;
pub use v2k_buffer::{ConfigError, Regime, V2KBuffer};
