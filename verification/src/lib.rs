//! The core of a synthesizer oscillator, in fixed-point arithmetic.
//!
//! An [`Oscillator`] owns a phase, a waveform selector, a warble amount and
//! two envelopes.  Sample by sample it resolves its frequency, moves its
//! phase on and scales the amplitude of its shape.  What belongs to others
//! (interpolating an envelope, converting between pitch units, drawing a
//! random number, evaluating a shape) it asks for, one [`Query`] at a time.
pub mod envelope;
pub mod error;
pub mod fixed;
pub mod frequency;
pub mod laws;
pub mod model;
pub mod oscillator;
pub mod query;
pub mod run;
pub mod sampling;
pub mod waveform;

pub use crate::envelope::Envelope;
pub use crate::envelope::Point;
pub use crate::error::Error;
pub use crate::fixed::Fixed;
pub use crate::fixed::Wide;
pub use crate::frequency::FreqStep;
pub use crate::frequency::Resolution;
pub use crate::oscillator::Oscillator;
pub use crate::query::Query;
pub use crate::sampling::AmpStep;
pub use crate::sampling::Sampling;
pub use crate::sampling::Stage;
pub use crate::waveform::Waveform;
