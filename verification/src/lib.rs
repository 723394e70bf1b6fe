//! Decision logic of a guitar tuner: ordering of measured levels, pitch
//! search over spectra and difference functions, note naming, tuning
//! verdicts, framing of the audio stream and the choice of an input
//! configuration.
pub mod order;
pub mod pitch;
pub mod tuning;
pub mod framing;
pub mod device;
pub mod display;
