//! Core of a live transcription pipeline: sample normalization, the
//! recognition-driver decision logic, and a bounded transcript FIFO.

pub mod normalize;
pub mod transcript;
pub mod driver;
