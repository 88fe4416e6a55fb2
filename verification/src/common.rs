//! Shared pieces: the error type, the clock, the data paths, the views of
//! texts and sequences, and searching in sequences.

pub mod clock;
pub mod dir;
pub mod errors;
pub mod selection;
pub mod text;
