//! Formats the track that a desktop media session reports as one line of text.

pub mod duration;
pub mod laws;
pub mod media;
pub mod text;
