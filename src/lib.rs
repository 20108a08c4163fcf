//! Classifies a file path as a programming language or file kind, first by
//! reserved file names and then by file extension.

pub mod language;
pub mod path;
pub mod classify;
