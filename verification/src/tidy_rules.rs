//! The rules that score a file against the whole set of files and the clock.
pub mod duplicated;
pub mod perished;
