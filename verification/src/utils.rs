//! Small helpers shared by the rest of the library.

pub mod string;
