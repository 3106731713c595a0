//! Document-oriented stages, grouped by the direction they work in.

pub mod from_response;
