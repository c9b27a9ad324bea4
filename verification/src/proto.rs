//! The forms in which requests travel.

pub mod star_types;
