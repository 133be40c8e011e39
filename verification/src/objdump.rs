//! Listings as `objdump` prints them: lines, the patterns that tell them
//! apart, and the instructions on them.

pub mod line;
pub mod pattern;
pub mod x8664_att;
