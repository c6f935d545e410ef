//! The three field primitives.

pub mod alpha;
pub mod numeric;
pub mod price;
