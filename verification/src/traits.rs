//! The contracts that field primitives and records implement.

pub mod data_type;
pub mod message;
