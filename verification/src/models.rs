//! The field primitives and the record catalog.

pub mod data_types;
pub mod messages;
