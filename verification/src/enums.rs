//! Enumerations shared by the whole codec.

pub mod data_feed_error;
