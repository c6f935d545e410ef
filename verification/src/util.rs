//! Buffer access and the mathematical model of the wire image.

pub mod big_endian;
pub mod buffer_utils;
pub mod latin1;
