//! A codec for a fixed-layout binary market-data feed.
//!
//! Every wire record is a block of bytes with a one-character tag in front
//! and a size that its type fixes. The crate has four parts:
//!
//! - `models::data_types`: the field primitives `Alpha` (fixed-length text),
//!   `Numeric` (unsigned integer of a fixed width) and `Price` (signed 32-bit
//!   number), each with a constructor that validates;
//! - `util::buffer_utils`: functions that read and write a primitive at a
//!   byte offset of a buffer;
//! - `traits`: what every primitive (`TDataType`) and every record
//!   (`TMessage`) offers;
//! - `models::messages`: the record catalog, one type per kind of record,
//!   with `new`, `to_bin`, `from_bin` and `validate_fields`.
//!
//! Every executable function has a contract over a mathematical model of the
//! wire image: `util::big_endian` for numbers, `util::latin1` for text. For
//! each record type the model gives `encoding` and `decoding` as functions of
//! sequences of bytes, and the type's lemmas show that the two invert each
//! other.

pub mod enums;
pub mod global_constants;
pub mod models;
pub mod traits;
pub mod util;
