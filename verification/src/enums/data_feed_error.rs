//! The error taxonomy of the codec.

use vstd::prelude::*;

verus! {

/// Everything that constructing, validating, encoding or decoding can report.
///
/// Each variant carries the offending value, so that a caller can build a
/// precise diagnostic from it.
#[derive(Debug, PartialEq, Eq)]
pub enum DataFeedError {
    /// A character or byte of an alpha field lies outside the allowed set.
    NonISO88591Value(char),
    /// A numeric field has a width outside {1, 2, 4, 8, 16}, or its value does
    /// not fit the width. The payload is the width.
    InvalidNumericSize(usize),
    /// A buffer has not the fixed size of its record type: `(expected, actual)`.
    InvalidMessageSize(usize, usize),
    /// The tag of a record is not the one of its type: `(expected, actual)`.
    InvalidMessageType(char, char),
    /// A side code is not one the record type admits.
    InvalidSideValue(char),
    /// An exchange order type is not a union of the four known flags.
    InvalidExchangeOrderTypeValue(u128),
    /// A lot type is not one of 0 to 4.
    InvalidLotTypeValue(u128),
    /// A financial product code is not one of 1, 3, 5, 11.
    InvalidFinancialProductValue(u128),
    /// The four leg ratios of a combination do not sum to 1.
    InvalidLegRatioValues(u128, u128, u128, u128),
    /// An occurred-at-cross flag is neither `N` nor `Y`.
    InvalidOccurredAtCrossValue(char),
    /// A printable flag is neither `N` nor `Y`.
    InvalidPrintableValue(char),
    /// An event code is neither `O` nor `C`.
    InvalidEventCodeValue(char),
    /// A violated internal invariant, described in words.
    Other(String),
}

} // verus!
