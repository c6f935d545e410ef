//! The contract of a record of the catalog.

use crate::enums::data_feed_error::DataFeedError;
use vstd::prelude::*;

verus! {

/// A record type of the catalog: a fixed arrangement of field primitives
/// with a fixed wire size and its own rules on field values.
pub trait TMessage {
    /// The number of bytes that every record of this type takes on the wire.
    spec fn wire_size() -> usize;

    /// The wire image of the record: the images of its fields, in order.
    spec fn encoding(&self) -> Seq<u8>;

    /// What decoding a buffer of `wire_size()` bytes gives: the first
    /// failure among the fields, read in order, then the verdict of the
    /// rules on the record that the fields make.
    spec fn decoding(bytes: Seq<u8>) -> Result<Self, DataFeedError> where Self: Sized;

    /// The verdict of the type's rules on the field values: the first rule
    /// that is broken, with the offending value.
    spec fn field_check(&self) -> Result<(), DataFeedError>;

    /// Encodes the record into a buffer of `SIZE` bytes. Any `SIZE` but the
    /// type's wire size is refused.
    fn to_bin<const SIZE: usize>(&self) -> (r: Result<[u8; SIZE], DataFeedError>)
        ensures
            SIZE != Self::wire_size() ==> r == Err::<[u8; SIZE], DataFeedError>(
                DataFeedError::InvalidMessageSize(Self::wire_size(), SIZE),
            ),
            SIZE == Self::wire_size() ==> r is Ok && r->Ok_0@ == self.encoding(),
    ;

    /// Decodes a record from a buffer of `SIZE` bytes. Any `SIZE` but the
    /// type's wire size is refused.
    fn from_bin<const SIZE: usize>(binary_data: &[u8; SIZE]) -> (r: Result<
        Self,
        DataFeedError,
    >) where Self: Sized
        ensures
            SIZE != Self::wire_size() ==> r == Err::<Self, DataFeedError>(
                DataFeedError::InvalidMessageSize(Self::wire_size(), SIZE),
            ),
            SIZE == Self::wire_size() ==> r == Self::decoding(binary_data@),
    ;

    /// Checks the field values against the rules of the type.
    fn validate_fields(&self) -> (r: Result<(), DataFeedError>)
        ensures
            r == self.field_check(),
    ;
}

} // verus!
