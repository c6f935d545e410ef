//! Fixed-length text fields.

use crate::enums::data_feed_error::DataFeedError;
use crate::traits::data_type::TDataType;
use crate::util::latin1::{
    all_latin1, all_printable, all_printable_chars, array_of, bytes_to_chars, chars_to_bytes,
    first_non_latin1, first_unprintable, fits_one_byte, is_first_non_latin1, is_latin1,
    lemma_array_of, lemma_array_of_view, lemma_first_non_latin1,
    lemma_printable_bytes_round_trip, lemma_printable_round_trip,
};
use vstd::prelude::*;

verus! {

/// A text field of exactly `SIZE` characters.
///
/// A value is well formed if every character is an ISO-8859-1 character;
/// `new` returns no other value.
#[derive(Debug, Clone, Copy, PartialEq, Eq)]
pub struct Alpha<const SIZE: usize> {
    pub value: [char; SIZE],
}

impl<const SIZE: usize> View for Alpha<SIZE> {
    type V = Seq<char>;

    open spec fn view(&self) -> Seq<char> {
        self.value@
    }
}

impl<const SIZE: usize> Alpha<SIZE> {
    /// Every character is an ISO-8859-1 character.
    pub open spec fn wf(&self) -> bool {
        all_latin1(self@)
    }

    /// Every character is printable ASCII: the field survives the wire.
    pub open spec fn printable(&self) -> bool {
        all_printable_chars(self@)
    }

    /// The `SIZE` bytes that stand for the field on the wire.
    pub open spec fn wire_image(&self) -> Seq<u8> {
        chars_to_bytes(self@)
    }

    /// What validation says of `text`: the first character that is no
    /// ISO-8859-1 character is reported.
    pub open spec fn check(text: Seq<char>) -> Result<(), DataFeedError> {
        if all_latin1(text) {
            Ok(())
        } else {
            Err(DataFeedError::NonISO88591Value(first_non_latin1(text)))
        }
    }

    /// What `new` returns for `value`.
    pub open spec fn spec_new(value: [char; SIZE]) -> Result<Self, DataFeedError> {
        match Self::check(value@) {
            Ok(_) => Ok(Alpha { value }),
            Err(e) => Err(e),
        }
    }

    /// What decoding the `SIZE` bytes `bytes` gives: the text they stand for,
    /// or the first byte that is not printable ASCII.
    pub open spec fn decoding(bytes: Seq<u8>) -> Result<Self, DataFeedError> {
        if all_printable(bytes) {
            Ok(Alpha { value: array_of::<SIZE>(bytes_to_chars(bytes)) })
        } else {
            Err(DataFeedError::NonISO88591Value(first_unprintable(bytes) as char))
        }
    }

    /// Makes a field of the given characters, or reports the first of them
    /// that is no ISO-8859-1 character.
    pub fn new(value: [char; SIZE]) -> (r: Result<Self, DataFeedError>)
        ensures
            r == Self::spec_new(value),
            r is Ok <==> all_latin1(value@),
            r matches Ok(a) ==> a.value == value && a.wf(),
            r matches Err(e) ==> e is NonISO88591Value,
    {
        let alpha = Alpha { value };
        match alpha.validate() {
            Ok(_) => Ok(alpha),
            Err(e) => Err(e),
        }
    }

    /// A printable field is well formed, and decoding its wire image gives the
    /// field back.
    pub proof fn lemma_decode_encode(self)
        requires
            self.printable(),
        ensures
            self.wf(),
            self.wire_image().len() == SIZE,
            Self::decoding(self.wire_image()) == Ok::<Self, DataFeedError>(self),
    {
        lemma_printable_round_trip(self@);
        lemma_array_of_view::<SIZE>(self.value);
    }

    /// Where `SIZE` bytes decode, the field is printable and its wire image
    /// is those bytes.
    pub proof fn lemma_encode_decode(bytes: Seq<u8>)
        requires
            bytes.len() == SIZE,
            Self::decoding(bytes) is Ok,
        ensures
            Self::decoding(bytes)->Ok_0.printable(),
            Self::decoding(bytes)->Ok_0.wf(),
            Self::decoding(bytes)->Ok_0.wire_image() == bytes,
    {
        lemma_printable_bytes_round_trip(bytes);
        lemma_array_of::<SIZE>(bytes_to_chars(bytes));
        lemma_printable_round_trip(bytes_to_chars(bytes));
    }
}

impl<const SIZE: usize> TDataType for Alpha<SIZE> {
    open spec fn validity(&self) -> Result<(), DataFeedError> {
        Self::check(self@)
    }

    fn validate(&self) -> (r: Result<(), DataFeedError>) {
        let mut i: usize = 0;
        while i < SIZE
            invariant
                i <= SIZE,
                forall|j: int| 0 <= j < i ==> is_latin1(#[trigger] self.value@[j]),
            decreases SIZE - i,
        {
            let c = self.value[i];
            if !fits_one_byte(c) {
                proof {
                    assert(is_first_non_latin1(self@, i as int));
                    lemma_first_non_latin1(self@, i as int);
                }
                return Err(DataFeedError::NonISO88591Value(c));
            }
            i += 1;
        }
        Ok(())
    }
}

} // verus!
