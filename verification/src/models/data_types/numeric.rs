//! Fixed-width unsigned integer fields.

use crate::enums::data_feed_error::DataFeedError;
use crate::traits::data_type::TDataType;
use crate::util::big_endian::{
    be_bytes, be_value, lemma_be_bytes_of_be_value, lemma_be_value_bound,
    lemma_be_value_of_be_bytes, lemma_div_pow256_step, lemma_pow256_values, pow256,
};
use vstd::prelude::*;

verus! {

/// The widths, in bytes, that a numeric field may have.
pub const VALID_NUMERIC_SIZES: [usize; 5] = [1, 2, 4, 8, 16];

/// Whether `size` is a width that a numeric field may have.
pub open spec fn is_valid_numeric_size(size: usize) -> bool {
    size == 1 || size == 2 || size == 4 || size == 8 || size == 16
}

/// The valid widths are the entries of `VALID_NUMERIC_SIZES`.
pub proof fn lemma_valid_numeric_sizes(size: usize)
    ensures
        is_valid_numeric_size(size) <==> VALID_NUMERIC_SIZES@.contains(size),
{
    let sizes = VALID_NUMERIC_SIZES@;
    assert(sizes[0] == 1 && sizes[1] == 2 && sizes[2] == 4 && sizes[3] == 8 && sizes[4] == 16);
}

/// Tells whether `size` is a width that a numeric field may have.
pub fn valid_numeric_size(size: usize) -> (r: bool)
    ensures
        r == is_valid_numeric_size(size),
{
    size == 1 || size == 2 || size == 4 || size == 8 || size == 16
}

/// An unsigned integer field that takes `SIZE` bytes on the wire.
///
/// A value is well formed if `SIZE` is one of 1, 2, 4, 8, 16 and the number
/// fits `SIZE` bytes; `new` returns no other value.
#[derive(Debug, Clone, Copy, PartialEq, Eq)]
pub struct Numeric<const SIZE: usize> {
    pub value: u128,
}

impl<const SIZE: usize> View for Numeric<SIZE> {
    type V = nat;

    open spec fn view(&self) -> nat {
        self.value as nat
    }
}

impl<const SIZE: usize> Numeric<SIZE> {
    /// Whether a field of this width can hold `value`.
    pub open spec fn fits(value: u128) -> bool {
        is_valid_numeric_size(SIZE) && value < pow256(SIZE as nat)
    }

    /// The width is valid and the number fits it.
    pub open spec fn wf(&self) -> bool {
        Self::fits(self.value)
    }

    /// The `SIZE` bytes that stand for the field on the wire: the number in
    /// big-endian order.
    pub open spec fn wire_image(&self) -> Seq<u8> {
        be_bytes(self@, SIZE as nat)
    }

    /// What validation says of `value` at this width.
    pub open spec fn check(value: u128) -> Result<(), DataFeedError> {
        if Self::fits(value) {
            Ok(())
        } else {
            Err(DataFeedError::InvalidNumericSize(SIZE))
        }
    }

    /// What `new` returns for `value`.
    pub open spec fn spec_new(value: u128) -> Result<Self, DataFeedError> {
        match Self::check(value) {
            Ok(_) => Ok(Numeric { value }),
            Err(e) => Err(e),
        }
    }

    /// What decoding the `SIZE` bytes `bytes` gives: the number they spell in
    /// big-endian order, if the width is valid.
    pub open spec fn decoding(bytes: Seq<u8>) -> Result<Self, DataFeedError> {
        if is_valid_numeric_size(SIZE) {
            Ok(Numeric { value: be_value(bytes) as u128 })
        } else {
            Err(DataFeedError::InvalidNumericSize(SIZE))
        }
    }

    /// Makes a field of the given number, or reports the width if the width
    /// is not valid or the number does not fit it.
    pub fn new(value: u128) -> (r: Result<Self, DataFeedError>)
        ensures
            r == Self::spec_new(value),
            r is Ok <==> Self::fits(value),
            r matches Ok(n) ==> n.value == value && n.wf(),
            r matches Err(e) ==> e == DataFeedError::InvalidNumericSize(SIZE),
    {
        let numeric = Numeric { value };
        match numeric.validate() {
            Ok(_) => Ok(numeric),
            Err(e) => Err(e),
        }
    }

    /// The big-endian bytes of the number, as many as the field is wide. A
    /// number that does not fit loses its high-order part.
    pub fn to_be_bytes(&self) -> (bytes: [u8; SIZE])
        ensures
            bytes@ == self.wire_image(),
    {
        let mut bytes = [0u8; SIZE];
        let mut rest: u128 = self.value;
        let mut done: usize = 0;
        assert(pow256(0) == 1);
        while done < SIZE
            invariant
                done <= SIZE,
                rest == self.value as nat / pow256(done as nat),
                forall|j: int|
                    SIZE - done <= j < SIZE ==> #[trigger] bytes@[j] == self.wire_image()[j],
            decreases SIZE - done,
        {
            bytes[SIZE - 1 - done] = (rest % 256) as u8;
            proof {
                lemma_div_pow256_step(self.value as nat, done as nat);
            }
            rest = rest / 256;
            done += 1;
        }
        assert(bytes@ =~= self.wire_image());
        bytes
    }

    /// A well-formed field survives the wire: decoding its wire image gives
    /// the field back.
    pub proof fn lemma_decode_encode(self)
        requires
            self.wf(),
        ensures
            self.wire_image().len() == SIZE,
            Self::decoding(self.wire_image()) == Ok::<Self, DataFeedError>(self),
    {
        lemma_be_value_of_be_bytes(self@, SIZE as nat);
    }

    /// Where `SIZE` bytes decode, the field is well formed and its wire image
    /// is those bytes.
    pub proof fn lemma_encode_decode(bytes: Seq<u8>)
        requires
            bytes.len() == SIZE,
            Self::decoding(bytes) is Ok,
        ensures
            Self::decoding(bytes)->Ok_0.wf(),
            Self::decoding(bytes)->Ok_0.wire_image() == bytes,
    {
        lemma_be_value_bound(bytes);
        lemma_be_bytes_of_be_value(bytes);
        lemma_pow256_values();
    }

    /// No field of a width outside 1, 2, 4, 8, 16 is well formed.
    pub proof fn lemma_invalid_width_never_well_formed(self)
        requires
            !is_valid_numeric_size(SIZE),
        ensures
            !self.wf(),
    {
    }

    /// No bytes decode to a field of a width outside 1, 2, 4, 8, 16.
    pub proof fn lemma_invalid_width_never_decodes(bytes: Seq<u8>)
        requires
            !is_valid_numeric_size(SIZE),
        ensures
            Self::decoding(bytes) == Err::<Self, DataFeedError>(
                DataFeedError::InvalidNumericSize(SIZE),
            ),
    {
    }
}

impl<const SIZE: usize> TDataType for Numeric<SIZE> {
    open spec fn validity(&self) -> Result<(), DataFeedError> {
        Self::check(self.value)
    }

    fn validate(&self) -> (r: Result<(), DataFeedError>) {
        proof {
            lemma_pow256_values();
        }
        if SIZE == 1 {
            if self.value > u8::MAX as u128 {
                return Err(DataFeedError::InvalidNumericSize(SIZE));
            }
        } else if SIZE == 2 {
            if self.value > u16::MAX as u128 {
                return Err(DataFeedError::InvalidNumericSize(SIZE));
            }
        } else if SIZE == 4 {
            if self.value > u32::MAX as u128 {
                return Err(DataFeedError::InvalidNumericSize(SIZE));
            }
        } else if SIZE == 8 {
            if self.value > u64::MAX as u128 {
                return Err(DataFeedError::InvalidNumericSize(SIZE));
            }
        } else if SIZE == 16 {
        } else {
            return Err(DataFeedError::InvalidNumericSize(SIZE));
        }
        Ok(())
    }
}

} // verus!
