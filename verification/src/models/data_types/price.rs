//! Signed fixed-point prices.

use crate::enums::data_feed_error::DataFeedError;
use crate::models::data_types::numeric::Numeric;
use crate::traits::data_type::TDataType;
use crate::util::big_endian::{
    be_bytes, be_value, from_twos_complement, lemma_be_bytes_of_be_value, lemma_be_value_bound,
    lemma_be_value_of_be_bytes, lemma_from_twos_complement_inverse,
    lemma_twos_complement_inverse, twos_complement,
};
use vstd::prelude::*;

verus! {

/// A price: a signed 32-bit number whose scale is a convention of the feed.
/// Every value is valid.
#[derive(Debug, Clone, Copy, PartialEq, Eq)]
pub struct Price {
    pub value: i32,
}

impl View for Price {
    type V = int;

    open spec fn view(&self) -> int {
        self.value as int
    }
}

impl Price {
    /// The four bytes that stand for the price on the wire: its two's
    /// complement pattern in big-endian order.
    pub open spec fn wire_image(&self) -> Seq<u8> {
        be_bytes(twos_complement(self.value), 4)
    }

    /// The price that the four bytes `bytes` stand for.
    pub open spec fn decoding(bytes: Seq<u8>) -> Self {
        Price { value: from_twos_complement(be_value(bytes)) }
    }

    /// Makes a price of the given number. This never fails.
    pub fn new(value: i32) -> (r: Result<Self, DataFeedError>)
        ensures
            r == Ok::<Self, DataFeedError>(Price { value }),
    {
        let price = Price { value };
        match price.validate() {
            Ok(_) => Ok(price),
            Err(e) => Err(e),
        }
    }

    /// The unsigned number with the same 32 bits as the price.
    pub fn to_bits(&self) -> (bits: u32)
        ensures
            bits == twos_complement(self.value),
    {
        let value = self.value;
        assert(value >= 0 ==> (value as u32) == value) by (bit_vector);
        assert(value < 0 ==> (value as u32) == value + 0x1_0000_0000) by (bit_vector);
        value as u32
    }

    /// The four big-endian bytes of the price's two's complement pattern.
    pub fn to_be_bytes(&self) -> (bytes: [u8; 4])
        ensures
            bytes@ == self.wire_image(),
    {
        let pattern: Numeric<4> = Numeric { value: self.to_bits() as u128 };
        pattern.to_be_bytes()
    }

    /// The price with the same 32 bits as the unsigned number `bits`.
    pub fn from_bits(bits: u32) -> (price: Self)
        ensures
            price.value == from_twos_complement(bits as nat),
    {
        assert(bits < 0x8000_0000 ==> (bits as i32) == bits) by (bit_vector);
        assert(bits >= 0x8000_0000 ==> (bits as i32) == bits - 0x1_0000_0000) by (bit_vector);
        Price { value: bits as i32 }
    }

    /// A price survives the wire: decoding its wire image gives the price
    /// back.
    pub proof fn lemma_decode_encode(self)
        ensures
            self.wire_image().len() == 4,
            Self::decoding(self.wire_image()) == self,
    {
        lemma_twos_complement_inverse(self.value);
        lemma_be_value_of_be_bytes(twos_complement(self.value), 4);
    }

    /// The wire image of what four bytes decode to is those bytes.
    pub proof fn lemma_encode_decode(bytes: Seq<u8>)
        requires
            bytes.len() == 4,
        ensures
            Self::decoding(bytes).wire_image() == bytes,
    {
        lemma_be_value_bound(bytes);
        lemma_from_twos_complement_inverse(be_value(bytes));
        lemma_be_bytes_of_be_value(bytes);
    }
}

impl TDataType for Price {
    open spec fn validity(&self) -> Result<(), DataFeedError> {
        Ok(())
    }

    fn validate(&self) -> (r: Result<(), DataFeedError>) {
        Ok(())
    }
}

} // verus!
