//! The combination order book directory record: tag `M`, 268 bytes.
//!
//! The 7 bytes from offset 73 on hold no field. Encoding leaves them zero and
//! decoding does not look at them.

use crate::enums::data_feed_error::DataFeedError;
use crate::global_constants::COMBINATION_ORDER_BOOK_DIRECTORY_MESSAGE_BYTE_COUNT;
use crate::models::data_types::alpha::Alpha;
use crate::models::data_types::numeric::Numeric;
use crate::traits::message::TMessage;
use crate::util::buffer_utils::{
    field, lemma_field_split, lemma_fields_join, read_alpha, read_numeric, write_alpha, write_num,
    zeroed, zeros,
};
use vstd::prelude::*;

verus! {

pub const MESSAGE_TYPE_BYTE_OFFSET: usize = 0;

pub const NANOSECONDS_BYTE_OFFSET: usize = 1;

pub const ORDER_BOOK_ID_BYTE_OFFSET: usize = 5;

pub const SYMBOL_BYTE_OFFSET: usize = 9;

pub const LONG_NAME_BYTE_OFFSET: usize = 41;

pub const RESERVED_BYTE_OFFSET: usize = 73;

pub const ISIN_BYTE_OFFSET: usize = 80;

pub const FINANCIAL_PRODUCT_BYTE_OFFSET: usize = 92;

pub const TRADING_CURRENCY_BYTE_OFFSET: usize = 93;

pub const NUMBER_OF_DECIMALS_IN_PRICE_BYTE_OFFSET: usize = 96;

pub const NUMBER_OF_DECIMALS_IN_NOMINAL_VALUE_BYTE_OFFSET: usize = 98;

pub const ODD_LOT_SIZE_BYTE_OFFSET: usize = 100;

pub const ROUND_LOT_SIZE_BYTE_OFFSET: usize = 104;

pub const BLOCK_LOT_SIZE_BYTE_OFFSET: usize = 108;

pub const NOMINAL_VALUE_BYTE_OFFSET: usize = 112;

pub const LEG_1_SYMBOL_BYTE_OFFSET: usize = 120;

pub const LEG_1_SIDE_BYTE_OFFSET: usize = 152;

pub const LEG_1_RATIO_BYTE_OFFSET: usize = 153;

pub const LEG_2_SYMBOL_BYTE_OFFSET: usize = 157;

pub const LEG_2_SIDE_BYTE_OFFSET: usize = 189;

pub const LEG_2_RATIO_BYTE_OFFSET: usize = 190;

pub const LEG_3_SYMBOL_BYTE_OFFSET: usize = 194;

pub const LEG_3_SIDE_BYTE_OFFSET: usize = 226;

pub const LEG_3_RATIO_BYTE_OFFSET: usize = 227;

pub const LEG_4_SYMBOL_BYTE_OFFSET: usize = 231;

pub const LEG_4_SIDE_BYTE_OFFSET: usize = 263;

pub const LEG_4_RATIO_BYTE_OFFSET: usize = 264;

pub const MESSAGE_TYPE_LENGTH: usize = 1;

pub const NANOSECONDS_LENGTH: usize = 4;

pub const ORDER_BOOK_ID_LENGTH: usize = 4;

pub const SYMBOL_LENGTH: usize = 32;

pub const LONG_NAME_LENGTH: usize = 32;

pub const RESERVED_LENGTH: usize = 7;

pub const ISIN_LENGTH: usize = 12;

pub const FINANCIAL_PRODUCT_LENGTH: usize = 1;

pub const TRADING_CURRENCY_LENGTH: usize = 3;

pub const NUMBER_OF_DECIMALS_IN_PRICE_LENGTH: usize = 2;

pub const NUMBER_OF_DECIMALS_IN_NOMINAL_VALUE_LENGTH: usize = 2;

pub const ODD_LOT_SIZE_LENGTH: usize = 4;

pub const ROUND_LOT_SIZE_LENGTH: usize = 4;

pub const BLOCK_LOT_SIZE_LENGTH: usize = 4;

pub const NOMINAL_VALUE_LENGTH: usize = 8;

pub const LEG_1_SYMBOL_LENGTH: usize = 32;

pub const LEG_1_SIDE_LENGTH: usize = 1;

pub const LEG_1_RATIO_LENGTH: usize = 4;

pub const LEG_2_SYMBOL_LENGTH: usize = 32;

pub const LEG_2_SIDE_LENGTH: usize = 1;

pub const LEG_2_RATIO_LENGTH: usize = 4;

pub const LEG_3_SYMBOL_LENGTH: usize = 32;

pub const LEG_3_SIDE_LENGTH: usize = 1;

pub const LEG_3_RATIO_LENGTH: usize = 4;

pub const LEG_4_SYMBOL_LENGTH: usize = 32;

pub const LEG_4_SIDE_LENGTH: usize = 1;

pub const LEG_4_RATIO_LENGTH: usize = 4;

/// Whether `value` is a financial product code: 1, 3, 5 or 11.
pub open spec fn is_valid_financial_product(value: u128) -> bool {
    value == 1 || value == 3 || value == 5 || value == 11
}

/// Tells whether `value` is a financial product code: 1, 3, 5 or 11.
pub fn valid_financial_product(value: u128) -> (r: bool)
    ensures
        r == is_valid_financial_product(value),
{
    value == 1 || value == 3 || value == 5 || value == 11
}

/// Whether `code` is a side code of the first or second leg: `B` or `C`.
pub open spec fn is_valid_leg_1_and_2_side(code: char) -> bool {
    code == 'B' || code == 'C'
}

/// Tells whether `code` is a side code of the first or second leg: `B` or `C`.
pub fn valid_leg_1_and_2_side(code: char) -> (r: bool)
    ensures
        r == is_valid_leg_1_and_2_side(code),
{
    code == 'B' || code == 'C'
}

/// Whether `code` is a side code of the third or fourth leg: `B`, `C` or `?`.
pub open spec fn is_valid_leg_3_and_4_side(code: char) -> bool {
    code == 'B' || code == 'C' || code == '?'
}

/// Tells whether `code` is a side code of the third or fourth leg: `B`, `C` or `?`.
pub fn valid_leg_3_and_4_side(code: char) -> (r: bool)
    ensures
        r == is_valid_leg_3_and_4_side(code),
{
    code == 'B' || code == 'C' || code == '?'
}

/// Whether the four leg ratios sum to exactly 1.
pub open spec fn leg_ratios_sum_to_one(r1: u128, r2: u128, r3: u128, r4: u128) -> bool {
    r1 + r2 + r3 + r4 == 1
}

/// Tells whether the four leg ratios sum to exactly 1. No ratio above 1 can
/// be part of such a sum, so the sum is taken only of ratios that are 0 or 1.
pub fn sum_of_leg_ratios_is_one(r1: u128, r2: u128, r3: u128, r4: u128) -> (r: bool)
    ensures
        r == leg_ratios_sum_to_one(r1, r2, r3, r4),
{
    r1 <= 1 && r2 <= 1 && r3 <= 1 && r4 <= 1 && r1 + r2 + r3 + r4 == 1
}

/// The directory entry of a combination order book and its up to four legs.
#[derive(Debug, Clone, Copy, PartialEq, Eq)]
pub struct CombinationOrderBookDirectoryMessage {
    /// The tag of the record: `M`.
    pub message_type: Alpha<MESSAGE_TYPE_LENGTH>,
    /// Nanoseconds since the last seconds record.
    pub nanoseconds: Numeric<NANOSECONDS_LENGTH>,
    /// The order book that the record is about.
    pub order_book_id: Numeric<ORDER_BOOK_ID_LENGTH>,
    /// The short name of the combination, padded with spaces.
    pub symbol: Alpha<SYMBOL_LENGTH>,
    /// The long name of the combination, padded with spaces.
    pub long_name: Alpha<LONG_NAME_LENGTH>,
    /// The ISIN of the combination, padded with spaces.
    pub isin: Alpha<ISIN_LENGTH>,
    /// The kind of product: 1, 3, 5 or 11.
    pub financial_product: Numeric<FINANCIAL_PRODUCT_LENGTH>,
    /// The currency that the combination trades in.
    pub trading_currency: Alpha<TRADING_CURRENCY_LENGTH>,
    /// How many decimals a price has.
    pub number_of_decimals_in_price: Numeric<NUMBER_OF_DECIMALS_IN_PRICE_LENGTH>,
    /// How many decimals the nominal value has.
    pub number_of_decimals_in_nominal_value: Numeric<NUMBER_OF_DECIMALS_IN_NOMINAL_VALUE_LENGTH>,
    /// The size of an odd lot.
    pub odd_lot_size: Numeric<ODD_LOT_SIZE_LENGTH>,
    /// The size of a round lot.
    pub round_lot_size: Numeric<ROUND_LOT_SIZE_LENGTH>,
    /// The size of a block lot.
    pub block_lot_size: Numeric<BLOCK_LOT_SIZE_LENGTH>,
    /// The nominal value.
    pub nominal_value: Numeric<NOMINAL_VALUE_LENGTH>,
    /// The short name of the first leg, padded with spaces.
    pub leg_1_symbol: Alpha<LEG_1_SYMBOL_LENGTH>,
    /// The side of the first leg: `B` or `C`.
    pub leg_1_side: Alpha<LEG_1_SIDE_LENGTH>,
    /// The ratio of the first leg.
    pub leg_1_ratio: Numeric<LEG_1_RATIO_LENGTH>,
    /// The short name of the second leg, padded with spaces.
    pub leg_2_symbol: Alpha<LEG_2_SYMBOL_LENGTH>,
    /// The side of the second leg: `B` or `C`.
    pub leg_2_side: Alpha<LEG_2_SIDE_LENGTH>,
    /// The ratio of the second leg.
    pub leg_2_ratio: Numeric<LEG_2_RATIO_LENGTH>,
    /// The short name of the third leg, padded with spaces.
    pub leg_3_symbol: Alpha<LEG_3_SYMBOL_LENGTH>,
    /// The side of the third leg: `B`, `C` or `?`.
    pub leg_3_side: Alpha<LEG_3_SIDE_LENGTH>,
    /// The ratio of the third leg.
    pub leg_3_ratio: Numeric<LEG_3_RATIO_LENGTH>,
    /// The short name of the fourth leg, padded with spaces.
    pub leg_4_symbol: Alpha<LEG_4_SYMBOL_LENGTH>,
    /// The side of the fourth leg: `B`, `C` or `?`.
    pub leg_4_side: Alpha<LEG_4_SIDE_LENGTH>,
    /// The ratio of the fourth leg.
    pub leg_4_ratio: Numeric<LEG_4_RATIO_LENGTH>,
}

impl CombinationOrderBookDirectoryMessage {
    /// What `new` returns for the given fields: the record that they make, if
    /// the rules of the type hold of it, and else the first rule that is broken.
    pub open spec fn spec_new(
        message_type: Alpha<MESSAGE_TYPE_LENGTH>,
        nanoseconds: Numeric<NANOSECONDS_LENGTH>,
        order_book_id: Numeric<ORDER_BOOK_ID_LENGTH>,
        symbol: Alpha<SYMBOL_LENGTH>,
        long_name: Alpha<LONG_NAME_LENGTH>,
        isin: Alpha<ISIN_LENGTH>,
        financial_product: Numeric<FINANCIAL_PRODUCT_LENGTH>,
        trading_currency: Alpha<TRADING_CURRENCY_LENGTH>,
        number_of_decimals_in_price: Numeric<NUMBER_OF_DECIMALS_IN_PRICE_LENGTH>,
        number_of_decimals_in_nominal_value: Numeric<NUMBER_OF_DECIMALS_IN_NOMINAL_VALUE_LENGTH>,
        odd_lot_size: Numeric<ODD_LOT_SIZE_LENGTH>,
        round_lot_size: Numeric<ROUND_LOT_SIZE_LENGTH>,
        block_lot_size: Numeric<BLOCK_LOT_SIZE_LENGTH>,
        nominal_value: Numeric<NOMINAL_VALUE_LENGTH>,
        leg_1_symbol: Alpha<LEG_1_SYMBOL_LENGTH>,
        leg_1_side: Alpha<LEG_1_SIDE_LENGTH>,
        leg_1_ratio: Numeric<LEG_1_RATIO_LENGTH>,
        leg_2_symbol: Alpha<LEG_2_SYMBOL_LENGTH>,
        leg_2_side: Alpha<LEG_2_SIDE_LENGTH>,
        leg_2_ratio: Numeric<LEG_2_RATIO_LENGTH>,
        leg_3_symbol: Alpha<LEG_3_SYMBOL_LENGTH>,
        leg_3_side: Alpha<LEG_3_SIDE_LENGTH>,
        leg_3_ratio: Numeric<LEG_3_RATIO_LENGTH>,
        leg_4_symbol: Alpha<LEG_4_SYMBOL_LENGTH>,
        leg_4_side: Alpha<LEG_4_SIDE_LENGTH>,
        leg_4_ratio: Numeric<LEG_4_RATIO_LENGTH>,
    ) -> Result<Self, DataFeedError> {
        let message = CombinationOrderBookDirectoryMessage {
            message_type,
            nanoseconds,
            order_book_id,
            symbol,
            long_name,
            isin,
            financial_product,
            trading_currency,
            number_of_decimals_in_price,
            number_of_decimals_in_nominal_value,
            odd_lot_size,
            round_lot_size,
            block_lot_size,
            nominal_value,
            leg_1_symbol,
            leg_1_side,
            leg_1_ratio,
            leg_2_symbol,
            leg_2_side,
            leg_2_ratio,
            leg_3_symbol,
            leg_3_side,
            leg_3_ratio,
            leg_4_symbol,
            leg_4_side,
            leg_4_ratio,
        };
        match message.field_check() {
            Ok(_) => Ok(message),
            Err(e) => Err(e),
        }
    }

    /// Every field is well formed and the rules of the type hold.
    pub open spec fn wf(&self) -> bool {
        &&& self.message_type.wf()
        &&& self.nanoseconds.wf()
        &&& self.order_book_id.wf()
        &&& self.symbol.wf()
        &&& self.long_name.wf()
        &&& self.isin.wf()
        &&& self.financial_product.wf()
        &&& self.trading_currency.wf()
        &&& self.number_of_decimals_in_price.wf()
        &&& self.number_of_decimals_in_nominal_value.wf()
        &&& self.odd_lot_size.wf()
        &&& self.round_lot_size.wf()
        &&& self.block_lot_size.wf()
        &&& self.nominal_value.wf()
        &&& self.leg_1_symbol.wf()
        &&& self.leg_1_side.wf()
        &&& self.leg_1_ratio.wf()
        &&& self.leg_2_symbol.wf()
        &&& self.leg_2_side.wf()
        &&& self.leg_2_ratio.wf()
        &&& self.leg_3_symbol.wf()
        &&& self.leg_3_side.wf()
        &&& self.leg_3_ratio.wf()
        &&& self.leg_4_symbol.wf()
        &&& self.leg_4_side.wf()
        &&& self.leg_4_ratio.wf()
        &&& self.field_check() is Ok
    }

    /// Every text field is printable ASCII, so that its bytes can be decoded.
    pub open spec fn text_is_printable(&self) -> bool {
        &&& self.message_type.printable()
        &&& self.symbol.printable()
        &&& self.long_name.printable()
        &&& self.isin.printable()
        &&& self.trading_currency.printable()
        &&& self.leg_1_symbol.printable()
        &&& self.leg_1_side.printable()
        &&& self.leg_2_symbol.printable()
        &&& self.leg_2_side.printable()
        &&& self.leg_3_symbol.printable()
        &&& self.leg_3_side.printable()
        &&& self.leg_4_symbol.printable()
        &&& self.leg_4_side.printable()
    }

    /// Makes a record of the given fields, or reports the first rule of the
    /// type that they break.
    pub fn new(
        message_type: Alpha<MESSAGE_TYPE_LENGTH>,
        nanoseconds: Numeric<NANOSECONDS_LENGTH>,
        order_book_id: Numeric<ORDER_BOOK_ID_LENGTH>,
        symbol: Alpha<SYMBOL_LENGTH>,
        long_name: Alpha<LONG_NAME_LENGTH>,
        isin: Alpha<ISIN_LENGTH>,
        financial_product: Numeric<FINANCIAL_PRODUCT_LENGTH>,
        trading_currency: Alpha<TRADING_CURRENCY_LENGTH>,
        number_of_decimals_in_price: Numeric<NUMBER_OF_DECIMALS_IN_PRICE_LENGTH>,
        number_of_decimals_in_nominal_value: Numeric<NUMBER_OF_DECIMALS_IN_NOMINAL_VALUE_LENGTH>,
        odd_lot_size: Numeric<ODD_LOT_SIZE_LENGTH>,
        round_lot_size: Numeric<ROUND_LOT_SIZE_LENGTH>,
        block_lot_size: Numeric<BLOCK_LOT_SIZE_LENGTH>,
        nominal_value: Numeric<NOMINAL_VALUE_LENGTH>,
        leg_1_symbol: Alpha<LEG_1_SYMBOL_LENGTH>,
        leg_1_side: Alpha<LEG_1_SIDE_LENGTH>,
        leg_1_ratio: Numeric<LEG_1_RATIO_LENGTH>,
        leg_2_symbol: Alpha<LEG_2_SYMBOL_LENGTH>,
        leg_2_side: Alpha<LEG_2_SIDE_LENGTH>,
        leg_2_ratio: Numeric<LEG_2_RATIO_LENGTH>,
        leg_3_symbol: Alpha<LEG_3_SYMBOL_LENGTH>,
        leg_3_side: Alpha<LEG_3_SIDE_LENGTH>,
        leg_3_ratio: Numeric<LEG_3_RATIO_LENGTH>,
        leg_4_symbol: Alpha<LEG_4_SYMBOL_LENGTH>,
        leg_4_side: Alpha<LEG_4_SIDE_LENGTH>,
        leg_4_ratio: Numeric<LEG_4_RATIO_LENGTH>,
    ) -> (r: Result<Self, DataFeedError>)
        ensures
            r == Self::spec_new(
                message_type,
                nanoseconds,
                order_book_id,
                symbol,
                long_name,
                isin,
                financial_product,
                trading_currency,
                number_of_decimals_in_price,
                number_of_decimals_in_nominal_value,
                odd_lot_size,
                round_lot_size,
                block_lot_size,
                nominal_value,
                leg_1_symbol,
                leg_1_side,
                leg_1_ratio,
                leg_2_symbol,
                leg_2_side,
                leg_2_ratio,
                leg_3_symbol,
                leg_3_side,
                leg_3_ratio,
                leg_4_symbol,
                leg_4_side,
                leg_4_ratio,
            ),
    {
        let message = CombinationOrderBookDirectoryMessage {
            message_type,
            nanoseconds,
            order_book_id,
            symbol,
            long_name,
            isin,
            financial_product,
            trading_currency,
            number_of_decimals_in_price,
            number_of_decimals_in_nominal_value,
            odd_lot_size,
            round_lot_size,
            block_lot_size,
            nominal_value,
            leg_1_symbol,
            leg_1_side,
            leg_1_ratio,
            leg_2_symbol,
            leg_2_side,
            leg_2_ratio,
            leg_3_symbol,
            leg_3_side,
            leg_3_ratio,
            leg_4_symbol,
            leg_4_side,
            leg_4_ratio,
        };
        match message.validate_fields() {
            Ok(_) => Ok(message),
            Err(e) => Err(e),
        }
    }

    /// The wire image of a record has the wire size of the type.
    pub proof fn lemma_encoding_size(self)
        ensures
            self.encoding().len() == Self::wire_size(),
    {
    }

    /// Each field of the wire image of a record is the image of the field.
    pub proof fn lemma_fields_of_encoding(self)
        ensures
            field(
                self.encoding(),
                MESSAGE_TYPE_BYTE_OFFSET as int,
                MESSAGE_TYPE_LENGTH as int,
            ) == self.message_type.wire_image(),
            field(
                self.encoding(),
                NANOSECONDS_BYTE_OFFSET as int,
                NANOSECONDS_LENGTH as int,
            ) == self.nanoseconds.wire_image(),
            field(
                self.encoding(),
                ORDER_BOOK_ID_BYTE_OFFSET as int,
                ORDER_BOOK_ID_LENGTH as int,
            ) == self.order_book_id.wire_image(),
            field(
                self.encoding(),
                SYMBOL_BYTE_OFFSET as int,
                SYMBOL_LENGTH as int,
            ) == self.symbol.wire_image(),
            field(
                self.encoding(),
                LONG_NAME_BYTE_OFFSET as int,
                LONG_NAME_LENGTH as int,
            ) == self.long_name.wire_image(),
            field(
                self.encoding(),
                RESERVED_BYTE_OFFSET as int,
                RESERVED_LENGTH as int,
            ) == zeros(RESERVED_LENGTH as nat),
            field(
                self.encoding(),
                ISIN_BYTE_OFFSET as int,
                ISIN_LENGTH as int,
            ) == self.isin.wire_image(),
            field(
                self.encoding(),
                FINANCIAL_PRODUCT_BYTE_OFFSET as int,
                FINANCIAL_PRODUCT_LENGTH as int,
            ) == self.financial_product.wire_image(),
            field(
                self.encoding(),
                TRADING_CURRENCY_BYTE_OFFSET as int,
                TRADING_CURRENCY_LENGTH as int,
            ) == self.trading_currency.wire_image(),
            field(
                self.encoding(),
                NUMBER_OF_DECIMALS_IN_PRICE_BYTE_OFFSET as int,
                NUMBER_OF_DECIMALS_IN_PRICE_LENGTH as int,
            ) == self.number_of_decimals_in_price.wire_image(),
            field(
                self.encoding(),
                NUMBER_OF_DECIMALS_IN_NOMINAL_VALUE_BYTE_OFFSET as int,
                NUMBER_OF_DECIMALS_IN_NOMINAL_VALUE_LENGTH as int,
            ) == self.number_of_decimals_in_nominal_value.wire_image(),
            field(
                self.encoding(),
                ODD_LOT_SIZE_BYTE_OFFSET as int,
                ODD_LOT_SIZE_LENGTH as int,
            ) == self.odd_lot_size.wire_image(),
            field(
                self.encoding(),
                ROUND_LOT_SIZE_BYTE_OFFSET as int,
                ROUND_LOT_SIZE_LENGTH as int,
            ) == self.round_lot_size.wire_image(),
            field(
                self.encoding(),
                BLOCK_LOT_SIZE_BYTE_OFFSET as int,
                BLOCK_LOT_SIZE_LENGTH as int,
            ) == self.block_lot_size.wire_image(),
            field(
                self.encoding(),
                NOMINAL_VALUE_BYTE_OFFSET as int,
                NOMINAL_VALUE_LENGTH as int,
            ) == self.nominal_value.wire_image(),
            field(
                self.encoding(),
                LEG_1_SYMBOL_BYTE_OFFSET as int,
                LEG_1_SYMBOL_LENGTH as int,
            ) == self.leg_1_symbol.wire_image(),
            field(
                self.encoding(),
                LEG_1_SIDE_BYTE_OFFSET as int,
                LEG_1_SIDE_LENGTH as int,
            ) == self.leg_1_side.wire_image(),
            field(
                self.encoding(),
                LEG_1_RATIO_BYTE_OFFSET as int,
                LEG_1_RATIO_LENGTH as int,
            ) == self.leg_1_ratio.wire_image(),
            field(
                self.encoding(),
                LEG_2_SYMBOL_BYTE_OFFSET as int,
                LEG_2_SYMBOL_LENGTH as int,
            ) == self.leg_2_symbol.wire_image(),
            field(
                self.encoding(),
                LEG_2_SIDE_BYTE_OFFSET as int,
                LEG_2_SIDE_LENGTH as int,
            ) == self.leg_2_side.wire_image(),
            field(
                self.encoding(),
                LEG_2_RATIO_BYTE_OFFSET as int,
                LEG_2_RATIO_LENGTH as int,
            ) == self.leg_2_ratio.wire_image(),
            field(
                self.encoding(),
                LEG_3_SYMBOL_BYTE_OFFSET as int,
                LEG_3_SYMBOL_LENGTH as int,
            ) == self.leg_3_symbol.wire_image(),
            field(
                self.encoding(),
                LEG_3_SIDE_BYTE_OFFSET as int,
                LEG_3_SIDE_LENGTH as int,
            ) == self.leg_3_side.wire_image(),
            field(
                self.encoding(),
                LEG_3_RATIO_BYTE_OFFSET as int,
                LEG_3_RATIO_LENGTH as int,
            ) == self.leg_3_ratio.wire_image(),
            field(
                self.encoding(),
                LEG_4_SYMBOL_BYTE_OFFSET as int,
                LEG_4_SYMBOL_LENGTH as int,
            ) == self.leg_4_symbol.wire_image(),
            field(
                self.encoding(),
                LEG_4_SIDE_BYTE_OFFSET as int,
                LEG_4_SIDE_LENGTH as int,
            ) == self.leg_4_side.wire_image(),
            field(
                self.encoding(),
                LEG_4_RATIO_BYTE_OFFSET as int,
                LEG_4_RATIO_LENGTH as int,
            ) == self.leg_4_ratio.wire_image(),
    {
        let bytes = self.encoding();
        let upto_message_type = self.message_type.wire_image();
        let upto_nanoseconds = upto_message_type + self.nanoseconds.wire_image();
        let upto_order_book_id = upto_nanoseconds + self.order_book_id.wire_image();
        let upto_symbol = upto_order_book_id + self.symbol.wire_image();
        let upto_long_name = upto_symbol + self.long_name.wire_image();
        let upto_reserved = upto_long_name + zeros(RESERVED_LENGTH as nat);
        let upto_isin = upto_reserved + self.isin.wire_image();
        let upto_financial_product = upto_isin + self.financial_product.wire_image();
        let upto_trading_currency = upto_financial_product + self.trading_currency.wire_image();
        let upto_number_of_decimals_in_price = upto_trading_currency
            + self.number_of_decimals_in_price.wire_image();
        let upto_number_of_decimals_in_nominal_value = upto_number_of_decimals_in_price
            + self.number_of_decimals_in_nominal_value.wire_image();
        let upto_odd_lot_size = upto_number_of_decimals_in_nominal_value
            + self.odd_lot_size.wire_image();
        let upto_round_lot_size = upto_odd_lot_size + self.round_lot_size.wire_image();
        let upto_block_lot_size = upto_round_lot_size + self.block_lot_size.wire_image();
        let upto_nominal_value = upto_block_lot_size + self.nominal_value.wire_image();
        let upto_leg_1_symbol = upto_nominal_value + self.leg_1_symbol.wire_image();
        let upto_leg_1_side = upto_leg_1_symbol + self.leg_1_side.wire_image();
        let upto_leg_1_ratio = upto_leg_1_side + self.leg_1_ratio.wire_image();
        let upto_leg_2_symbol = upto_leg_1_ratio + self.leg_2_symbol.wire_image();
        let upto_leg_2_side = upto_leg_2_symbol + self.leg_2_side.wire_image();
        let upto_leg_2_ratio = upto_leg_2_side + self.leg_2_ratio.wire_image();
        let upto_leg_3_symbol = upto_leg_2_ratio + self.leg_3_symbol.wire_image();
        let upto_leg_3_side = upto_leg_3_symbol + self.leg_3_side.wire_image();
        let upto_leg_3_ratio = upto_leg_3_side + self.leg_3_ratio.wire_image();
        let upto_leg_4_symbol = upto_leg_3_ratio + self.leg_4_symbol.wire_image();
        let upto_leg_4_side = upto_leg_4_symbol + self.leg_4_side.wire_image();
        let upto_leg_4_ratio = upto_leg_4_side + self.leg_4_ratio.wire_image();
        assert(field(bytes, 0, bytes.len() as int) =~= bytes);
        lemma_field_split(bytes, upto_leg_4_side, self.leg_4_ratio.wire_image());
        lemma_field_split(bytes, upto_leg_4_symbol, self.leg_4_side.wire_image());
        lemma_field_split(bytes, upto_leg_3_ratio, self.leg_4_symbol.wire_image());
        lemma_field_split(bytes, upto_leg_3_side, self.leg_3_ratio.wire_image());
        lemma_field_split(bytes, upto_leg_3_symbol, self.leg_3_side.wire_image());
        lemma_field_split(bytes, upto_leg_2_ratio, self.leg_3_symbol.wire_image());
        lemma_field_split(bytes, upto_leg_2_side, self.leg_2_ratio.wire_image());
        lemma_field_split(bytes, upto_leg_2_symbol, self.leg_2_side.wire_image());
        lemma_field_split(bytes, upto_leg_1_ratio, self.leg_2_symbol.wire_image());
        lemma_field_split(bytes, upto_leg_1_side, self.leg_1_ratio.wire_image());
        lemma_field_split(bytes, upto_leg_1_symbol, self.leg_1_side.wire_image());
        lemma_field_split(bytes, upto_nominal_value, self.leg_1_symbol.wire_image());
        lemma_field_split(bytes, upto_block_lot_size, self.nominal_value.wire_image());
        lemma_field_split(bytes, upto_round_lot_size, self.block_lot_size.wire_image());
        lemma_field_split(bytes, upto_odd_lot_size, self.round_lot_size.wire_image());
        lemma_field_split(
            bytes,
            upto_number_of_decimals_in_nominal_value,
            self.odd_lot_size.wire_image(),
        );
        lemma_field_split(
            bytes,
            upto_number_of_decimals_in_price,
            self.number_of_decimals_in_nominal_value.wire_image(),
        );
        lemma_field_split(
            bytes,
            upto_trading_currency,
            self.number_of_decimals_in_price.wire_image(),
        );
        lemma_field_split(bytes, upto_financial_product, self.trading_currency.wire_image());
        lemma_field_split(bytes, upto_isin, self.financial_product.wire_image());
        lemma_field_split(bytes, upto_reserved, self.isin.wire_image());
        lemma_field_split(bytes, upto_long_name, zeros(RESERVED_LENGTH as nat));
        lemma_field_split(bytes, upto_symbol, self.long_name.wire_image());
        lemma_field_split(bytes, upto_order_book_id, self.symbol.wire_image());
        lemma_field_split(bytes, upto_nanoseconds, self.order_book_id.wire_image());
        lemma_field_split(bytes, upto_message_type, self.nanoseconds.wire_image());
    }

    /// Decoding inverts encoding: a well-formed record whose text is printable
    /// is what its own wire image decodes to.
    pub proof fn lemma_decode_encode(self)
        requires
            self.wf(),
            self.text_is_printable(),
        ensures
            Self::decoding(self.encoding()) == Ok::<Self, DataFeedError>(self),
    {
        self.lemma_fields_of_encoding();
        self.message_type.lemma_decode_encode();
        self.nanoseconds.lemma_decode_encode();
        self.order_book_id.lemma_decode_encode();
        self.symbol.lemma_decode_encode();
        self.long_name.lemma_decode_encode();
        self.isin.lemma_decode_encode();
        self.financial_product.lemma_decode_encode();
        self.trading_currency.lemma_decode_encode();
        self.number_of_decimals_in_price.lemma_decode_encode();
        self.number_of_decimals_in_nominal_value.lemma_decode_encode();
        self.odd_lot_size.lemma_decode_encode();
        self.round_lot_size.lemma_decode_encode();
        self.block_lot_size.lemma_decode_encode();
        self.nominal_value.lemma_decode_encode();
        self.leg_1_symbol.lemma_decode_encode();
        self.leg_1_side.lemma_decode_encode();
        self.leg_1_ratio.lemma_decode_encode();
        self.leg_2_symbol.lemma_decode_encode();
        self.leg_2_side.lemma_decode_encode();
        self.leg_2_ratio.lemma_decode_encode();
        self.leg_3_symbol.lemma_decode_encode();
        self.leg_3_side.lemma_decode_encode();
        self.leg_3_ratio.lemma_decode_encode();
        self.leg_4_symbol.lemma_decode_encode();
        self.leg_4_side.lemma_decode_encode();
        self.leg_4_ratio.lemma_decode_encode();
    }

    /// Encoding inverts decoding: where a buffer of the wire size decodes and
    /// its reserved bytes are zero, the record is well formed, its text is
    /// printable, and its wire image is the buffer.
    pub proof fn lemma_encode_decode(bytes: Seq<u8>)
        requires
            bytes.len() == Self::wire_size(),
            field(
                bytes,
                RESERVED_BYTE_OFFSET as int,
                RESERVED_LENGTH as int,
            ) == zeros(RESERVED_LENGTH as nat),
            Self::decoding(bytes) is Ok,
        ensures
            Self::decoding(bytes)->Ok_0.wf(),
            Self::decoding(bytes)->Ok_0.text_is_printable(),
            Self::decoding(bytes)->Ok_0.encoding() == bytes,
    {
        Alpha::<MESSAGE_TYPE_LENGTH>::lemma_encode_decode(
            field(bytes, MESSAGE_TYPE_BYTE_OFFSET as int, MESSAGE_TYPE_LENGTH as int),
        );
        Numeric::<NANOSECONDS_LENGTH>::lemma_encode_decode(
            field(bytes, NANOSECONDS_BYTE_OFFSET as int, NANOSECONDS_LENGTH as int),
        );
        Numeric::<ORDER_BOOK_ID_LENGTH>::lemma_encode_decode(
            field(bytes, ORDER_BOOK_ID_BYTE_OFFSET as int, ORDER_BOOK_ID_LENGTH as int),
        );
        Alpha::<SYMBOL_LENGTH>::lemma_encode_decode(
            field(bytes, SYMBOL_BYTE_OFFSET as int, SYMBOL_LENGTH as int),
        );
        Alpha::<LONG_NAME_LENGTH>::lemma_encode_decode(
            field(bytes, LONG_NAME_BYTE_OFFSET as int, LONG_NAME_LENGTH as int),
        );
        Alpha::<ISIN_LENGTH>::lemma_encode_decode(
            field(bytes, ISIN_BYTE_OFFSET as int, ISIN_LENGTH as int),
        );
        Numeric::<FINANCIAL_PRODUCT_LENGTH>::lemma_encode_decode(
            field(bytes, FINANCIAL_PRODUCT_BYTE_OFFSET as int, FINANCIAL_PRODUCT_LENGTH as int),
        );
        Alpha::<TRADING_CURRENCY_LENGTH>::lemma_encode_decode(
            field(bytes, TRADING_CURRENCY_BYTE_OFFSET as int, TRADING_CURRENCY_LENGTH as int),
        );
        Numeric::<NUMBER_OF_DECIMALS_IN_PRICE_LENGTH>::lemma_encode_decode(
            field(
                bytes,
                NUMBER_OF_DECIMALS_IN_PRICE_BYTE_OFFSET as int,
                NUMBER_OF_DECIMALS_IN_PRICE_LENGTH as int,
            ),
        );
        Numeric::<NUMBER_OF_DECIMALS_IN_NOMINAL_VALUE_LENGTH>::lemma_encode_decode(
            field(
                bytes,
                NUMBER_OF_DECIMALS_IN_NOMINAL_VALUE_BYTE_OFFSET as int,
                NUMBER_OF_DECIMALS_IN_NOMINAL_VALUE_LENGTH as int,
            ),
        );
        Numeric::<ODD_LOT_SIZE_LENGTH>::lemma_encode_decode(
            field(bytes, ODD_LOT_SIZE_BYTE_OFFSET as int, ODD_LOT_SIZE_LENGTH as int),
        );
        Numeric::<ROUND_LOT_SIZE_LENGTH>::lemma_encode_decode(
            field(bytes, ROUND_LOT_SIZE_BYTE_OFFSET as int, ROUND_LOT_SIZE_LENGTH as int),
        );
        Numeric::<BLOCK_LOT_SIZE_LENGTH>::lemma_encode_decode(
            field(bytes, BLOCK_LOT_SIZE_BYTE_OFFSET as int, BLOCK_LOT_SIZE_LENGTH as int),
        );
        Numeric::<NOMINAL_VALUE_LENGTH>::lemma_encode_decode(
            field(bytes, NOMINAL_VALUE_BYTE_OFFSET as int, NOMINAL_VALUE_LENGTH as int),
        );
        Alpha::<LEG_1_SYMBOL_LENGTH>::lemma_encode_decode(
            field(bytes, LEG_1_SYMBOL_BYTE_OFFSET as int, LEG_1_SYMBOL_LENGTH as int),
        );
        Alpha::<LEG_1_SIDE_LENGTH>::lemma_encode_decode(
            field(bytes, LEG_1_SIDE_BYTE_OFFSET as int, LEG_1_SIDE_LENGTH as int),
        );
        Numeric::<LEG_1_RATIO_LENGTH>::lemma_encode_decode(
            field(bytes, LEG_1_RATIO_BYTE_OFFSET as int, LEG_1_RATIO_LENGTH as int),
        );
        Alpha::<LEG_2_SYMBOL_LENGTH>::lemma_encode_decode(
            field(bytes, LEG_2_SYMBOL_BYTE_OFFSET as int, LEG_2_SYMBOL_LENGTH as int),
        );
        Alpha::<LEG_2_SIDE_LENGTH>::lemma_encode_decode(
            field(bytes, LEG_2_SIDE_BYTE_OFFSET as int, LEG_2_SIDE_LENGTH as int),
        );
        Numeric::<LEG_2_RATIO_LENGTH>::lemma_encode_decode(
            field(bytes, LEG_2_RATIO_BYTE_OFFSET as int, LEG_2_RATIO_LENGTH as int),
        );
        Alpha::<LEG_3_SYMBOL_LENGTH>::lemma_encode_decode(
            field(bytes, LEG_3_SYMBOL_BYTE_OFFSET as int, LEG_3_SYMBOL_LENGTH as int),
        );
        Alpha::<LEG_3_SIDE_LENGTH>::lemma_encode_decode(
            field(bytes, LEG_3_SIDE_BYTE_OFFSET as int, LEG_3_SIDE_LENGTH as int),
        );
        Numeric::<LEG_3_RATIO_LENGTH>::lemma_encode_decode(
            field(bytes, LEG_3_RATIO_BYTE_OFFSET as int, LEG_3_RATIO_LENGTH as int),
        );
        Alpha::<LEG_4_SYMBOL_LENGTH>::lemma_encode_decode(
            field(bytes, LEG_4_SYMBOL_BYTE_OFFSET as int, LEG_4_SYMBOL_LENGTH as int),
        );
        Alpha::<LEG_4_SIDE_LENGTH>::lemma_encode_decode(
            field(bytes, LEG_4_SIDE_BYTE_OFFSET as int, LEG_4_SIDE_LENGTH as int),
        );
        Numeric::<LEG_4_RATIO_LENGTH>::lemma_encode_decode(
            field(bytes, LEG_4_RATIO_BYTE_OFFSET as int, LEG_4_RATIO_LENGTH as int),
        );
        lemma_fields_join(bytes, NANOSECONDS_BYTE_OFFSET as int, NANOSECONDS_LENGTH as int);
        lemma_fields_join(bytes, ORDER_BOOK_ID_BYTE_OFFSET as int, ORDER_BOOK_ID_LENGTH as int);
        lemma_fields_join(bytes, SYMBOL_BYTE_OFFSET as int, SYMBOL_LENGTH as int);
        lemma_fields_join(bytes, LONG_NAME_BYTE_OFFSET as int, LONG_NAME_LENGTH as int);
        lemma_fields_join(bytes, RESERVED_BYTE_OFFSET as int, RESERVED_LENGTH as int);
        lemma_fields_join(bytes, ISIN_BYTE_OFFSET as int, ISIN_LENGTH as int);
        lemma_fields_join(
            bytes,
            FINANCIAL_PRODUCT_BYTE_OFFSET as int,
            FINANCIAL_PRODUCT_LENGTH as int,
        );
        lemma_fields_join(
            bytes,
            TRADING_CURRENCY_BYTE_OFFSET as int,
            TRADING_CURRENCY_LENGTH as int,
        );
        lemma_fields_join(
            bytes,
            NUMBER_OF_DECIMALS_IN_PRICE_BYTE_OFFSET as int,
            NUMBER_OF_DECIMALS_IN_PRICE_LENGTH as int,
        );
        lemma_fields_join(
            bytes,
            NUMBER_OF_DECIMALS_IN_NOMINAL_VALUE_BYTE_OFFSET as int,
            NUMBER_OF_DECIMALS_IN_NOMINAL_VALUE_LENGTH as int,
        );
        lemma_fields_join(bytes, ODD_LOT_SIZE_BYTE_OFFSET as int, ODD_LOT_SIZE_LENGTH as int);
        lemma_fields_join(bytes, ROUND_LOT_SIZE_BYTE_OFFSET as int, ROUND_LOT_SIZE_LENGTH as int);
        lemma_fields_join(bytes, BLOCK_LOT_SIZE_BYTE_OFFSET as int, BLOCK_LOT_SIZE_LENGTH as int);
        lemma_fields_join(bytes, NOMINAL_VALUE_BYTE_OFFSET as int, NOMINAL_VALUE_LENGTH as int);
        lemma_fields_join(bytes, LEG_1_SYMBOL_BYTE_OFFSET as int, LEG_1_SYMBOL_LENGTH as int);
        lemma_fields_join(bytes, LEG_1_SIDE_BYTE_OFFSET as int, LEG_1_SIDE_LENGTH as int);
        lemma_fields_join(bytes, LEG_1_RATIO_BYTE_OFFSET as int, LEG_1_RATIO_LENGTH as int);
        lemma_fields_join(bytes, LEG_2_SYMBOL_BYTE_OFFSET as int, LEG_2_SYMBOL_LENGTH as int);
        lemma_fields_join(bytes, LEG_2_SIDE_BYTE_OFFSET as int, LEG_2_SIDE_LENGTH as int);
        lemma_fields_join(bytes, LEG_2_RATIO_BYTE_OFFSET as int, LEG_2_RATIO_LENGTH as int);
        lemma_fields_join(bytes, LEG_3_SYMBOL_BYTE_OFFSET as int, LEG_3_SYMBOL_LENGTH as int);
        lemma_fields_join(bytes, LEG_3_SIDE_BYTE_OFFSET as int, LEG_3_SIDE_LENGTH as int);
        lemma_fields_join(bytes, LEG_3_RATIO_BYTE_OFFSET as int, LEG_3_RATIO_LENGTH as int);
        lemma_fields_join(bytes, LEG_4_SYMBOL_BYTE_OFFSET as int, LEG_4_SYMBOL_LENGTH as int);
        lemma_fields_join(bytes, LEG_4_SIDE_BYTE_OFFSET as int, LEG_4_SIDE_LENGTH as int);
        lemma_fields_join(bytes, LEG_4_RATIO_BYTE_OFFSET as int, LEG_4_RATIO_LENGTH as int);
        assert(field(bytes, 0, bytes.len() as int) =~= bytes);
    }
}

impl TMessage for CombinationOrderBookDirectoryMessage {
    open spec fn wire_size() -> usize {
        COMBINATION_ORDER_BOOK_DIRECTORY_MESSAGE_BYTE_COUNT
    }

    open spec fn encoding(&self) -> Seq<u8> {
        self.message_type.wire_image() + self.nanoseconds.wire_image()
            + self.order_book_id.wire_image() + self.symbol.wire_image()
            + self.long_name.wire_image() + zeros(RESERVED_LENGTH as nat) + self.isin.wire_image()
            + self.financial_product.wire_image() + self.trading_currency.wire_image()
            + self.number_of_decimals_in_price.wire_image()
            + self.number_of_decimals_in_nominal_value.wire_image() + self.odd_lot_size.wire_image()
            + self.round_lot_size.wire_image() + self.block_lot_size.wire_image()
            + self.nominal_value.wire_image() + self.leg_1_symbol.wire_image()
            + self.leg_1_side.wire_image() + self.leg_1_ratio.wire_image()
            + self.leg_2_symbol.wire_image() + self.leg_2_side.wire_image()
            + self.leg_2_ratio.wire_image() + self.leg_3_symbol.wire_image()
            + self.leg_3_side.wire_image() + self.leg_3_ratio.wire_image()
            + self.leg_4_symbol.wire_image() + self.leg_4_side.wire_image()
            + self.leg_4_ratio.wire_image()
    }

    open spec fn decoding(bytes: Seq<u8>) -> Result<Self, DataFeedError> {
        let message_type = Alpha::<MESSAGE_TYPE_LENGTH>::decoding(
            field(bytes, MESSAGE_TYPE_BYTE_OFFSET as int, MESSAGE_TYPE_LENGTH as int),
        );
        let nanoseconds = Numeric::<NANOSECONDS_LENGTH>::decoding(
            field(bytes, NANOSECONDS_BYTE_OFFSET as int, NANOSECONDS_LENGTH as int),
        );
        let order_book_id = Numeric::<ORDER_BOOK_ID_LENGTH>::decoding(
            field(bytes, ORDER_BOOK_ID_BYTE_OFFSET as int, ORDER_BOOK_ID_LENGTH as int),
        );
        let symbol = Alpha::<SYMBOL_LENGTH>::decoding(
            field(bytes, SYMBOL_BYTE_OFFSET as int, SYMBOL_LENGTH as int),
        );
        let long_name = Alpha::<LONG_NAME_LENGTH>::decoding(
            field(bytes, LONG_NAME_BYTE_OFFSET as int, LONG_NAME_LENGTH as int),
        );
        let isin = Alpha::<ISIN_LENGTH>::decoding(
            field(bytes, ISIN_BYTE_OFFSET as int, ISIN_LENGTH as int),
        );
        let financial_product = Numeric::<FINANCIAL_PRODUCT_LENGTH>::decoding(
            field(bytes, FINANCIAL_PRODUCT_BYTE_OFFSET as int, FINANCIAL_PRODUCT_LENGTH as int),
        );
        let trading_currency = Alpha::<TRADING_CURRENCY_LENGTH>::decoding(
            field(bytes, TRADING_CURRENCY_BYTE_OFFSET as int, TRADING_CURRENCY_LENGTH as int),
        );
        let number_of_decimals_in_price = Numeric::<NUMBER_OF_DECIMALS_IN_PRICE_LENGTH>::decoding(
            field(
                bytes,
                NUMBER_OF_DECIMALS_IN_PRICE_BYTE_OFFSET as int,
                NUMBER_OF_DECIMALS_IN_PRICE_LENGTH as int,
            ),
        );
        let number_of_decimals_in_nominal_value =
            Numeric::<NUMBER_OF_DECIMALS_IN_NOMINAL_VALUE_LENGTH>::decoding(
                field(
                    bytes,
                    NUMBER_OF_DECIMALS_IN_NOMINAL_VALUE_BYTE_OFFSET as int,
                    NUMBER_OF_DECIMALS_IN_NOMINAL_VALUE_LENGTH as int,
                ),
            );
        let odd_lot_size = Numeric::<ODD_LOT_SIZE_LENGTH>::decoding(
            field(bytes, ODD_LOT_SIZE_BYTE_OFFSET as int, ODD_LOT_SIZE_LENGTH as int),
        );
        let round_lot_size = Numeric::<ROUND_LOT_SIZE_LENGTH>::decoding(
            field(bytes, ROUND_LOT_SIZE_BYTE_OFFSET as int, ROUND_LOT_SIZE_LENGTH as int),
        );
        let block_lot_size = Numeric::<BLOCK_LOT_SIZE_LENGTH>::decoding(
            field(bytes, BLOCK_LOT_SIZE_BYTE_OFFSET as int, BLOCK_LOT_SIZE_LENGTH as int),
        );
        let nominal_value = Numeric::<NOMINAL_VALUE_LENGTH>::decoding(
            field(bytes, NOMINAL_VALUE_BYTE_OFFSET as int, NOMINAL_VALUE_LENGTH as int),
        );
        let leg_1_symbol = Alpha::<LEG_1_SYMBOL_LENGTH>::decoding(
            field(bytes, LEG_1_SYMBOL_BYTE_OFFSET as int, LEG_1_SYMBOL_LENGTH as int),
        );
        let leg_1_side = Alpha::<LEG_1_SIDE_LENGTH>::decoding(
            field(bytes, LEG_1_SIDE_BYTE_OFFSET as int, LEG_1_SIDE_LENGTH as int),
        );
        let leg_1_ratio = Numeric::<LEG_1_RATIO_LENGTH>::decoding(
            field(bytes, LEG_1_RATIO_BYTE_OFFSET as int, LEG_1_RATIO_LENGTH as int),
        );
        let leg_2_symbol = Alpha::<LEG_2_SYMBOL_LENGTH>::decoding(
            field(bytes, LEG_2_SYMBOL_BYTE_OFFSET as int, LEG_2_SYMBOL_LENGTH as int),
        );
        let leg_2_side = Alpha::<LEG_2_SIDE_LENGTH>::decoding(
            field(bytes, LEG_2_SIDE_BYTE_OFFSET as int, LEG_2_SIDE_LENGTH as int),
        );
        let leg_2_ratio = Numeric::<LEG_2_RATIO_LENGTH>::decoding(
            field(bytes, LEG_2_RATIO_BYTE_OFFSET as int, LEG_2_RATIO_LENGTH as int),
        );
        let leg_3_symbol = Alpha::<LEG_3_SYMBOL_LENGTH>::decoding(
            field(bytes, LEG_3_SYMBOL_BYTE_OFFSET as int, LEG_3_SYMBOL_LENGTH as int),
        );
        let leg_3_side = Alpha::<LEG_3_SIDE_LENGTH>::decoding(
            field(bytes, LEG_3_SIDE_BYTE_OFFSET as int, LEG_3_SIDE_LENGTH as int),
        );
        let leg_3_ratio = Numeric::<LEG_3_RATIO_LENGTH>::decoding(
            field(bytes, LEG_3_RATIO_BYTE_OFFSET as int, LEG_3_RATIO_LENGTH as int),
        );
        let leg_4_symbol = Alpha::<LEG_4_SYMBOL_LENGTH>::decoding(
            field(bytes, LEG_4_SYMBOL_BYTE_OFFSET as int, LEG_4_SYMBOL_LENGTH as int),
        );
        let leg_4_side = Alpha::<LEG_4_SIDE_LENGTH>::decoding(
            field(bytes, LEG_4_SIDE_BYTE_OFFSET as int, LEG_4_SIDE_LENGTH as int),
        );
        let leg_4_ratio = Numeric::<LEG_4_RATIO_LENGTH>::decoding(
            field(bytes, LEG_4_RATIO_BYTE_OFFSET as int, LEG_4_RATIO_LENGTH as int),
        );
        if message_type is Err {
            Err(message_type->Err_0)
        } else if nanoseconds is Err {
            Err(nanoseconds->Err_0)
        } else if order_book_id is Err {
            Err(order_book_id->Err_0)
        } else if symbol is Err {
            Err(symbol->Err_0)
        } else if long_name is Err {
            Err(long_name->Err_0)
        } else if isin is Err {
            Err(isin->Err_0)
        } else if financial_product is Err {
            Err(financial_product->Err_0)
        } else if trading_currency is Err {
            Err(trading_currency->Err_0)
        } else if number_of_decimals_in_price is Err {
            Err(number_of_decimals_in_price->Err_0)
        } else if number_of_decimals_in_nominal_value is Err {
            Err(number_of_decimals_in_nominal_value->Err_0)
        } else if odd_lot_size is Err {
            Err(odd_lot_size->Err_0)
        } else if round_lot_size is Err {
            Err(round_lot_size->Err_0)
        } else if block_lot_size is Err {
            Err(block_lot_size->Err_0)
        } else if nominal_value is Err {
            Err(nominal_value->Err_0)
        } else if leg_1_symbol is Err {
            Err(leg_1_symbol->Err_0)
        } else if leg_1_side is Err {
            Err(leg_1_side->Err_0)
        } else if leg_1_ratio is Err {
            Err(leg_1_ratio->Err_0)
        } else if leg_2_symbol is Err {
            Err(leg_2_symbol->Err_0)
        } else if leg_2_side is Err {
            Err(leg_2_side->Err_0)
        } else if leg_2_ratio is Err {
            Err(leg_2_ratio->Err_0)
        } else if leg_3_symbol is Err {
            Err(leg_3_symbol->Err_0)
        } else if leg_3_side is Err {
            Err(leg_3_side->Err_0)
        } else if leg_3_ratio is Err {
            Err(leg_3_ratio->Err_0)
        } else if leg_4_symbol is Err {
            Err(leg_4_symbol->Err_0)
        } else if leg_4_side is Err {
            Err(leg_4_side->Err_0)
        } else if leg_4_ratio is Err {
            Err(leg_4_ratio->Err_0)
        } else {
            Self::spec_new(
                message_type->Ok_0,
                nanoseconds->Ok_0,
                order_book_id->Ok_0,
                symbol->Ok_0,
                long_name->Ok_0,
                isin->Ok_0,
                financial_product->Ok_0,
                trading_currency->Ok_0,
                number_of_decimals_in_price->Ok_0,
                number_of_decimals_in_nominal_value->Ok_0,
                odd_lot_size->Ok_0,
                round_lot_size->Ok_0,
                block_lot_size->Ok_0,
                nominal_value->Ok_0,
                leg_1_symbol->Ok_0,
                leg_1_side->Ok_0,
                leg_1_ratio->Ok_0,
                leg_2_symbol->Ok_0,
                leg_2_side->Ok_0,
                leg_2_ratio->Ok_0,
                leg_3_symbol->Ok_0,
                leg_3_side->Ok_0,
                leg_3_ratio->Ok_0,
                leg_4_symbol->Ok_0,
                leg_4_side->Ok_0,
                leg_4_ratio->Ok_0,
            )
        }
    }

    open spec fn field_check(&self) -> Result<(), DataFeedError> {
        let tag = self.message_type@[0];
        let financial_product = self.financial_product.value;
        let leg_1_side = self.leg_1_side@[0];
        let leg_2_side = self.leg_2_side@[0];
        let leg_3_side = self.leg_3_side@[0];
        let leg_4_side = self.leg_4_side@[0];
        let leg_1_ratio = self.leg_1_ratio.value;
        let leg_2_ratio = self.leg_2_ratio.value;
        let leg_3_ratio = self.leg_3_ratio.value;
        let leg_4_ratio = self.leg_4_ratio.value;
        if tag != 'M' {
            Err(DataFeedError::InvalidMessageType('M', tag))
        } else if !is_valid_financial_product(financial_product) {
            Err(DataFeedError::InvalidFinancialProductValue(financial_product))
        } else if !is_valid_leg_1_and_2_side(leg_1_side) {
            Err(DataFeedError::InvalidSideValue(leg_1_side))
        } else if !is_valid_leg_1_and_2_side(leg_2_side) {
            Err(DataFeedError::InvalidSideValue(leg_2_side))
        } else if !is_valid_leg_3_and_4_side(leg_3_side) {
            Err(DataFeedError::InvalidSideValue(leg_3_side))
        } else if !is_valid_leg_3_and_4_side(leg_4_side) {
            Err(DataFeedError::InvalidSideValue(leg_4_side))
        } else if !leg_ratios_sum_to_one(leg_1_ratio, leg_2_ratio, leg_3_ratio, leg_4_ratio) {
            Err(
                DataFeedError::InvalidLegRatioValues(
                    leg_1_ratio,
                    leg_2_ratio,
                    leg_3_ratio,
                    leg_4_ratio,
                ),
            )
        } else {
            Ok(())
        }
    }

    fn to_bin<const SIZE: usize>(&self) -> (r: Result<[u8; SIZE], DataFeedError>) {
        if SIZE != COMBINATION_ORDER_BOOK_DIRECTORY_MESSAGE_BYTE_COUNT {
            return Err(
                DataFeedError::InvalidMessageSize(
                    COMBINATION_ORDER_BOOK_DIRECTORY_MESSAGE_BYTE_COUNT,
                    SIZE,
                ),
            );
        }
        let mut binary = zeroed::<SIZE>();
        write_alpha(&mut binary, MESSAGE_TYPE_BYTE_OFFSET, &self.message_type.value);
        assert(field(binary@, 0, MESSAGE_TYPE_LENGTH as int) =~= self.message_type.wire_image());
        write_num(&mut binary, NANOSECONDS_BYTE_OFFSET, &self.nanoseconds.to_be_bytes());
        write_num(&mut binary, ORDER_BOOK_ID_BYTE_OFFSET, &self.order_book_id.to_be_bytes());
        write_alpha(&mut binary, SYMBOL_BYTE_OFFSET, &self.symbol.value);
        write_alpha(&mut binary, LONG_NAME_BYTE_OFFSET, &self.long_name.value);
        assert(field(binary@, 0, ISIN_BYTE_OFFSET as int) =~= field(
            binary@,
            0,
            RESERVED_BYTE_OFFSET as int,
        ) + zeros(RESERVED_LENGTH as nat));
        write_alpha(&mut binary, ISIN_BYTE_OFFSET, &self.isin.value);
        write_num(
            &mut binary,
            FINANCIAL_PRODUCT_BYTE_OFFSET,
            &self.financial_product.to_be_bytes(),
        );
        write_alpha(&mut binary, TRADING_CURRENCY_BYTE_OFFSET, &self.trading_currency.value);
        write_num(
            &mut binary,
            NUMBER_OF_DECIMALS_IN_PRICE_BYTE_OFFSET,
            &self.number_of_decimals_in_price.to_be_bytes(),
        );
        write_num(
            &mut binary,
            NUMBER_OF_DECIMALS_IN_NOMINAL_VALUE_BYTE_OFFSET,
            &self.number_of_decimals_in_nominal_value.to_be_bytes(),
        );
        write_num(&mut binary, ODD_LOT_SIZE_BYTE_OFFSET, &self.odd_lot_size.to_be_bytes());
        write_num(&mut binary, ROUND_LOT_SIZE_BYTE_OFFSET, &self.round_lot_size.to_be_bytes());
        write_num(&mut binary, BLOCK_LOT_SIZE_BYTE_OFFSET, &self.block_lot_size.to_be_bytes());
        write_num(&mut binary, NOMINAL_VALUE_BYTE_OFFSET, &self.nominal_value.to_be_bytes());
        write_alpha(&mut binary, LEG_1_SYMBOL_BYTE_OFFSET, &self.leg_1_symbol.value);
        write_alpha(&mut binary, LEG_1_SIDE_BYTE_OFFSET, &self.leg_1_side.value);
        write_num(&mut binary, LEG_1_RATIO_BYTE_OFFSET, &self.leg_1_ratio.to_be_bytes());
        write_alpha(&mut binary, LEG_2_SYMBOL_BYTE_OFFSET, &self.leg_2_symbol.value);
        write_alpha(&mut binary, LEG_2_SIDE_BYTE_OFFSET, &self.leg_2_side.value);
        write_num(&mut binary, LEG_2_RATIO_BYTE_OFFSET, &self.leg_2_ratio.to_be_bytes());
        write_alpha(&mut binary, LEG_3_SYMBOL_BYTE_OFFSET, &self.leg_3_symbol.value);
        write_alpha(&mut binary, LEG_3_SIDE_BYTE_OFFSET, &self.leg_3_side.value);
        write_num(&mut binary, LEG_3_RATIO_BYTE_OFFSET, &self.leg_3_ratio.to_be_bytes());
        write_alpha(&mut binary, LEG_4_SYMBOL_BYTE_OFFSET, &self.leg_4_symbol.value);
        write_alpha(&mut binary, LEG_4_SIDE_BYTE_OFFSET, &self.leg_4_side.value);
        write_num(&mut binary, LEG_4_RATIO_BYTE_OFFSET, &self.leg_4_ratio.to_be_bytes());
        assert(binary@ =~= field(binary@, 0, SIZE as int));
        Ok(binary)
    }

    fn from_bin<const SIZE: usize>(binary_data: &[u8; SIZE]) -> (r: Result<
        Self,
        DataFeedError,
    >) {
        if SIZE != COMBINATION_ORDER_BOOK_DIRECTORY_MESSAGE_BYTE_COUNT {
            return Err(
                DataFeedError::InvalidMessageSize(
                    COMBINATION_ORDER_BOOK_DIRECTORY_MESSAGE_BYTE_COUNT,
                    SIZE,
                ),
            );
        }
        CombinationOrderBookDirectoryMessage::new(
            read_alpha(binary_data, MESSAGE_TYPE_BYTE_OFFSET)?,
            read_numeric(binary_data, NANOSECONDS_BYTE_OFFSET)?,
            read_numeric(binary_data, ORDER_BOOK_ID_BYTE_OFFSET)?,
            read_alpha(binary_data, SYMBOL_BYTE_OFFSET)?,
            read_alpha(binary_data, LONG_NAME_BYTE_OFFSET)?,
            read_alpha(binary_data, ISIN_BYTE_OFFSET)?,
            read_numeric(binary_data, FINANCIAL_PRODUCT_BYTE_OFFSET)?,
            read_alpha(binary_data, TRADING_CURRENCY_BYTE_OFFSET)?,
            read_numeric(binary_data, NUMBER_OF_DECIMALS_IN_PRICE_BYTE_OFFSET)?,
            read_numeric(binary_data, NUMBER_OF_DECIMALS_IN_NOMINAL_VALUE_BYTE_OFFSET)?,
            read_numeric(binary_data, ODD_LOT_SIZE_BYTE_OFFSET)?,
            read_numeric(binary_data, ROUND_LOT_SIZE_BYTE_OFFSET)?,
            read_numeric(binary_data, BLOCK_LOT_SIZE_BYTE_OFFSET)?,
            read_numeric(binary_data, NOMINAL_VALUE_BYTE_OFFSET)?,
            read_alpha(binary_data, LEG_1_SYMBOL_BYTE_OFFSET)?,
            read_alpha(binary_data, LEG_1_SIDE_BYTE_OFFSET)?,
            read_numeric(binary_data, LEG_1_RATIO_BYTE_OFFSET)?,
            read_alpha(binary_data, LEG_2_SYMBOL_BYTE_OFFSET)?,
            read_alpha(binary_data, LEG_2_SIDE_BYTE_OFFSET)?,
            read_numeric(binary_data, LEG_2_RATIO_BYTE_OFFSET)?,
            read_alpha(binary_data, LEG_3_SYMBOL_BYTE_OFFSET)?,
            read_alpha(binary_data, LEG_3_SIDE_BYTE_OFFSET)?,
            read_numeric(binary_data, LEG_3_RATIO_BYTE_OFFSET)?,
            read_alpha(binary_data, LEG_4_SYMBOL_BYTE_OFFSET)?,
            read_alpha(binary_data, LEG_4_SIDE_BYTE_OFFSET)?,
            read_numeric(binary_data, LEG_4_RATIO_BYTE_OFFSET)?,
        )
    }

    fn validate_fields(&self) -> (r: Result<(), DataFeedError>) {
        let tag = self.message_type.value[0];
        if tag != 'M' {
            return Err(DataFeedError::InvalidMessageType('M', tag));
        }
        let financial_product = self.financial_product.value;
        if !valid_financial_product(financial_product) {
            return Err(DataFeedError::InvalidFinancialProductValue(financial_product));
        }
        let leg_1_side = self.leg_1_side.value[0];
        if !valid_leg_1_and_2_side(leg_1_side) {
            return Err(DataFeedError::InvalidSideValue(leg_1_side));
        }
        let leg_2_side = self.leg_2_side.value[0];
        if !valid_leg_1_and_2_side(leg_2_side) {
            return Err(DataFeedError::InvalidSideValue(leg_2_side));
        }
        let leg_3_side = self.leg_3_side.value[0];
        if !valid_leg_3_and_4_side(leg_3_side) {
            return Err(DataFeedError::InvalidSideValue(leg_3_side));
        }
        let leg_4_side = self.leg_4_side.value[0];
        if !valid_leg_3_and_4_side(leg_4_side) {
            return Err(DataFeedError::InvalidSideValue(leg_4_side));
        }
        let leg_1_ratio = self.leg_1_ratio.value;
        let leg_2_ratio = self.leg_2_ratio.value;
        let leg_3_ratio = self.leg_3_ratio.value;
        let leg_4_ratio = self.leg_4_ratio.value;
        if !sum_of_leg_ratios_is_one(leg_1_ratio, leg_2_ratio, leg_3_ratio, leg_4_ratio) {
            return Err(
                DataFeedError::InvalidLegRatioValues(
                    leg_1_ratio,
                    leg_2_ratio,
                    leg_3_ratio,
                    leg_4_ratio,
                ),
            );
        }
        Ok(())
    }
}

} // verus!
