//! The order executed with price record: tag `C`, 58 bytes.
//!
//! The layout gives `match_id` 12 bytes, and 12 is no width that a numeric field
//! may have. So no record of this type is well formed, and no buffer decodes
//! to one: see the two lemmas of the type. Encoding and the rules of the type
//! are defined all the same.

use crate::enums::data_feed_error::DataFeedError;
use crate::global_constants::ORDER_EXECUTED_WITH_PRICE_MESSAGE_BYTE_COUNT;
use crate::models::data_types::alpha::Alpha;
use crate::models::data_types::numeric::Numeric;
use crate::models::data_types::price::Price;
use crate::traits::message::TMessage;
use crate::util::buffer_utils::{
    field, read_alpha, read_numeric, read_price, write_alpha, write_num, zeroed,
};
use vstd::prelude::*;

verus! {

pub const MESSAGE_TYPE_BYTE_OFFSET: usize = 0;

pub const NANOSECONDS_BYTE_OFFSET: usize = 1;

pub const ORDER_ID_BYTE_OFFSET: usize = 5;

pub const ORDER_BOOK_ID_BYTE_OFFSET: usize = 13;

pub const SIDE_BYTE_OFFSET: usize = 17;

pub const EXECUTED_QUANTITY_BYTE_OFFSET: usize = 18;

pub const MATCH_ID_BYTE_OFFSET: usize = 26;

pub const OWNER_PARTICIPANT_ID_BYTE_OFFSET: usize = 38;

pub const COUNTERPARTY_PARTICIPANT_ID_BYTE_OFFSET: usize = 45;

pub const TRADE_PRICE_BYTE_OFFSET: usize = 52;

pub const OCCURRED_AT_CROSS_BYTE_OFFSET: usize = 56;

pub const PRINTABLE_BYTE_OFFSET: usize = 57;

pub const MESSAGE_TYPE_LENGTH: usize = 1;

pub const NANOSECONDS_LENGTH: usize = 4;

pub const ORDER_ID_LENGTH: usize = 8;

pub const ORDER_BOOK_ID_LENGTH: usize = 4;

pub const SIDE_LENGTH: usize = 1;

pub const EXECUTED_QUANTITY_LENGTH: usize = 8;

pub const MATCH_ID_LENGTH: usize = 12;

pub const OWNER_PARTICIPANT_ID_LENGTH: usize = 7;

pub const COUNTERPARTY_PARTICIPANT_ID_LENGTH: usize = 7;

pub const OCCURRED_AT_CROSS_LENGTH: usize = 1;

pub const PRINTABLE_LENGTH: usize = 1;

pub const TRADE_PRICE_LENGTH: usize = 4;

/// Whether `code` is a side code that the record admits: `B` or `S`.
pub open spec fn is_valid_side(code: char) -> bool {
    code == 'B' || code == 'S'
}

/// Tells whether `code` is a side code that the record admits: `B` or `S`.
pub fn valid_side(code: char) -> (r: bool)
    ensures
        r == is_valid_side(code),
{
    code == 'B' || code == 'S'
}

/// Whether `code` is an occurred-at-cross flag: `N` or `Y`.
pub open spec fn is_valid_occurred_at_cross(code: char) -> bool {
    code == 'N' || code == 'Y'
}

/// Tells whether `code` is an occurred-at-cross flag: `N` or `Y`.
pub fn valid_occurred_at_cross(code: char) -> (r: bool)
    ensures
        r == is_valid_occurred_at_cross(code),
{
    code == 'N' || code == 'Y'
}

/// Whether `code` is a printable flag: `N` or `Y`.
pub open spec fn is_valid_printable(code: char) -> bool {
    code == 'N' || code == 'Y'
}

/// Tells whether `code` is a printable flag: `N` or `Y`.
pub fn valid_printable(code: char) -> (r: bool)
    ensures
        r == is_valid_printable(code),
{
    code == 'N' || code == 'Y'
}

/// The execution of an order, in whole or in part, at a price of its own.
#[derive(Debug, Clone, Copy, PartialEq, Eq)]
pub struct OrderExecutedWithPriceMessage {
    /// The tag of the record: `C`.
    pub message_type: Alpha<MESSAGE_TYPE_LENGTH>,
    /// Nanoseconds since the last seconds record.
    pub nanoseconds: Numeric<NANOSECONDS_LENGTH>,
    /// The identifier of the order.
    pub order_id: Numeric<ORDER_ID_LENGTH>,
    /// The order book that the record is about.
    pub order_book_id: Numeric<ORDER_BOOK_ID_LENGTH>,
    /// The side of the order: `B` or `S`.
    pub side: Alpha<SIDE_LENGTH>,
    /// The quantity that was executed.
    pub executed_quantity: Numeric<EXECUTED_QUANTITY_LENGTH>,
    /// The identifier of the match.
    pub match_id: Numeric<MATCH_ID_LENGTH>,
    /// The participant that owns the order, padded with spaces.
    pub owner_participant_id: Alpha<OWNER_PARTICIPANT_ID_LENGTH>,
    /// The participant on the other side, padded with spaces.
    pub counterparty_participant_id: Alpha<COUNTERPARTY_PARTICIPANT_ID_LENGTH>,
    /// The price of the execution.
    pub trade_price: Price,
    /// Whether the execution took place in an auction: `N` or `Y`.
    pub occurred_at_cross: Alpha<OCCURRED_AT_CROSS_LENGTH>,
    /// Whether the execution counts for statistics: `N` or `Y`.
    pub printable: Alpha<PRINTABLE_LENGTH>,
}

impl OrderExecutedWithPriceMessage {
    /// What `new` returns for the given fields: the record that they make, if
    /// the rules of the type hold of it, and else the first rule that is broken.
    pub open spec fn spec_new(
        message_type: Alpha<MESSAGE_TYPE_LENGTH>,
        nanoseconds: Numeric<NANOSECONDS_LENGTH>,
        order_id: Numeric<ORDER_ID_LENGTH>,
        order_book_id: Numeric<ORDER_BOOK_ID_LENGTH>,
        side: Alpha<SIDE_LENGTH>,
        executed_quantity: Numeric<EXECUTED_QUANTITY_LENGTH>,
        match_id: Numeric<MATCH_ID_LENGTH>,
        owner_participant_id: Alpha<OWNER_PARTICIPANT_ID_LENGTH>,
        counterparty_participant_id: Alpha<COUNTERPARTY_PARTICIPANT_ID_LENGTH>,
        trade_price: Price,
        occurred_at_cross: Alpha<OCCURRED_AT_CROSS_LENGTH>,
        printable: Alpha<PRINTABLE_LENGTH>,
    ) -> Result<Self, DataFeedError> {
        let message = OrderExecutedWithPriceMessage {
            message_type,
            nanoseconds,
            order_id,
            order_book_id,
            side,
            executed_quantity,
            match_id,
            owner_participant_id,
            counterparty_participant_id,
            trade_price,
            occurred_at_cross,
            printable,
        };
        match message.field_check() {
            Ok(_) => Ok(message),
            Err(e) => Err(e),
        }
    }

    /// Every field is well formed and the rules of the type hold.
    pub open spec fn wf(&self) -> bool {
        &&& self.message_type.wf()
        &&& self.nanoseconds.wf()
        &&& self.order_id.wf()
        &&& self.order_book_id.wf()
        &&& self.side.wf()
        &&& self.executed_quantity.wf()
        &&& self.match_id.wf()
        &&& self.owner_participant_id.wf()
        &&& self.counterparty_participant_id.wf()
        &&& self.occurred_at_cross.wf()
        &&& self.printable.wf()
        &&& self.field_check() is Ok
    }

    /// Every text field is printable ASCII, so that its bytes can be decoded.
    pub open spec fn text_is_printable(&self) -> bool {
        &&& self.message_type.printable()
        &&& self.side.printable()
        &&& self.owner_participant_id.printable()
        &&& self.counterparty_participant_id.printable()
        &&& self.occurred_at_cross.printable()
        &&& self.printable.printable()
    }

    /// Makes a record of the given fields, or reports the first rule of the
    /// type that they break.
    pub fn new(
        message_type: Alpha<MESSAGE_TYPE_LENGTH>,
        nanoseconds: Numeric<NANOSECONDS_LENGTH>,
        order_id: Numeric<ORDER_ID_LENGTH>,
        order_book_id: Numeric<ORDER_BOOK_ID_LENGTH>,
        side: Alpha<SIDE_LENGTH>,
        executed_quantity: Numeric<EXECUTED_QUANTITY_LENGTH>,
        match_id: Numeric<MATCH_ID_LENGTH>,
        owner_participant_id: Alpha<OWNER_PARTICIPANT_ID_LENGTH>,
        counterparty_participant_id: Alpha<COUNTERPARTY_PARTICIPANT_ID_LENGTH>,
        trade_price: Price,
        occurred_at_cross: Alpha<OCCURRED_AT_CROSS_LENGTH>,
        printable: Alpha<PRINTABLE_LENGTH>,
    ) -> (r: Result<Self, DataFeedError>)
        ensures
            r == Self::spec_new(
                message_type,
                nanoseconds,
                order_id,
                order_book_id,
                side,
                executed_quantity,
                match_id,
                owner_participant_id,
                counterparty_participant_id,
                trade_price,
                occurred_at_cross,
                printable,
            ),
    {
        let message = OrderExecutedWithPriceMessage {
            message_type,
            nanoseconds,
            order_id,
            order_book_id,
            side,
            executed_quantity,
            match_id,
            owner_participant_id,
            counterparty_participant_id,
            trade_price,
            occurred_at_cross,
            printable,
        };
        match message.validate_fields() {
            Ok(_) => Ok(message),
            Err(e) => Err(e),
        }
    }

    /// The wire image of a record has the wire size of the type.
    pub proof fn lemma_encoding_size(self)
        ensures
            self.encoding().len() == Self::wire_size(),
    {
    }

    /// No record of this type is well formed: `match_id` has a width that no
    /// numeric field may have.
    pub proof fn lemma_never_well_formed(self)
        ensures
            !self.wf(),
    {
        self.match_id.lemma_invalid_width_never_well_formed();
    }

    /// No buffer decodes to a record of this type: decoding fails at
    /// `match_id`, if not before.
    pub proof fn lemma_never_decodes(bytes: Seq<u8>)
        ensures
            Self::decoding(bytes) is Err,
    {
        Numeric::<MATCH_ID_LENGTH>::lemma_invalid_width_never_decodes(
            field(bytes, MATCH_ID_BYTE_OFFSET as int, MATCH_ID_LENGTH as int),
        );
    }
}

impl TMessage for OrderExecutedWithPriceMessage {
    open spec fn wire_size() -> usize {
        ORDER_EXECUTED_WITH_PRICE_MESSAGE_BYTE_COUNT
    }

    open spec fn encoding(&self) -> Seq<u8> {
        self.message_type.wire_image() + self.nanoseconds.wire_image() + self.order_id.wire_image()
            + self.order_book_id.wire_image() + self.side.wire_image()
            + self.executed_quantity.wire_image() + self.match_id.wire_image()
            + self.owner_participant_id.wire_image() + self.counterparty_participant_id.wire_image()
            + self.trade_price.wire_image() + self.occurred_at_cross.wire_image()
            + self.printable.wire_image()
    }

    open spec fn decoding(bytes: Seq<u8>) -> Result<Self, DataFeedError> {
        let message_type = Alpha::<MESSAGE_TYPE_LENGTH>::decoding(
            field(bytes, MESSAGE_TYPE_BYTE_OFFSET as int, MESSAGE_TYPE_LENGTH as int),
        );
        let nanoseconds = Numeric::<NANOSECONDS_LENGTH>::decoding(
            field(bytes, NANOSECONDS_BYTE_OFFSET as int, NANOSECONDS_LENGTH as int),
        );
        let order_id = Numeric::<ORDER_ID_LENGTH>::decoding(
            field(bytes, ORDER_ID_BYTE_OFFSET as int, ORDER_ID_LENGTH as int),
        );
        let order_book_id = Numeric::<ORDER_BOOK_ID_LENGTH>::decoding(
            field(bytes, ORDER_BOOK_ID_BYTE_OFFSET as int, ORDER_BOOK_ID_LENGTH as int),
        );
        let side = Alpha::<SIDE_LENGTH>::decoding(
            field(bytes, SIDE_BYTE_OFFSET as int, SIDE_LENGTH as int),
        );
        let executed_quantity = Numeric::<EXECUTED_QUANTITY_LENGTH>::decoding(
            field(bytes, EXECUTED_QUANTITY_BYTE_OFFSET as int, EXECUTED_QUANTITY_LENGTH as int),
        );
        let match_id = Numeric::<MATCH_ID_LENGTH>::decoding(
            field(bytes, MATCH_ID_BYTE_OFFSET as int, MATCH_ID_LENGTH as int),
        );
        let owner_participant_id = Alpha::<OWNER_PARTICIPANT_ID_LENGTH>::decoding(
            field(
                bytes,
                OWNER_PARTICIPANT_ID_BYTE_OFFSET as int,
                OWNER_PARTICIPANT_ID_LENGTH as int,
            ),
        );
        let counterparty_participant_id = Alpha::<COUNTERPARTY_PARTICIPANT_ID_LENGTH>::decoding(
            field(
                bytes,
                COUNTERPARTY_PARTICIPANT_ID_BYTE_OFFSET as int,
                COUNTERPARTY_PARTICIPANT_ID_LENGTH as int,
            ),
        );
        let trade_price = Price::decoding(
            field(bytes, TRADE_PRICE_BYTE_OFFSET as int, TRADE_PRICE_LENGTH as int),
        );
        let occurred_at_cross = Alpha::<OCCURRED_AT_CROSS_LENGTH>::decoding(
            field(bytes, OCCURRED_AT_CROSS_BYTE_OFFSET as int, OCCURRED_AT_CROSS_LENGTH as int),
        );
        let printable = Alpha::<PRINTABLE_LENGTH>::decoding(
            field(bytes, PRINTABLE_BYTE_OFFSET as int, PRINTABLE_LENGTH as int),
        );
        if message_type is Err {
            Err(message_type->Err_0)
        } else if nanoseconds is Err {
            Err(nanoseconds->Err_0)
        } else if order_id is Err {
            Err(order_id->Err_0)
        } else if order_book_id is Err {
            Err(order_book_id->Err_0)
        } else if side is Err {
            Err(side->Err_0)
        } else if executed_quantity is Err {
            Err(executed_quantity->Err_0)
        } else if match_id is Err {
            Err(match_id->Err_0)
        } else if owner_participant_id is Err {
            Err(owner_participant_id->Err_0)
        } else if counterparty_participant_id is Err {
            Err(counterparty_participant_id->Err_0)
        } else if occurred_at_cross is Err {
            Err(occurred_at_cross->Err_0)
        } else if printable is Err {
            Err(printable->Err_0)
        } else {
            Self::spec_new(
                message_type->Ok_0,
                nanoseconds->Ok_0,
                order_id->Ok_0,
                order_book_id->Ok_0,
                side->Ok_0,
                executed_quantity->Ok_0,
                match_id->Ok_0,
                owner_participant_id->Ok_0,
                counterparty_participant_id->Ok_0,
                trade_price,
                occurred_at_cross->Ok_0,
                printable->Ok_0,
            )
        }
    }

    open spec fn field_check(&self) -> Result<(), DataFeedError> {
        let tag = self.message_type@[0];
        let side = self.side@[0];
        let occurred_at_cross = self.occurred_at_cross@[0];
        let printable = self.printable@[0];
        if tag != 'C' {
            Err(DataFeedError::InvalidMessageType('C', tag))
        } else if !is_valid_side(side) {
            Err(DataFeedError::InvalidSideValue(side))
        } else if !is_valid_occurred_at_cross(occurred_at_cross) {
            Err(DataFeedError::InvalidOccurredAtCrossValue(occurred_at_cross))
        } else if !is_valid_printable(printable) {
            Err(DataFeedError::InvalidPrintableValue(printable))
        } else {
            Ok(())
        }
    }

    fn to_bin<const SIZE: usize>(&self) -> (r: Result<[u8; SIZE], DataFeedError>) {
        if SIZE != ORDER_EXECUTED_WITH_PRICE_MESSAGE_BYTE_COUNT {
            return Err(
                DataFeedError::InvalidMessageSize(
                    ORDER_EXECUTED_WITH_PRICE_MESSAGE_BYTE_COUNT,
                    SIZE,
                ),
            );
        }
        let mut binary = zeroed::<SIZE>();
        write_alpha(&mut binary, MESSAGE_TYPE_BYTE_OFFSET, &self.message_type.value);
        assert(field(binary@, 0, MESSAGE_TYPE_LENGTH as int) =~= self.message_type.wire_image());
        write_num(&mut binary, NANOSECONDS_BYTE_OFFSET, &self.nanoseconds.to_be_bytes());
        write_num(&mut binary, ORDER_ID_BYTE_OFFSET, &self.order_id.to_be_bytes());
        write_num(&mut binary, ORDER_BOOK_ID_BYTE_OFFSET, &self.order_book_id.to_be_bytes());
        write_alpha(&mut binary, SIDE_BYTE_OFFSET, &self.side.value);
        write_num(
            &mut binary,
            EXECUTED_QUANTITY_BYTE_OFFSET,
            &self.executed_quantity.to_be_bytes(),
        );
        write_num(&mut binary, MATCH_ID_BYTE_OFFSET, &self.match_id.to_be_bytes());
        write_alpha(
            &mut binary,
            OWNER_PARTICIPANT_ID_BYTE_OFFSET,
            &self.owner_participant_id.value,
        );
        write_alpha(
            &mut binary,
            COUNTERPARTY_PARTICIPANT_ID_BYTE_OFFSET,
            &self.counterparty_participant_id.value,
        );
        write_num(&mut binary, TRADE_PRICE_BYTE_OFFSET, &self.trade_price.to_be_bytes());
        write_alpha(&mut binary, OCCURRED_AT_CROSS_BYTE_OFFSET, &self.occurred_at_cross.value);
        write_alpha(&mut binary, PRINTABLE_BYTE_OFFSET, &self.printable.value);
        assert(binary@ =~= field(binary@, 0, SIZE as int));
        Ok(binary)
    }

    fn from_bin<const SIZE: usize>(binary_data: &[u8; SIZE]) -> (r: Result<
        Self,
        DataFeedError,
    >) {
        if SIZE != ORDER_EXECUTED_WITH_PRICE_MESSAGE_BYTE_COUNT {
            return Err(
                DataFeedError::InvalidMessageSize(
                    ORDER_EXECUTED_WITH_PRICE_MESSAGE_BYTE_COUNT,
                    SIZE,
                ),
            );
        }
        OrderExecutedWithPriceMessage::new(
            read_alpha(binary_data, MESSAGE_TYPE_BYTE_OFFSET)?,
            read_numeric(binary_data, NANOSECONDS_BYTE_OFFSET)?,
            read_numeric(binary_data, ORDER_ID_BYTE_OFFSET)?,
            read_numeric(binary_data, ORDER_BOOK_ID_BYTE_OFFSET)?,
            read_alpha(binary_data, SIDE_BYTE_OFFSET)?,
            read_numeric(binary_data, EXECUTED_QUANTITY_BYTE_OFFSET)?,
            read_numeric(binary_data, MATCH_ID_BYTE_OFFSET)?,
            read_alpha(binary_data, OWNER_PARTICIPANT_ID_BYTE_OFFSET)?,
            read_alpha(binary_data, COUNTERPARTY_PARTICIPANT_ID_BYTE_OFFSET)?,
            read_price(binary_data, TRADE_PRICE_BYTE_OFFSET),
            read_alpha(binary_data, OCCURRED_AT_CROSS_BYTE_OFFSET)?,
            read_alpha(binary_data, PRINTABLE_BYTE_OFFSET)?,
        )
    }

    fn validate_fields(&self) -> (r: Result<(), DataFeedError>) {
        let tag = self.message_type.value[0];
        if tag != 'C' {
            return Err(DataFeedError::InvalidMessageType('C', tag));
        }
        let side = self.side.value[0];
        if !valid_side(side) {
            return Err(DataFeedError::InvalidSideValue(side));
        }
        let occurred_at_cross = self.occurred_at_cross.value[0];
        if !valid_occurred_at_cross(occurred_at_cross) {
            return Err(DataFeedError::InvalidOccurredAtCrossValue(occurred_at_cross));
        }
        let printable = self.printable.value[0];
        if !valid_printable(printable) {
            return Err(DataFeedError::InvalidPrintableValue(printable));
        }
        Ok(())
    }
}

} // verus!
