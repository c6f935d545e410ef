//! The add order with participant record: 44 bytes, any tag but `F`.

use crate::enums::data_feed_error::DataFeedError;
use crate::global_constants::ADD_ORDER_WITH_PARTICIPANT_ID_MESSAGE_BYTE_COUNT;
use crate::models::data_types::alpha::Alpha;
use crate::models::data_types::numeric::Numeric;
use crate::models::data_types::price::Price;
use crate::traits::message::TMessage;
use crate::util::buffer_utils::{
    field, lemma_field_split, lemma_fields_join, read_alpha, read_numeric, read_price, write_alpha,
    write_num, zeroed,
};
use vstd::prelude::*;

verus! {

pub const MESSAGE_TYPE_BYTE_OFFSET: usize = 0;

pub const NANOSECONDS_BYTE_OFFSET: usize = 1;

pub const ORDER_ID_BYTE_OFFSET: usize = 5;

pub const ORDER_BOOK_ID_BYTE_OFFSET: usize = 13;

pub const SIDE_BYTE_OFFSET: usize = 17;

pub const ORDER_BOOK_POSITION_BYTE_OFFSET: usize = 18;

pub const QUANTITY_BYTE_OFFSET: usize = 22;

pub const PRICE_BYTE_OFFSET: usize = 30;

pub const EXCHANGE_ORDER_TYPE_BYTE_OFFSET: usize = 34;

pub const LOT_TYPE_BYTE_OFFSET: usize = 36;

pub const PARTICIPANT_ID_BYTE_OFFSET: usize = 37;

pub const MESSAGE_TYPE_LENGTH: usize = 1;

pub const NANOSECONDS_LENGTH: usize = 4;

pub const ORDER_ID_LENGTH: usize = 8;

pub const ORDER_BOOK_ID_LENGTH: usize = 4;

pub const SIDE_LENGTH: usize = 1;

pub const ORDER_BOOK_POSITION_LENGTH: usize = 4;

pub const QUANTITY_LENGTH: usize = 8;

pub const EXCHANGE_ORDER_TYPE_LENGTH: usize = 2;

pub const LOT_TYPE_LENGTH: usize = 1;

pub const PARTICIPANT_ID_LENGTH: usize = 7;

pub const PRICE_LENGTH: usize = 4;

/// Whether `code` is a side code that the record admits: `B` or `S`.
pub open spec fn is_valid_side(code: char) -> bool {
    code == 'B' || code == 'S'
}

/// Tells whether `code` is a side code that the record admits: `B` or `S`.
pub fn valid_side(code: char) -> (r: bool)
    ensures
        r == is_valid_side(code),
{
    code == 'B' || code == 'S'
}

/// Whether `value` is an exchange order type: one of the
/// fifteen unions of the flags 4, 8, 32 and 8192, the empty one left out.
pub open spec fn is_valid_exchange_order_type(value: u128) -> bool {
    value == 4 || value == 8 || value == 32 || value == 8192 || value == 4 + 8
        || value == 4 + 32 || value == 4 + 8192 || value == 8 + 32 || value == 8 + 8192
        || value == 32 + 8192 || value == 4 + 8 + 32 || value == 4 + 8 + 8192
        || value == 4 + 32 + 8192 || value == 8 + 32 + 8192 || value == 4 + 8 + 32 + 8192
}

/// Tells whether `value` is an exchange order type: one of the
/// fifteen unions of the flags 4, 8, 32 and 8192, the empty one left out.
pub fn valid_exchange_order_type(value: u128) -> (r: bool)
    ensures
        r == is_valid_exchange_order_type(value),
{
    value == 4 || value == 8 || value == 32 || value == 8192 || value == 4 + 8
        || value == 4 + 32 || value == 4 + 8192 || value == 8 + 32 || value == 8 + 8192
        || value == 32 + 8192 || value == 4 + 8 + 32 || value == 4 + 8 + 8192
        || value == 4 + 32 + 8192 || value == 8 + 32 + 8192 || value == 4 + 8 + 32 + 8192
}

/// Whether `value` is a lot type: 0 to 4.
pub open spec fn is_valid_lot_type(value: u128) -> bool {
    value == 0 || value == 1 || value == 2 || value == 3 || value == 4
}

/// Tells whether `value` is a lot type: 0 to 4.
pub fn valid_lot_type(value: u128) -> (r: bool)
    ensures
        r == is_valid_lot_type(value),
{
    value == 0 || value == 1 || value == 2 || value == 3 || value == 4
}

/// The fifteen exchange order types are the numbers, zero left out, that have
/// no bit set outside the four flags.
pub proof fn lemma_exchange_order_types_are_flag_unions(value: u128)
    ensures
        is_valid_exchange_order_type(value) <==> value != 0 && value & !(4u128 | 8 | 32 | 8192)
            == 0,
{
    assert(is_valid_exchange_order_type(value) <==> value != 0 && value & !(4u128 | 8 | 32 | 8192)
        == 0) by (bit_vector);
}

/// A new order in an order book, with the participant that entered it.
#[derive(Debug, Clone, Copy, PartialEq, Eq)]
pub struct AddOrderWithParticipantIdMessage {
    /// The tag of the record: any character but `F`.
    pub message_type: Alpha<MESSAGE_TYPE_LENGTH>,
    /// Nanoseconds since the last seconds record.
    pub nanoseconds: Numeric<NANOSECONDS_LENGTH>,
    /// The identifier of the order.
    pub order_id: Numeric<ORDER_ID_LENGTH>,
    /// The order book that the record is about.
    pub order_book_id: Numeric<ORDER_BOOK_ID_LENGTH>,
    /// The side of the order: `B` or `S`.
    pub side: Alpha<SIDE_LENGTH>,
    /// The rank of the order in its book.
    pub order_book_position: Numeric<ORDER_BOOK_POSITION_LENGTH>,
    /// The visible quantity of the order.
    pub quantity: Numeric<QUANTITY_LENGTH>,
    /// The price of the order.
    pub price: Price,
    /// The flags of the order: a union of 4, 8, 32 and 8192.
    pub exchange_order_type: Numeric<EXCHANGE_ORDER_TYPE_LENGTH>,
    /// The lot type: 0 to 4.
    pub lot_type: Numeric<LOT_TYPE_LENGTH>,
    /// The participant that entered the order, padded with spaces.
    pub participant_id: Alpha<PARTICIPANT_ID_LENGTH>,
}

impl AddOrderWithParticipantIdMessage {
    /// What `new` returns for the given fields: the record that they make, if
    /// the rules of the type hold of it, and else the first rule that is broken.
    pub open spec fn spec_new(
        message_type: Alpha<MESSAGE_TYPE_LENGTH>,
        nanoseconds: Numeric<NANOSECONDS_LENGTH>,
        order_id: Numeric<ORDER_ID_LENGTH>,
        order_book_id: Numeric<ORDER_BOOK_ID_LENGTH>,
        side: Alpha<SIDE_LENGTH>,
        order_book_position: Numeric<ORDER_BOOK_POSITION_LENGTH>,
        quantity: Numeric<QUANTITY_LENGTH>,
        price: Price,
        exchange_order_type: Numeric<EXCHANGE_ORDER_TYPE_LENGTH>,
        lot_type: Numeric<LOT_TYPE_LENGTH>,
        participant_id: Alpha<PARTICIPANT_ID_LENGTH>,
    ) -> Result<Self, DataFeedError> {
        let message = AddOrderWithParticipantIdMessage {
            message_type,
            nanoseconds,
            order_id,
            order_book_id,
            side,
            order_book_position,
            quantity,
            price,
            exchange_order_type,
            lot_type,
            participant_id,
        };
        match message.field_check() {
            Ok(_) => Ok(message),
            Err(e) => Err(e),
        }
    }

    /// Every field is well formed and the rules of the type hold.
    pub open spec fn wf(&self) -> bool {
        &&& self.message_type.wf()
        &&& self.nanoseconds.wf()
        &&& self.order_id.wf()
        &&& self.order_book_id.wf()
        &&& self.side.wf()
        &&& self.order_book_position.wf()
        &&& self.quantity.wf()
        &&& self.exchange_order_type.wf()
        &&& self.lot_type.wf()
        &&& self.participant_id.wf()
        &&& self.field_check() is Ok
    }

    /// Every text field is printable ASCII, so that its bytes can be decoded.
    pub open spec fn text_is_printable(&self) -> bool {
        &&& self.message_type.printable()
        &&& self.side.printable()
        &&& self.participant_id.printable()
    }

    /// Makes a record of the given fields, or reports the first rule of the
    /// type that they break.
    pub fn new(
        message_type: Alpha<MESSAGE_TYPE_LENGTH>,
        nanoseconds: Numeric<NANOSECONDS_LENGTH>,
        order_id: Numeric<ORDER_ID_LENGTH>,
        order_book_id: Numeric<ORDER_BOOK_ID_LENGTH>,
        side: Alpha<SIDE_LENGTH>,
        order_book_position: Numeric<ORDER_BOOK_POSITION_LENGTH>,
        quantity: Numeric<QUANTITY_LENGTH>,
        price: Price,
        exchange_order_type: Numeric<EXCHANGE_ORDER_TYPE_LENGTH>,
        lot_type: Numeric<LOT_TYPE_LENGTH>,
        participant_id: Alpha<PARTICIPANT_ID_LENGTH>,
    ) -> (r: Result<Self, DataFeedError>)
        ensures
            r == Self::spec_new(
                message_type,
                nanoseconds,
                order_id,
                order_book_id,
                side,
                order_book_position,
                quantity,
                price,
                exchange_order_type,
                lot_type,
                participant_id,
            ),
    {
        let message = AddOrderWithParticipantIdMessage {
            message_type,
            nanoseconds,
            order_id,
            order_book_id,
            side,
            order_book_position,
            quantity,
            price,
            exchange_order_type,
            lot_type,
            participant_id,
        };
        match message.validate_fields() {
            Ok(_) => Ok(message),
            Err(e) => Err(e),
        }
    }

    /// The wire image of a record has the wire size of the type.
    pub proof fn lemma_encoding_size(self)
        ensures
            self.encoding().len() == Self::wire_size(),
    {
    }

    /// Each field of the wire image of a record is the image of the field.
    pub proof fn lemma_fields_of_encoding(self)
        ensures
            field(
                self.encoding(),
                MESSAGE_TYPE_BYTE_OFFSET as int,
                MESSAGE_TYPE_LENGTH as int,
            ) == self.message_type.wire_image(),
            field(
                self.encoding(),
                NANOSECONDS_BYTE_OFFSET as int,
                NANOSECONDS_LENGTH as int,
            ) == self.nanoseconds.wire_image(),
            field(
                self.encoding(),
                ORDER_ID_BYTE_OFFSET as int,
                ORDER_ID_LENGTH as int,
            ) == self.order_id.wire_image(),
            field(
                self.encoding(),
                ORDER_BOOK_ID_BYTE_OFFSET as int,
                ORDER_BOOK_ID_LENGTH as int,
            ) == self.order_book_id.wire_image(),
            field(
                self.encoding(),
                SIDE_BYTE_OFFSET as int,
                SIDE_LENGTH as int,
            ) == self.side.wire_image(),
            field(
                self.encoding(),
                ORDER_BOOK_POSITION_BYTE_OFFSET as int,
                ORDER_BOOK_POSITION_LENGTH as int,
            ) == self.order_book_position.wire_image(),
            field(
                self.encoding(),
                QUANTITY_BYTE_OFFSET as int,
                QUANTITY_LENGTH as int,
            ) == self.quantity.wire_image(),
            field(
                self.encoding(),
                PRICE_BYTE_OFFSET as int,
                PRICE_LENGTH as int,
            ) == self.price.wire_image(),
            field(
                self.encoding(),
                EXCHANGE_ORDER_TYPE_BYTE_OFFSET as int,
                EXCHANGE_ORDER_TYPE_LENGTH as int,
            ) == self.exchange_order_type.wire_image(),
            field(
                self.encoding(),
                LOT_TYPE_BYTE_OFFSET as int,
                LOT_TYPE_LENGTH as int,
            ) == self.lot_type.wire_image(),
            field(
                self.encoding(),
                PARTICIPANT_ID_BYTE_OFFSET as int,
                PARTICIPANT_ID_LENGTH as int,
            ) == self.participant_id.wire_image(),
    {
        let bytes = self.encoding();
        let upto_message_type = self.message_type.wire_image();
        let upto_nanoseconds = upto_message_type + self.nanoseconds.wire_image();
        let upto_order_id = upto_nanoseconds + self.order_id.wire_image();
        let upto_order_book_id = upto_order_id + self.order_book_id.wire_image();
        let upto_side = upto_order_book_id + self.side.wire_image();
        let upto_order_book_position = upto_side + self.order_book_position.wire_image();
        let upto_quantity = upto_order_book_position + self.quantity.wire_image();
        let upto_price = upto_quantity + self.price.wire_image();
        let upto_exchange_order_type = upto_price + self.exchange_order_type.wire_image();
        let upto_lot_type = upto_exchange_order_type + self.lot_type.wire_image();
        let upto_participant_id = upto_lot_type + self.participant_id.wire_image();
        assert(field(bytes, 0, bytes.len() as int) =~= bytes);
        lemma_field_split(bytes, upto_lot_type, self.participant_id.wire_image());
        lemma_field_split(bytes, upto_exchange_order_type, self.lot_type.wire_image());
        lemma_field_split(bytes, upto_price, self.exchange_order_type.wire_image());
        lemma_field_split(bytes, upto_quantity, self.price.wire_image());
        lemma_field_split(bytes, upto_order_book_position, self.quantity.wire_image());
        lemma_field_split(bytes, upto_side, self.order_book_position.wire_image());
        lemma_field_split(bytes, upto_order_book_id, self.side.wire_image());
        lemma_field_split(bytes, upto_order_id, self.order_book_id.wire_image());
        lemma_field_split(bytes, upto_nanoseconds, self.order_id.wire_image());
        lemma_field_split(bytes, upto_message_type, self.nanoseconds.wire_image());
    }

    /// Decoding inverts encoding: a well-formed record whose text is printable
    /// is what its own wire image decodes to.
    pub proof fn lemma_decode_encode(self)
        requires
            self.wf(),
            self.text_is_printable(),
        ensures
            Self::decoding(self.encoding()) == Ok::<Self, DataFeedError>(self),
    {
        self.lemma_fields_of_encoding();
        self.message_type.lemma_decode_encode();
        self.nanoseconds.lemma_decode_encode();
        self.order_id.lemma_decode_encode();
        self.order_book_id.lemma_decode_encode();
        self.side.lemma_decode_encode();
        self.order_book_position.lemma_decode_encode();
        self.quantity.lemma_decode_encode();
        self.price.lemma_decode_encode();
        self.exchange_order_type.lemma_decode_encode();
        self.lot_type.lemma_decode_encode();
        self.participant_id.lemma_decode_encode();
    }

    /// Encoding inverts decoding: where a buffer of the wire size decodes, the
    /// record is well formed, its text is printable, and its wire image is the
    /// buffer.
    pub proof fn lemma_encode_decode(bytes: Seq<u8>)
        requires
            bytes.len() == Self::wire_size(),
            Self::decoding(bytes) is Ok,
        ensures
            Self::decoding(bytes)->Ok_0.wf(),
            Self::decoding(bytes)->Ok_0.text_is_printable(),
            Self::decoding(bytes)->Ok_0.encoding() == bytes,
    {
        Alpha::<MESSAGE_TYPE_LENGTH>::lemma_encode_decode(
            field(bytes, MESSAGE_TYPE_BYTE_OFFSET as int, MESSAGE_TYPE_LENGTH as int),
        );
        Numeric::<NANOSECONDS_LENGTH>::lemma_encode_decode(
            field(bytes, NANOSECONDS_BYTE_OFFSET as int, NANOSECONDS_LENGTH as int),
        );
        Numeric::<ORDER_ID_LENGTH>::lemma_encode_decode(
            field(bytes, ORDER_ID_BYTE_OFFSET as int, ORDER_ID_LENGTH as int),
        );
        Numeric::<ORDER_BOOK_ID_LENGTH>::lemma_encode_decode(
            field(bytes, ORDER_BOOK_ID_BYTE_OFFSET as int, ORDER_BOOK_ID_LENGTH as int),
        );
        Alpha::<SIDE_LENGTH>::lemma_encode_decode(
            field(bytes, SIDE_BYTE_OFFSET as int, SIDE_LENGTH as int),
        );
        Numeric::<ORDER_BOOK_POSITION_LENGTH>::lemma_encode_decode(
            field(bytes, ORDER_BOOK_POSITION_BYTE_OFFSET as int, ORDER_BOOK_POSITION_LENGTH as int),
        );
        Numeric::<QUANTITY_LENGTH>::lemma_encode_decode(
            field(bytes, QUANTITY_BYTE_OFFSET as int, QUANTITY_LENGTH as int),
        );
        Price::lemma_encode_decode(field(bytes, PRICE_BYTE_OFFSET as int, PRICE_LENGTH as int));
        Numeric::<EXCHANGE_ORDER_TYPE_LENGTH>::lemma_encode_decode(
            field(bytes, EXCHANGE_ORDER_TYPE_BYTE_OFFSET as int, EXCHANGE_ORDER_TYPE_LENGTH as int),
        );
        Numeric::<LOT_TYPE_LENGTH>::lemma_encode_decode(
            field(bytes, LOT_TYPE_BYTE_OFFSET as int, LOT_TYPE_LENGTH as int),
        );
        Alpha::<PARTICIPANT_ID_LENGTH>::lemma_encode_decode(
            field(bytes, PARTICIPANT_ID_BYTE_OFFSET as int, PARTICIPANT_ID_LENGTH as int),
        );
        lemma_fields_join(bytes, NANOSECONDS_BYTE_OFFSET as int, NANOSECONDS_LENGTH as int);
        lemma_fields_join(bytes, ORDER_ID_BYTE_OFFSET as int, ORDER_ID_LENGTH as int);
        lemma_fields_join(bytes, ORDER_BOOK_ID_BYTE_OFFSET as int, ORDER_BOOK_ID_LENGTH as int);
        lemma_fields_join(bytes, SIDE_BYTE_OFFSET as int, SIDE_LENGTH as int);
        lemma_fields_join(
            bytes,
            ORDER_BOOK_POSITION_BYTE_OFFSET as int,
            ORDER_BOOK_POSITION_LENGTH as int,
        );
        lemma_fields_join(bytes, QUANTITY_BYTE_OFFSET as int, QUANTITY_LENGTH as int);
        lemma_fields_join(bytes, PRICE_BYTE_OFFSET as int, PRICE_LENGTH as int);
        lemma_fields_join(
            bytes,
            EXCHANGE_ORDER_TYPE_BYTE_OFFSET as int,
            EXCHANGE_ORDER_TYPE_LENGTH as int,
        );
        lemma_fields_join(bytes, LOT_TYPE_BYTE_OFFSET as int, LOT_TYPE_LENGTH as int);
        lemma_fields_join(bytes, PARTICIPANT_ID_BYTE_OFFSET as int, PARTICIPANT_ID_LENGTH as int);
        assert(field(bytes, 0, bytes.len() as int) =~= bytes);
    }
}

impl TMessage for AddOrderWithParticipantIdMessage {
    open spec fn wire_size() -> usize {
        ADD_ORDER_WITH_PARTICIPANT_ID_MESSAGE_BYTE_COUNT
    }

    open spec fn encoding(&self) -> Seq<u8> {
        self.message_type.wire_image() + self.nanoseconds.wire_image() + self.order_id.wire_image()
            + self.order_book_id.wire_image() + self.side.wire_image()
            + self.order_book_position.wire_image() + self.quantity.wire_image()
            + self.price.wire_image() + self.exchange_order_type.wire_image()
            + self.lot_type.wire_image() + self.participant_id.wire_image()
    }

    open spec fn decoding(bytes: Seq<u8>) -> Result<Self, DataFeedError> {
        let message_type = Alpha::<MESSAGE_TYPE_LENGTH>::decoding(
            field(bytes, MESSAGE_TYPE_BYTE_OFFSET as int, MESSAGE_TYPE_LENGTH as int),
        );
        let nanoseconds = Numeric::<NANOSECONDS_LENGTH>::decoding(
            field(bytes, NANOSECONDS_BYTE_OFFSET as int, NANOSECONDS_LENGTH as int),
        );
        let order_id = Numeric::<ORDER_ID_LENGTH>::decoding(
            field(bytes, ORDER_ID_BYTE_OFFSET as int, ORDER_ID_LENGTH as int),
        );
        let order_book_id = Numeric::<ORDER_BOOK_ID_LENGTH>::decoding(
            field(bytes, ORDER_BOOK_ID_BYTE_OFFSET as int, ORDER_BOOK_ID_LENGTH as int),
        );
        let side = Alpha::<SIDE_LENGTH>::decoding(
            field(bytes, SIDE_BYTE_OFFSET as int, SIDE_LENGTH as int),
        );
        let order_book_position = Numeric::<ORDER_BOOK_POSITION_LENGTH>::decoding(
            field(bytes, ORDER_BOOK_POSITION_BYTE_OFFSET as int, ORDER_BOOK_POSITION_LENGTH as int),
        );
        let quantity = Numeric::<QUANTITY_LENGTH>::decoding(
            field(bytes, QUANTITY_BYTE_OFFSET as int, QUANTITY_LENGTH as int),
        );
        let price = Price::decoding(field(bytes, PRICE_BYTE_OFFSET as int, PRICE_LENGTH as int));
        let exchange_order_type = Numeric::<EXCHANGE_ORDER_TYPE_LENGTH>::decoding(
            field(bytes, EXCHANGE_ORDER_TYPE_BYTE_OFFSET as int, EXCHANGE_ORDER_TYPE_LENGTH as int),
        );
        let lot_type = Numeric::<LOT_TYPE_LENGTH>::decoding(
            field(bytes, LOT_TYPE_BYTE_OFFSET as int, LOT_TYPE_LENGTH as int),
        );
        let participant_id = Alpha::<PARTICIPANT_ID_LENGTH>::decoding(
            field(bytes, PARTICIPANT_ID_BYTE_OFFSET as int, PARTICIPANT_ID_LENGTH as int),
        );
        if message_type is Err {
            Err(message_type->Err_0)
        } else if nanoseconds is Err {
            Err(nanoseconds->Err_0)
        } else if order_id is Err {
            Err(order_id->Err_0)
        } else if order_book_id is Err {
            Err(order_book_id->Err_0)
        } else if side is Err {
            Err(side->Err_0)
        } else if order_book_position is Err {
            Err(order_book_position->Err_0)
        } else if quantity is Err {
            Err(quantity->Err_0)
        } else if exchange_order_type is Err {
            Err(exchange_order_type->Err_0)
        } else if lot_type is Err {
            Err(lot_type->Err_0)
        } else if participant_id is Err {
            Err(participant_id->Err_0)
        } else {
            Self::spec_new(
                message_type->Ok_0,
                nanoseconds->Ok_0,
                order_id->Ok_0,
                order_book_id->Ok_0,
                side->Ok_0,
                order_book_position->Ok_0,
                quantity->Ok_0,
                price,
                exchange_order_type->Ok_0,
                lot_type->Ok_0,
                participant_id->Ok_0,
            )
        }
    }

    open spec fn field_check(&self) -> Result<(), DataFeedError> {
        let tag = self.message_type@[0];
        let side = self.side@[0];
        let exchange_order_type = self.exchange_order_type.value;
        let lot_type = self.lot_type.value;
        if tag == 'F' {
            Err(DataFeedError::InvalidMessageType('F', tag))
        } else if !is_valid_side(side) {
            Err(DataFeedError::InvalidSideValue(side))
        } else if !is_valid_exchange_order_type(exchange_order_type) {
            Err(DataFeedError::InvalidExchangeOrderTypeValue(exchange_order_type))
        } else if !is_valid_lot_type(lot_type) {
            Err(DataFeedError::InvalidLotTypeValue(lot_type))
        } else {
            Ok(())
        }
    }

    fn to_bin<const SIZE: usize>(&self) -> (r: Result<[u8; SIZE], DataFeedError>) {
        if SIZE != ADD_ORDER_WITH_PARTICIPANT_ID_MESSAGE_BYTE_COUNT {
            return Err(
                DataFeedError::InvalidMessageSize(
                    ADD_ORDER_WITH_PARTICIPANT_ID_MESSAGE_BYTE_COUNT,
                    SIZE,
                ),
            );
        }
        let mut binary = zeroed::<SIZE>();
        write_alpha(&mut binary, MESSAGE_TYPE_BYTE_OFFSET, &self.message_type.value);
        assert(field(binary@, 0, MESSAGE_TYPE_LENGTH as int) =~= self.message_type.wire_image());
        write_num(&mut binary, NANOSECONDS_BYTE_OFFSET, &self.nanoseconds.to_be_bytes());
        write_num(&mut binary, ORDER_ID_BYTE_OFFSET, &self.order_id.to_be_bytes());
        write_num(&mut binary, ORDER_BOOK_ID_BYTE_OFFSET, &self.order_book_id.to_be_bytes());
        write_alpha(&mut binary, SIDE_BYTE_OFFSET, &self.side.value);
        write_num(
            &mut binary,
            ORDER_BOOK_POSITION_BYTE_OFFSET,
            &self.order_book_position.to_be_bytes(),
        );
        write_num(&mut binary, QUANTITY_BYTE_OFFSET, &self.quantity.to_be_bytes());
        write_num(&mut binary, PRICE_BYTE_OFFSET, &self.price.to_be_bytes());
        write_num(
            &mut binary,
            EXCHANGE_ORDER_TYPE_BYTE_OFFSET,
            &self.exchange_order_type.to_be_bytes(),
        );
        write_num(&mut binary, LOT_TYPE_BYTE_OFFSET, &self.lot_type.to_be_bytes());
        write_alpha(&mut binary, PARTICIPANT_ID_BYTE_OFFSET, &self.participant_id.value);
        assert(binary@ =~= field(binary@, 0, SIZE as int));
        Ok(binary)
    }

    fn from_bin<const SIZE: usize>(binary_data: &[u8; SIZE]) -> (r: Result<
        Self,
        DataFeedError,
    >) {
        if SIZE != ADD_ORDER_WITH_PARTICIPANT_ID_MESSAGE_BYTE_COUNT {
            return Err(
                DataFeedError::InvalidMessageSize(
                    ADD_ORDER_WITH_PARTICIPANT_ID_MESSAGE_BYTE_COUNT,
                    SIZE,
                ),
            );
        }
        AddOrderWithParticipantIdMessage::new(
            read_alpha(binary_data, MESSAGE_TYPE_BYTE_OFFSET)?,
            read_numeric(binary_data, NANOSECONDS_BYTE_OFFSET)?,
            read_numeric(binary_data, ORDER_ID_BYTE_OFFSET)?,
            read_numeric(binary_data, ORDER_BOOK_ID_BYTE_OFFSET)?,
            read_alpha(binary_data, SIDE_BYTE_OFFSET)?,
            read_numeric(binary_data, ORDER_BOOK_POSITION_BYTE_OFFSET)?,
            read_numeric(binary_data, QUANTITY_BYTE_OFFSET)?,
            read_price(binary_data, PRICE_BYTE_OFFSET),
            read_numeric(binary_data, EXCHANGE_ORDER_TYPE_BYTE_OFFSET)?,
            read_numeric(binary_data, LOT_TYPE_BYTE_OFFSET)?,
            read_alpha(binary_data, PARTICIPANT_ID_BYTE_OFFSET)?,
        )
    }

    fn validate_fields(&self) -> (r: Result<(), DataFeedError>) {
        let tag = self.message_type.value[0];
        if tag == 'F' {
            return Err(DataFeedError::InvalidMessageType('F', tag));
        }
        let side = self.side.value[0];
        if !valid_side(side) {
            return Err(DataFeedError::InvalidSideValue(side));
        }
        let exchange_order_type = self.exchange_order_type.value;
        if !valid_exchange_order_type(exchange_order_type) {
            return Err(DataFeedError::InvalidExchangeOrderTypeValue(exchange_order_type));
        }
        let lot_type = self.lot_type.value;
        if !valid_lot_type(lot_type) {
            return Err(DataFeedError::InvalidLotTypeValue(lot_type));
        }
        Ok(())
    }
}

} // verus!
