//! The tick size table entry record: tag `L`, 25 bytes.

use crate::enums::data_feed_error::DataFeedError;
use crate::global_constants::TICK_SIZE_TABLE_ENTRY_MESSAGE_BYTE_COUNT;
use crate::models::data_types::alpha::Alpha;
use crate::models::data_types::numeric::Numeric;
use crate::models::data_types::price::Price;
use crate::traits::message::TMessage;
use crate::util::buffer_utils::{
    field, lemma_field_split, lemma_fields_join, read_alpha, read_numeric, read_price, write_alpha,
    write_num, zeroed,
};
use vstd::prelude::*;

verus! {

pub const MESSAGE_TYPE_BYTE_OFFSET: usize = 0;

pub const NANOSECONDS_BYTE_OFFSET: usize = 1;

pub const ORDER_BOOK_ID_BYTE_OFFSET: usize = 5;

pub const TICK_SIZE_BYTE_OFFSET: usize = 9;

pub const PRICE_FROM_BYTE_OFFSET: usize = 17;

pub const PRICE_TO_BYTE_OFFSET: usize = 21;

pub const MESSAGE_TYPE_LENGTH: usize = 1;

pub const NANOSECONDS_LENGTH: usize = 4;

pub const ORDER_BOOK_ID_LENGTH: usize = 4;

pub const TICK_SIZE_LENGTH: usize = 8;

pub const PRICE_FROM_LENGTH: usize = 4;

pub const PRICE_TO_LENGTH: usize = 4;

/// One row of the tick size table of an order book.
#[derive(Debug, Clone, Copy, PartialEq, Eq)]
pub struct TickSizeTableEntryMessage {
    /// The tag of the record: `L`.
    pub message_type: Alpha<MESSAGE_TYPE_LENGTH>,
    /// Nanoseconds since the last seconds record.
    pub nanoseconds: Numeric<NANOSECONDS_LENGTH>,
    /// The order book that the record is about.
    pub order_book_id: Numeric<ORDER_BOOK_ID_LENGTH>,
    /// The tick size that holds in the price range.
    pub tick_size: Numeric<TICK_SIZE_LENGTH>,
    /// The lower end of the price range.
    pub price_from: Price,
    /// The upper end of the price range.
    pub price_to: Price,
}

impl TickSizeTableEntryMessage {
    /// What `new` returns for the given fields: the record that they make, if
    /// the rules of the type hold of it, and else the first rule that is broken.
    pub open spec fn spec_new(
        message_type: Alpha<MESSAGE_TYPE_LENGTH>,
        nanoseconds: Numeric<NANOSECONDS_LENGTH>,
        order_book_id: Numeric<ORDER_BOOK_ID_LENGTH>,
        tick_size: Numeric<TICK_SIZE_LENGTH>,
        price_from: Price,
        price_to: Price,
    ) -> Result<Self, DataFeedError> {
        let message = TickSizeTableEntryMessage {
            message_type,
            nanoseconds,
            order_book_id,
            tick_size,
            price_from,
            price_to,
        };
        match message.field_check() {
            Ok(_) => Ok(message),
            Err(e) => Err(e),
        }
    }

    /// Every field is well formed and the rules of the type hold.
    pub open spec fn wf(&self) -> bool {
        &&& self.message_type.wf()
        &&& self.nanoseconds.wf()
        &&& self.order_book_id.wf()
        &&& self.tick_size.wf()
        &&& self.field_check() is Ok
    }

    /// Every text field is printable ASCII, so that its bytes can be decoded.
    pub open spec fn text_is_printable(&self) -> bool {
        &&& self.message_type.printable()
    }

    /// Makes a record of the given fields, or reports the first rule of the
    /// type that they break.
    pub fn new(
        message_type: Alpha<MESSAGE_TYPE_LENGTH>,
        nanoseconds: Numeric<NANOSECONDS_LENGTH>,
        order_book_id: Numeric<ORDER_BOOK_ID_LENGTH>,
        tick_size: Numeric<TICK_SIZE_LENGTH>,
        price_from: Price,
        price_to: Price,
    ) -> (r: Result<Self, DataFeedError>)
        ensures
            r == Self::spec_new(
                message_type,
                nanoseconds,
                order_book_id,
                tick_size,
                price_from,
                price_to,
            ),
    {
        let message = TickSizeTableEntryMessage {
            message_type,
            nanoseconds,
            order_book_id,
            tick_size,
            price_from,
            price_to,
        };
        match message.validate_fields() {
            Ok(_) => Ok(message),
            Err(e) => Err(e),
        }
    }

    /// The wire image of a record has the wire size of the type.
    pub proof fn lemma_encoding_size(self)
        ensures
            self.encoding().len() == Self::wire_size(),
    {
    }

    /// Each field of the wire image of a record is the image of the field.
    pub proof fn lemma_fields_of_encoding(self)
        ensures
            field(
                self.encoding(),
                MESSAGE_TYPE_BYTE_OFFSET as int,
                MESSAGE_TYPE_LENGTH as int,
            ) == self.message_type.wire_image(),
            field(
                self.encoding(),
                NANOSECONDS_BYTE_OFFSET as int,
                NANOSECONDS_LENGTH as int,
            ) == self.nanoseconds.wire_image(),
            field(
                self.encoding(),
                ORDER_BOOK_ID_BYTE_OFFSET as int,
                ORDER_BOOK_ID_LENGTH as int,
            ) == self.order_book_id.wire_image(),
            field(
                self.encoding(),
                TICK_SIZE_BYTE_OFFSET as int,
                TICK_SIZE_LENGTH as int,
            ) == self.tick_size.wire_image(),
            field(
                self.encoding(),
                PRICE_FROM_BYTE_OFFSET as int,
                PRICE_FROM_LENGTH as int,
            ) == self.price_from.wire_image(),
            field(
                self.encoding(),
                PRICE_TO_BYTE_OFFSET as int,
                PRICE_TO_LENGTH as int,
            ) == self.price_to.wire_image(),
    {
        let bytes = self.encoding();
        let upto_message_type = self.message_type.wire_image();
        let upto_nanoseconds = upto_message_type + self.nanoseconds.wire_image();
        let upto_order_book_id = upto_nanoseconds + self.order_book_id.wire_image();
        let upto_tick_size = upto_order_book_id + self.tick_size.wire_image();
        let upto_price_from = upto_tick_size + self.price_from.wire_image();
        let upto_price_to = upto_price_from + self.price_to.wire_image();
        assert(field(bytes, 0, bytes.len() as int) =~= bytes);
        lemma_field_split(bytes, upto_price_from, self.price_to.wire_image());
        lemma_field_split(bytes, upto_tick_size, self.price_from.wire_image());
        lemma_field_split(bytes, upto_order_book_id, self.tick_size.wire_image());
        lemma_field_split(bytes, upto_nanoseconds, self.order_book_id.wire_image());
        lemma_field_split(bytes, upto_message_type, self.nanoseconds.wire_image());
    }

    /// The rules of the type leave its text no choice but printable characters.
    pub proof fn lemma_text_is_printable(self)
        requires
            self.field_check() is Ok,
        ensures
            self.text_is_printable(),
    {
    }

    /// Decoding inverts encoding: a well-formed record is what its own wire
    /// image decodes to.
    pub proof fn lemma_decode_encode(self)
        requires
            self.wf(),
        ensures
            Self::decoding(self.encoding()) == Ok::<Self, DataFeedError>(self),
    {
        self.lemma_text_is_printable();
        self.lemma_fields_of_encoding();
        self.message_type.lemma_decode_encode();
        self.nanoseconds.lemma_decode_encode();
        self.order_book_id.lemma_decode_encode();
        self.tick_size.lemma_decode_encode();
        self.price_from.lemma_decode_encode();
        self.price_to.lemma_decode_encode();
    }

    /// Encoding inverts decoding: where a buffer of the wire size decodes, the
    /// record is well formed, its text is printable, and its wire image is the
    /// buffer.
    pub proof fn lemma_encode_decode(bytes: Seq<u8>)
        requires
            bytes.len() == Self::wire_size(),
            Self::decoding(bytes) is Ok,
        ensures
            Self::decoding(bytes)->Ok_0.wf(),
            Self::decoding(bytes)->Ok_0.text_is_printable(),
            Self::decoding(bytes)->Ok_0.encoding() == bytes,
    {
        Alpha::<MESSAGE_TYPE_LENGTH>::lemma_encode_decode(
            field(bytes, MESSAGE_TYPE_BYTE_OFFSET as int, MESSAGE_TYPE_LENGTH as int),
        );
        Numeric::<NANOSECONDS_LENGTH>::lemma_encode_decode(
            field(bytes, NANOSECONDS_BYTE_OFFSET as int, NANOSECONDS_LENGTH as int),
        );
        Numeric::<ORDER_BOOK_ID_LENGTH>::lemma_encode_decode(
            field(bytes, ORDER_BOOK_ID_BYTE_OFFSET as int, ORDER_BOOK_ID_LENGTH as int),
        );
        Numeric::<TICK_SIZE_LENGTH>::lemma_encode_decode(
            field(bytes, TICK_SIZE_BYTE_OFFSET as int, TICK_SIZE_LENGTH as int),
        );
        Price::lemma_encode_decode(
            field(bytes, PRICE_FROM_BYTE_OFFSET as int, PRICE_FROM_LENGTH as int),
        );
        Price::lemma_encode_decode(
            field(bytes, PRICE_TO_BYTE_OFFSET as int, PRICE_TO_LENGTH as int),
        );
        lemma_fields_join(bytes, NANOSECONDS_BYTE_OFFSET as int, NANOSECONDS_LENGTH as int);
        lemma_fields_join(bytes, ORDER_BOOK_ID_BYTE_OFFSET as int, ORDER_BOOK_ID_LENGTH as int);
        lemma_fields_join(bytes, TICK_SIZE_BYTE_OFFSET as int, TICK_SIZE_LENGTH as int);
        lemma_fields_join(bytes, PRICE_FROM_BYTE_OFFSET as int, PRICE_FROM_LENGTH as int);
        lemma_fields_join(bytes, PRICE_TO_BYTE_OFFSET as int, PRICE_TO_LENGTH as int);
        assert(field(bytes, 0, bytes.len() as int) =~= bytes);
    }
}

impl TMessage for TickSizeTableEntryMessage {
    open spec fn wire_size() -> usize {
        TICK_SIZE_TABLE_ENTRY_MESSAGE_BYTE_COUNT
    }

    open spec fn encoding(&self) -> Seq<u8> {
        self.message_type.wire_image() + self.nanoseconds.wire_image()
            + self.order_book_id.wire_image() + self.tick_size.wire_image()
            + self.price_from.wire_image() + self.price_to.wire_image()
    }

    open spec fn decoding(bytes: Seq<u8>) -> Result<Self, DataFeedError> {
        let message_type = Alpha::<MESSAGE_TYPE_LENGTH>::decoding(
            field(bytes, MESSAGE_TYPE_BYTE_OFFSET as int, MESSAGE_TYPE_LENGTH as int),
        );
        let nanoseconds = Numeric::<NANOSECONDS_LENGTH>::decoding(
            field(bytes, NANOSECONDS_BYTE_OFFSET as int, NANOSECONDS_LENGTH as int),
        );
        let order_book_id = Numeric::<ORDER_BOOK_ID_LENGTH>::decoding(
            field(bytes, ORDER_BOOK_ID_BYTE_OFFSET as int, ORDER_BOOK_ID_LENGTH as int),
        );
        let tick_size = Numeric::<TICK_SIZE_LENGTH>::decoding(
            field(bytes, TICK_SIZE_BYTE_OFFSET as int, TICK_SIZE_LENGTH as int),
        );
        let price_from = Price::decoding(
            field(bytes, PRICE_FROM_BYTE_OFFSET as int, PRICE_FROM_LENGTH as int),
        );
        let price_to = Price::decoding(
            field(bytes, PRICE_TO_BYTE_OFFSET as int, PRICE_TO_LENGTH as int),
        );
        if message_type is Err {
            Err(message_type->Err_0)
        } else if nanoseconds is Err {
            Err(nanoseconds->Err_0)
        } else if order_book_id is Err {
            Err(order_book_id->Err_0)
        } else if tick_size is Err {
            Err(tick_size->Err_0)
        } else {
            Self::spec_new(
                message_type->Ok_0,
                nanoseconds->Ok_0,
                order_book_id->Ok_0,
                tick_size->Ok_0,
                price_from,
                price_to,
            )
        }
    }

    open spec fn field_check(&self) -> Result<(), DataFeedError> {
        let tag = self.message_type@[0];
        if tag != 'L' {
            Err(DataFeedError::InvalidMessageType('L', tag))
        } else {
            Ok(())
        }
    }

    fn to_bin<const SIZE: usize>(&self) -> (r: Result<[u8; SIZE], DataFeedError>) {
        if SIZE != TICK_SIZE_TABLE_ENTRY_MESSAGE_BYTE_COUNT {
            return Err(
                DataFeedError::InvalidMessageSize(TICK_SIZE_TABLE_ENTRY_MESSAGE_BYTE_COUNT, SIZE),
            );
        }
        let mut binary = zeroed::<SIZE>();
        write_alpha(&mut binary, MESSAGE_TYPE_BYTE_OFFSET, &self.message_type.value);
        assert(field(binary@, 0, MESSAGE_TYPE_LENGTH as int) =~= self.message_type.wire_image());
        write_num(&mut binary, NANOSECONDS_BYTE_OFFSET, &self.nanoseconds.to_be_bytes());
        write_num(&mut binary, ORDER_BOOK_ID_BYTE_OFFSET, &self.order_book_id.to_be_bytes());
        write_num(&mut binary, TICK_SIZE_BYTE_OFFSET, &self.tick_size.to_be_bytes());
        write_num(&mut binary, PRICE_FROM_BYTE_OFFSET, &self.price_from.to_be_bytes());
        write_num(&mut binary, PRICE_TO_BYTE_OFFSET, &self.price_to.to_be_bytes());
        assert(binary@ =~= field(binary@, 0, SIZE as int));
        Ok(binary)
    }

    fn from_bin<const SIZE: usize>(binary_data: &[u8; SIZE]) -> (r: Result<
        Self,
        DataFeedError,
    >) {
        if SIZE != TICK_SIZE_TABLE_ENTRY_MESSAGE_BYTE_COUNT {
            return Err(
                DataFeedError::InvalidMessageSize(TICK_SIZE_TABLE_ENTRY_MESSAGE_BYTE_COUNT, SIZE),
            );
        }
        TickSizeTableEntryMessage::new(
            read_alpha(binary_data, MESSAGE_TYPE_BYTE_OFFSET)?,
            read_numeric(binary_data, NANOSECONDS_BYTE_OFFSET)?,
            read_numeric(binary_data, ORDER_BOOK_ID_BYTE_OFFSET)?,
            read_numeric(binary_data, TICK_SIZE_BYTE_OFFSET)?,
            read_price(binary_data, PRICE_FROM_BYTE_OFFSET),
            read_price(binary_data, PRICE_TO_BYTE_OFFSET),
        )
    }

    fn validate_fields(&self) -> (r: Result<(), DataFeedError>) {
        let tag = self.message_type.value[0];
        if tag != 'L' {
            return Err(DataFeedError::InvalidMessageType('L', tag));
        }
        Ok(())
    }
}

} // verus!
