//! The equilibrium price update record: tag `Z`, 53 bytes.

use crate::enums::data_feed_error::DataFeedError;
use crate::global_constants::EQUILIBRIUM_PRICE_UPDATE_MESSAGE_BYTE_COUNT;
use crate::models::data_types::alpha::Alpha;
use crate::models::data_types::numeric::Numeric;
use crate::models::data_types::price::Price;
use crate::traits::message::TMessage;
use crate::util::buffer_utils::{
    field, lemma_field_split, lemma_fields_join, read_alpha, read_numeric, read_price, write_alpha,
    write_num, zeroed,
};
use vstd::prelude::*;

verus! {

pub const MESSAGE_TYPE_BYTE_OFFSET: usize = 0;

pub const NANOSECONDS_BYTE_OFFSET: usize = 1;

pub const ORDER_BOOK_ID_BYTE_OFFSET: usize = 5;

pub const BID_QUANTITY_BYTE_OFFSET: usize = 9;

pub const ASK_QUANTITY_BYTE_OFFSET: usize = 17;

pub const EQUILIBRIUM_PRICE_BYTE_OFFSET: usize = 25;

pub const BEST_BID_PRICE_BYTE_OFFSET: usize = 29;

pub const BEST_ASK_PRICE_BYTE_OFFSET: usize = 33;

pub const BEST_BID_QUANTITY_BYTE_OFFSET: usize = 37;

pub const BEST_ASK_QUANTITY_BYTE_OFFSET: usize = 45;

pub const MESSAGE_TYPE_LENGTH: usize = 1;

pub const NANOSECONDS_LENGTH: usize = 4;

pub const ORDER_BOOK_ID_LENGTH: usize = 4;

pub const BID_QUANTITY_LENGTH: usize = 8;

pub const ASK_QUANTITY_LENGTH: usize = 8;

pub const BEST_BID_QUANTITY_LENGTH: usize = 8;

pub const BEST_ASK_QUANTITY_LENGTH: usize = 8;

pub const EQUILIBRIUM_PRICE_LENGTH: usize = 4;

pub const BEST_BID_PRICE_LENGTH: usize = 4;

pub const BEST_ASK_PRICE_LENGTH: usize = 4;

/// The price at which an auction would match, with the best bid and ask.
#[derive(Debug, Clone, Copy, PartialEq, Eq)]
pub struct EquilibriumPriceUpdateMessage {
    /// The tag of the record: `Z`.
    pub message_type: Alpha<MESSAGE_TYPE_LENGTH>,
    /// Nanoseconds since the last seconds record.
    pub nanoseconds: Numeric<NANOSECONDS_LENGTH>,
    /// The order book that the record is about.
    pub order_book_id: Numeric<ORDER_BOOK_ID_LENGTH>,
    /// The quantity on the bid side at the equilibrium price.
    pub bid_quantity: Numeric<BID_QUANTITY_LENGTH>,
    /// The quantity on the ask side at the equilibrium price.
    pub ask_quantity: Numeric<ASK_QUANTITY_LENGTH>,
    /// The equilibrium price.
    pub equilibrium_price: Price,
    /// The best bid price.
    pub best_bid_price: Price,
    /// The best ask price.
    pub best_ask_price: Price,
    /// The quantity at the best bid price.
    pub best_bid_quantity: Numeric<BEST_BID_QUANTITY_LENGTH>,
    /// The quantity at the best ask price.
    pub best_ask_quantity: Numeric<BEST_ASK_QUANTITY_LENGTH>,
}

impl EquilibriumPriceUpdateMessage {
    /// What `new` returns for the given fields: the record that they make, if
    /// the rules of the type hold of it, and else the first rule that is broken.
    pub open spec fn spec_new(
        message_type: Alpha<MESSAGE_TYPE_LENGTH>,
        nanoseconds: Numeric<NANOSECONDS_LENGTH>,
        order_book_id: Numeric<ORDER_BOOK_ID_LENGTH>,
        bid_quantity: Numeric<BID_QUANTITY_LENGTH>,
        ask_quantity: Numeric<ASK_QUANTITY_LENGTH>,
        equilibrium_price: Price,
        best_bid_price: Price,
        best_ask_price: Price,
        best_bid_quantity: Numeric<BEST_BID_QUANTITY_LENGTH>,
        best_ask_quantity: Numeric<BEST_ASK_QUANTITY_LENGTH>,
    ) -> Result<Self, DataFeedError> {
        let message = EquilibriumPriceUpdateMessage {
            message_type,
            nanoseconds,
            order_book_id,
            bid_quantity,
            ask_quantity,
            equilibrium_price,
            best_bid_price,
            best_ask_price,
            best_bid_quantity,
            best_ask_quantity,
        };
        match message.field_check() {
            Ok(_) => Ok(message),
            Err(e) => Err(e),
        }
    }

    /// Every field is well formed and the rules of the type hold.
    pub open spec fn wf(&self) -> bool {
        &&& self.message_type.wf()
        &&& self.nanoseconds.wf()
        &&& self.order_book_id.wf()
        &&& self.bid_quantity.wf()
        &&& self.ask_quantity.wf()
        &&& self.best_bid_quantity.wf()
        &&& self.best_ask_quantity.wf()
        &&& self.field_check() is Ok
    }

    /// Every text field is printable ASCII, so that its bytes can be decoded.
    pub open spec fn text_is_printable(&self) -> bool {
        &&& self.message_type.printable()
    }

    /// Makes a record of the given fields, or reports the first rule of the
    /// type that they break.
    pub fn new(
        message_type: Alpha<MESSAGE_TYPE_LENGTH>,
        nanoseconds: Numeric<NANOSECONDS_LENGTH>,
        order_book_id: Numeric<ORDER_BOOK_ID_LENGTH>,
        bid_quantity: Numeric<BID_QUANTITY_LENGTH>,
        ask_quantity: Numeric<ASK_QUANTITY_LENGTH>,
        equilibrium_price: Price,
        best_bid_price: Price,
        best_ask_price: Price,
        best_bid_quantity: Numeric<BEST_BID_QUANTITY_LENGTH>,
        best_ask_quantity: Numeric<BEST_ASK_QUANTITY_LENGTH>,
    ) -> (r: Result<Self, DataFeedError>)
        ensures
            r == Self::spec_new(
                message_type,
                nanoseconds,
                order_book_id,
                bid_quantity,
                ask_quantity,
                equilibrium_price,
                best_bid_price,
                best_ask_price,
                best_bid_quantity,
                best_ask_quantity,
            ),
    {
        let message = EquilibriumPriceUpdateMessage {
            message_type,
            nanoseconds,
            order_book_id,
            bid_quantity,
            ask_quantity,
            equilibrium_price,
            best_bid_price,
            best_ask_price,
            best_bid_quantity,
            best_ask_quantity,
        };
        match message.validate_fields() {
            Ok(_) => Ok(message),
            Err(e) => Err(e),
        }
    }

    /// The wire image of a record has the wire size of the type.
    pub proof fn lemma_encoding_size(self)
        ensures
            self.encoding().len() == Self::wire_size(),
    {
    }

    /// Each field of the wire image of a record is the image of the field.
    pub proof fn lemma_fields_of_encoding(self)
        ensures
            field(
                self.encoding(),
                MESSAGE_TYPE_BYTE_OFFSET as int,
                MESSAGE_TYPE_LENGTH as int,
            ) == self.message_type.wire_image(),
            field(
                self.encoding(),
                NANOSECONDS_BYTE_OFFSET as int,
                NANOSECONDS_LENGTH as int,
            ) == self.nanoseconds.wire_image(),
            field(
                self.encoding(),
                ORDER_BOOK_ID_BYTE_OFFSET as int,
                ORDER_BOOK_ID_LENGTH as int,
            ) == self.order_book_id.wire_image(),
            field(
                self.encoding(),
                BID_QUANTITY_BYTE_OFFSET as int,
                BID_QUANTITY_LENGTH as int,
            ) == self.bid_quantity.wire_image(),
            field(
                self.encoding(),
                ASK_QUANTITY_BYTE_OFFSET as int,
                ASK_QUANTITY_LENGTH as int,
            ) == self.ask_quantity.wire_image(),
            field(
                self.encoding(),
                EQUILIBRIUM_PRICE_BYTE_OFFSET as int,
                EQUILIBRIUM_PRICE_LENGTH as int,
            ) == self.equilibrium_price.wire_image(),
            field(
                self.encoding(),
                BEST_BID_PRICE_BYTE_OFFSET as int,
                BEST_BID_PRICE_LENGTH as int,
            ) == self.best_bid_price.wire_image(),
            field(
                self.encoding(),
                BEST_ASK_PRICE_BYTE_OFFSET as int,
                BEST_ASK_PRICE_LENGTH as int,
            ) == self.best_ask_price.wire_image(),
            field(
                self.encoding(),
                BEST_BID_QUANTITY_BYTE_OFFSET as int,
                BEST_BID_QUANTITY_LENGTH as int,
            ) == self.best_bid_quantity.wire_image(),
            field(
                self.encoding(),
                BEST_ASK_QUANTITY_BYTE_OFFSET as int,
                BEST_ASK_QUANTITY_LENGTH as int,
            ) == self.best_ask_quantity.wire_image(),
    {
        let bytes = self.encoding();
        let upto_message_type = self.message_type.wire_image();
        let upto_nanoseconds = upto_message_type + self.nanoseconds.wire_image();
        let upto_order_book_id = upto_nanoseconds + self.order_book_id.wire_image();
        let upto_bid_quantity = upto_order_book_id + self.bid_quantity.wire_image();
        let upto_ask_quantity = upto_bid_quantity + self.ask_quantity.wire_image();
        let upto_equilibrium_price = upto_ask_quantity + self.equilibrium_price.wire_image();
        let upto_best_bid_price = upto_equilibrium_price + self.best_bid_price.wire_image();
        let upto_best_ask_price = upto_best_bid_price + self.best_ask_price.wire_image();
        let upto_best_bid_quantity = upto_best_ask_price + self.best_bid_quantity.wire_image();
        let upto_best_ask_quantity = upto_best_bid_quantity + self.best_ask_quantity.wire_image();
        assert(field(bytes, 0, bytes.len() as int) =~= bytes);
        lemma_field_split(bytes, upto_best_bid_quantity, self.best_ask_quantity.wire_image());
        lemma_field_split(bytes, upto_best_ask_price, self.best_bid_quantity.wire_image());
        lemma_field_split(bytes, upto_best_bid_price, self.best_ask_price.wire_image());
        lemma_field_split(bytes, upto_equilibrium_price, self.best_bid_price.wire_image());
        lemma_field_split(bytes, upto_ask_quantity, self.equilibrium_price.wire_image());
        lemma_field_split(bytes, upto_bid_quantity, self.ask_quantity.wire_image());
        lemma_field_split(bytes, upto_order_book_id, self.bid_quantity.wire_image());
        lemma_field_split(bytes, upto_nanoseconds, self.order_book_id.wire_image());
        lemma_field_split(bytes, upto_message_type, self.nanoseconds.wire_image());
    }

    /// The rules of the type leave its text no choice but printable characters.
    pub proof fn lemma_text_is_printable(self)
        requires
            self.field_check() is Ok,
        ensures
            self.text_is_printable(),
    {
    }

    /// Decoding inverts encoding: a well-formed record is what its own wire
    /// image decodes to.
    pub proof fn lemma_decode_encode(self)
        requires
            self.wf(),
        ensures
            Self::decoding(self.encoding()) == Ok::<Self, DataFeedError>(self),
    {
        self.lemma_text_is_printable();
        self.lemma_fields_of_encoding();
        self.message_type.lemma_decode_encode();
        self.nanoseconds.lemma_decode_encode();
        self.order_book_id.lemma_decode_encode();
        self.bid_quantity.lemma_decode_encode();
        self.ask_quantity.lemma_decode_encode();
        self.equilibrium_price.lemma_decode_encode();
        self.best_bid_price.lemma_decode_encode();
        self.best_ask_price.lemma_decode_encode();
        self.best_bid_quantity.lemma_decode_encode();
        self.best_ask_quantity.lemma_decode_encode();
    }

    /// Encoding inverts decoding: where a buffer of the wire size decodes, the
    /// record is well formed, its text is printable, and its wire image is the
    /// buffer.
    pub proof fn lemma_encode_decode(bytes: Seq<u8>)
        requires
            bytes.len() == Self::wire_size(),
            Self::decoding(bytes) is Ok,
        ensures
            Self::decoding(bytes)->Ok_0.wf(),
            Self::decoding(bytes)->Ok_0.text_is_printable(),
            Self::decoding(bytes)->Ok_0.encoding() == bytes,
    {
        Alpha::<MESSAGE_TYPE_LENGTH>::lemma_encode_decode(
            field(bytes, MESSAGE_TYPE_BYTE_OFFSET as int, MESSAGE_TYPE_LENGTH as int),
        );
        Numeric::<NANOSECONDS_LENGTH>::lemma_encode_decode(
            field(bytes, NANOSECONDS_BYTE_OFFSET as int, NANOSECONDS_LENGTH as int),
        );
        Numeric::<ORDER_BOOK_ID_LENGTH>::lemma_encode_decode(
            field(bytes, ORDER_BOOK_ID_BYTE_OFFSET as int, ORDER_BOOK_ID_LENGTH as int),
        );
        Numeric::<BID_QUANTITY_LENGTH>::lemma_encode_decode(
            field(bytes, BID_QUANTITY_BYTE_OFFSET as int, BID_QUANTITY_LENGTH as int),
        );
        Numeric::<ASK_QUANTITY_LENGTH>::lemma_encode_decode(
            field(bytes, ASK_QUANTITY_BYTE_OFFSET as int, ASK_QUANTITY_LENGTH as int),
        );
        Price::lemma_encode_decode(
            field(bytes, EQUILIBRIUM_PRICE_BYTE_OFFSET as int, EQUILIBRIUM_PRICE_LENGTH as int),
        );
        Price::lemma_encode_decode(
            field(bytes, BEST_BID_PRICE_BYTE_OFFSET as int, BEST_BID_PRICE_LENGTH as int),
        );
        Price::lemma_encode_decode(
            field(bytes, BEST_ASK_PRICE_BYTE_OFFSET as int, BEST_ASK_PRICE_LENGTH as int),
        );
        Numeric::<BEST_BID_QUANTITY_LENGTH>::lemma_encode_decode(
            field(bytes, BEST_BID_QUANTITY_BYTE_OFFSET as int, BEST_BID_QUANTITY_LENGTH as int),
        );
        Numeric::<BEST_ASK_QUANTITY_LENGTH>::lemma_encode_decode(
            field(bytes, BEST_ASK_QUANTITY_BYTE_OFFSET as int, BEST_ASK_QUANTITY_LENGTH as int),
        );
        lemma_fields_join(bytes, NANOSECONDS_BYTE_OFFSET as int, NANOSECONDS_LENGTH as int);
        lemma_fields_join(bytes, ORDER_BOOK_ID_BYTE_OFFSET as int, ORDER_BOOK_ID_LENGTH as int);
        lemma_fields_join(bytes, BID_QUANTITY_BYTE_OFFSET as int, BID_QUANTITY_LENGTH as int);
        lemma_fields_join(bytes, ASK_QUANTITY_BYTE_OFFSET as int, ASK_QUANTITY_LENGTH as int);
        lemma_fields_join(
            bytes,
            EQUILIBRIUM_PRICE_BYTE_OFFSET as int,
            EQUILIBRIUM_PRICE_LENGTH as int,
        );
        lemma_fields_join(bytes, BEST_BID_PRICE_BYTE_OFFSET as int, BEST_BID_PRICE_LENGTH as int);
        lemma_fields_join(bytes, BEST_ASK_PRICE_BYTE_OFFSET as int, BEST_ASK_PRICE_LENGTH as int);
        lemma_fields_join(
            bytes,
            BEST_BID_QUANTITY_BYTE_OFFSET as int,
            BEST_BID_QUANTITY_LENGTH as int,
        );
        lemma_fields_join(
            bytes,
            BEST_ASK_QUANTITY_BYTE_OFFSET as int,
            BEST_ASK_QUANTITY_LENGTH as int,
        );
        assert(field(bytes, 0, bytes.len() as int) =~= bytes);
    }
}

impl TMessage for EquilibriumPriceUpdateMessage {
    open spec fn wire_size() -> usize {
        EQUILIBRIUM_PRICE_UPDATE_MESSAGE_BYTE_COUNT
    }

    open spec fn encoding(&self) -> Seq<u8> {
        self.message_type.wire_image() + self.nanoseconds.wire_image()
            + self.order_book_id.wire_image() + self.bid_quantity.wire_image()
            + self.ask_quantity.wire_image() + self.equilibrium_price.wire_image()
            + self.best_bid_price.wire_image() + self.best_ask_price.wire_image()
            + self.best_bid_quantity.wire_image() + self.best_ask_quantity.wire_image()
    }

    open spec fn decoding(bytes: Seq<u8>) -> Result<Self, DataFeedError> {
        let message_type = Alpha::<MESSAGE_TYPE_LENGTH>::decoding(
            field(bytes, MESSAGE_TYPE_BYTE_OFFSET as int, MESSAGE_TYPE_LENGTH as int),
        );
        let nanoseconds = Numeric::<NANOSECONDS_LENGTH>::decoding(
            field(bytes, NANOSECONDS_BYTE_OFFSET as int, NANOSECONDS_LENGTH as int),
        );
        let order_book_id = Numeric::<ORDER_BOOK_ID_LENGTH>::decoding(
            field(bytes, ORDER_BOOK_ID_BYTE_OFFSET as int, ORDER_BOOK_ID_LENGTH as int),
        );
        let bid_quantity = Numeric::<BID_QUANTITY_LENGTH>::decoding(
            field(bytes, BID_QUANTITY_BYTE_OFFSET as int, BID_QUANTITY_LENGTH as int),
        );
        let ask_quantity = Numeric::<ASK_QUANTITY_LENGTH>::decoding(
            field(bytes, ASK_QUANTITY_BYTE_OFFSET as int, ASK_QUANTITY_LENGTH as int),
        );
        let equilibrium_price = Price::decoding(
            field(bytes, EQUILIBRIUM_PRICE_BYTE_OFFSET as int, EQUILIBRIUM_PRICE_LENGTH as int),
        );
        let best_bid_price = Price::decoding(
            field(bytes, BEST_BID_PRICE_BYTE_OFFSET as int, BEST_BID_PRICE_LENGTH as int),
        );
        let best_ask_price = Price::decoding(
            field(bytes, BEST_ASK_PRICE_BYTE_OFFSET as int, BEST_ASK_PRICE_LENGTH as int),
        );
        let best_bid_quantity = Numeric::<BEST_BID_QUANTITY_LENGTH>::decoding(
            field(bytes, BEST_BID_QUANTITY_BYTE_OFFSET as int, BEST_BID_QUANTITY_LENGTH as int),
        );
        let best_ask_quantity = Numeric::<BEST_ASK_QUANTITY_LENGTH>::decoding(
            field(bytes, BEST_ASK_QUANTITY_BYTE_OFFSET as int, BEST_ASK_QUANTITY_LENGTH as int),
        );
        if message_type is Err {
            Err(message_type->Err_0)
        } else if nanoseconds is Err {
            Err(nanoseconds->Err_0)
        } else if order_book_id is Err {
            Err(order_book_id->Err_0)
        } else if bid_quantity is Err {
            Err(bid_quantity->Err_0)
        } else if ask_quantity is Err {
            Err(ask_quantity->Err_0)
        } else if best_bid_quantity is Err {
            Err(best_bid_quantity->Err_0)
        } else if best_ask_quantity is Err {
            Err(best_ask_quantity->Err_0)
        } else {
            Self::spec_new(
                message_type->Ok_0,
                nanoseconds->Ok_0,
                order_book_id->Ok_0,
                bid_quantity->Ok_0,
                ask_quantity->Ok_0,
                equilibrium_price,
                best_bid_price,
                best_ask_price,
                best_bid_quantity->Ok_0,
                best_ask_quantity->Ok_0,
            )
        }
    }

    open spec fn field_check(&self) -> Result<(), DataFeedError> {
        let tag = self.message_type@[0];
        if tag != 'Z' {
            Err(DataFeedError::InvalidMessageType('Z', tag))
        } else {
            Ok(())
        }
    }

    fn to_bin<const SIZE: usize>(&self) -> (r: Result<[u8; SIZE], DataFeedError>) {
        if SIZE != EQUILIBRIUM_PRICE_UPDATE_MESSAGE_BYTE_COUNT {
            return Err(
                DataFeedError::InvalidMessageSize(
                    EQUILIBRIUM_PRICE_UPDATE_MESSAGE_BYTE_COUNT,
                    SIZE,
                ),
            );
        }
        let mut binary = zeroed::<SIZE>();
        write_alpha(&mut binary, MESSAGE_TYPE_BYTE_OFFSET, &self.message_type.value);
        assert(field(binary@, 0, MESSAGE_TYPE_LENGTH as int) =~= self.message_type.wire_image());
        write_num(&mut binary, NANOSECONDS_BYTE_OFFSET, &self.nanoseconds.to_be_bytes());
        write_num(&mut binary, ORDER_BOOK_ID_BYTE_OFFSET, &self.order_book_id.to_be_bytes());
        write_num(&mut binary, BID_QUANTITY_BYTE_OFFSET, &self.bid_quantity.to_be_bytes());
        write_num(&mut binary, ASK_QUANTITY_BYTE_OFFSET, &self.ask_quantity.to_be_bytes());
        write_num(
            &mut binary,
            EQUILIBRIUM_PRICE_BYTE_OFFSET,
            &self.equilibrium_price.to_be_bytes(),
        );
        write_num(&mut binary, BEST_BID_PRICE_BYTE_OFFSET, &self.best_bid_price.to_be_bytes());
        write_num(&mut binary, BEST_ASK_PRICE_BYTE_OFFSET, &self.best_ask_price.to_be_bytes());
        write_num(
            &mut binary,
            BEST_BID_QUANTITY_BYTE_OFFSET,
            &self.best_bid_quantity.to_be_bytes(),
        );
        write_num(
            &mut binary,
            BEST_ASK_QUANTITY_BYTE_OFFSET,
            &self.best_ask_quantity.to_be_bytes(),
        );
        assert(binary@ =~= field(binary@, 0, SIZE as int));
        Ok(binary)
    }

    fn from_bin<const SIZE: usize>(binary_data: &[u8; SIZE]) -> (r: Result<
        Self,
        DataFeedError,
    >) {
        if SIZE != EQUILIBRIUM_PRICE_UPDATE_MESSAGE_BYTE_COUNT {
            return Err(
                DataFeedError::InvalidMessageSize(
                    EQUILIBRIUM_PRICE_UPDATE_MESSAGE_BYTE_COUNT,
                    SIZE,
                ),
            );
        }
        EquilibriumPriceUpdateMessage::new(
            read_alpha(binary_data, MESSAGE_TYPE_BYTE_OFFSET)?,
            read_numeric(binary_data, NANOSECONDS_BYTE_OFFSET)?,
            read_numeric(binary_data, ORDER_BOOK_ID_BYTE_OFFSET)?,
            read_numeric(binary_data, BID_QUANTITY_BYTE_OFFSET)?,
            read_numeric(binary_data, ASK_QUANTITY_BYTE_OFFSET)?,
            read_price(binary_data, EQUILIBRIUM_PRICE_BYTE_OFFSET),
            read_price(binary_data, BEST_BID_PRICE_BYTE_OFFSET),
            read_price(binary_data, BEST_ASK_PRICE_BYTE_OFFSET),
            read_numeric(binary_data, BEST_BID_QUANTITY_BYTE_OFFSET)?,
            read_numeric(binary_data, BEST_ASK_QUANTITY_BYTE_OFFSET)?,
        )
    }

    fn validate_fields(&self) -> (r: Result<(), DataFeedError>) {
        let tag = self.message_type.value[0];
        if tag != 'Z' {
            return Err(DataFeedError::InvalidMessageType('Z', tag));
        }
        Ok(())
    }
}

} // verus!
