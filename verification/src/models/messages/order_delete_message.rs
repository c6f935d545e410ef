//! The order delete record: tag `D`, 18 bytes.

use crate::enums::data_feed_error::DataFeedError;
use crate::global_constants::ORDER_DELETE_MESSAGE_BYTE_COUNT;
use crate::models::data_types::alpha::Alpha;
use crate::models::data_types::numeric::Numeric;
use crate::traits::message::TMessage;
use crate::util::buffer_utils::{
    field, lemma_field_split, lemma_fields_join, read_alpha, read_numeric, write_alpha, write_num,
    zeroed,
};
use vstd::prelude::*;

verus! {

pub const MESSAGE_TYPE_BYTE_OFFSET: usize = 0;

pub const NANOSECONDS_BYTE_OFFSET: usize = 1;

pub const ORDER_ID_BYTE_OFFSET: usize = 5;

pub const ORDER_BOOK_ID_BYTE_OFFSET: usize = 13;

pub const SIDE_BYTE_OFFSET: usize = 17;

pub const MESSAGE_TYPE_LENGTH: usize = 1;

pub const NANOSECONDS_LENGTH: usize = 4;

pub const ORDER_ID_LENGTH: usize = 8;

pub const ORDER_BOOK_ID_LENGTH: usize = 4;

pub const SIDE_LENGTH: usize = 1;

/// Whether `code` is a side code that the record admits: `B` or `S`.
pub open spec fn is_valid_side(code: char) -> bool {
    code == 'B' || code == 'S'
}

/// Tells whether `code` is a side code that the record admits: `B` or `S`.
pub fn valid_side(code: char) -> (r: bool)
    ensures
        r == is_valid_side(code),
{
    code == 'B' || code == 'S'
}

/// The removal of an order from its book.
#[derive(Debug, Clone, Copy, PartialEq, Eq)]
pub struct OrderDeleteMessage {
    /// The tag of the record: `D`.
    pub message_type: Alpha<MESSAGE_TYPE_LENGTH>,
    /// Nanoseconds since the last seconds record.
    pub nanoseconds: Numeric<NANOSECONDS_LENGTH>,
    /// The identifier of the order.
    pub order_id: Numeric<ORDER_ID_LENGTH>,
    /// The order book that the record is about.
    pub order_book_id: Numeric<ORDER_BOOK_ID_LENGTH>,
    /// The side of the order: `B` or `S`.
    pub side: Alpha<SIDE_LENGTH>,
}

impl OrderDeleteMessage {
    /// What `new` returns for the given fields: the record that they make, if
    /// the rules of the type hold of it, and else the first rule that is broken.
    pub open spec fn spec_new(
        message_type: Alpha<MESSAGE_TYPE_LENGTH>,
        nanoseconds: Numeric<NANOSECONDS_LENGTH>,
        order_id: Numeric<ORDER_ID_LENGTH>,
        order_book_id: Numeric<ORDER_BOOK_ID_LENGTH>,
        side: Alpha<SIDE_LENGTH>,
    ) -> Result<Self, DataFeedError> {
        let message = OrderDeleteMessage {
            message_type,
            nanoseconds,
            order_id,
            order_book_id,
            side,
        };
        match message.field_check() {
            Ok(_) => Ok(message),
            Err(e) => Err(e),
        }
    }

    /// Every field is well formed and the rules of the type hold.
    pub open spec fn wf(&self) -> bool {
        &&& self.message_type.wf()
        &&& self.nanoseconds.wf()
        &&& self.order_id.wf()
        &&& self.order_book_id.wf()
        &&& self.side.wf()
        &&& self.field_check() is Ok
    }

    /// Every text field is printable ASCII, so that its bytes can be decoded.
    pub open spec fn text_is_printable(&self) -> bool {
        &&& self.message_type.printable()
        &&& self.side.printable()
    }

    /// Makes a record of the given fields, or reports the first rule of the
    /// type that they break.
    pub fn new(
        message_type: Alpha<MESSAGE_TYPE_LENGTH>,
        nanoseconds: Numeric<NANOSECONDS_LENGTH>,
        order_id: Numeric<ORDER_ID_LENGTH>,
        order_book_id: Numeric<ORDER_BOOK_ID_LENGTH>,
        side: Alpha<SIDE_LENGTH>,
    ) -> (r: Result<Self, DataFeedError>)
        ensures
            r == Self::spec_new(message_type, nanoseconds, order_id, order_book_id, side),
    {
        let message = OrderDeleteMessage {
            message_type,
            nanoseconds,
            order_id,
            order_book_id,
            side,
        };
        match message.validate_fields() {
            Ok(_) => Ok(message),
            Err(e) => Err(e),
        }
    }

    /// The wire image of a record has the wire size of the type.
    pub proof fn lemma_encoding_size(self)
        ensures
            self.encoding().len() == Self::wire_size(),
    {
    }

    /// Each field of the wire image of a record is the image of the field.
    pub proof fn lemma_fields_of_encoding(self)
        ensures
            field(
                self.encoding(),
                MESSAGE_TYPE_BYTE_OFFSET as int,
                MESSAGE_TYPE_LENGTH as int,
            ) == self.message_type.wire_image(),
            field(
                self.encoding(),
                NANOSECONDS_BYTE_OFFSET as int,
                NANOSECONDS_LENGTH as int,
            ) == self.nanoseconds.wire_image(),
            field(
                self.encoding(),
                ORDER_ID_BYTE_OFFSET as int,
                ORDER_ID_LENGTH as int,
            ) == self.order_id.wire_image(),
            field(
                self.encoding(),
                ORDER_BOOK_ID_BYTE_OFFSET as int,
                ORDER_BOOK_ID_LENGTH as int,
            ) == self.order_book_id.wire_image(),
            field(
                self.encoding(),
                SIDE_BYTE_OFFSET as int,
                SIDE_LENGTH as int,
            ) == self.side.wire_image(),
    {
        let bytes = self.encoding();
        let upto_message_type = self.message_type.wire_image();
        let upto_nanoseconds = upto_message_type + self.nanoseconds.wire_image();
        let upto_order_id = upto_nanoseconds + self.order_id.wire_image();
        let upto_order_book_id = upto_order_id + self.order_book_id.wire_image();
        let upto_side = upto_order_book_id + self.side.wire_image();
        assert(field(bytes, 0, bytes.len() as int) =~= bytes);
        lemma_field_split(bytes, upto_order_book_id, self.side.wire_image());
        lemma_field_split(bytes, upto_order_id, self.order_book_id.wire_image());
        lemma_field_split(bytes, upto_nanoseconds, self.order_id.wire_image());
        lemma_field_split(bytes, upto_message_type, self.nanoseconds.wire_image());
    }

    /// The rules of the type leave its text no choice but printable characters.
    pub proof fn lemma_text_is_printable(self)
        requires
            self.field_check() is Ok,
        ensures
            self.text_is_printable(),
    {
    }

    /// Decoding inverts encoding: a well-formed record is what its own wire
    /// image decodes to.
    pub proof fn lemma_decode_encode(self)
        requires
            self.wf(),
        ensures
            Self::decoding(self.encoding()) == Ok::<Self, DataFeedError>(self),
    {
        self.lemma_text_is_printable();
        self.lemma_fields_of_encoding();
        self.message_type.lemma_decode_encode();
        self.nanoseconds.lemma_decode_encode();
        self.order_id.lemma_decode_encode();
        self.order_book_id.lemma_decode_encode();
        self.side.lemma_decode_encode();
    }

    /// Encoding inverts decoding: where a buffer of the wire size decodes, the
    /// record is well formed, its text is printable, and its wire image is the
    /// buffer.
    pub proof fn lemma_encode_decode(bytes: Seq<u8>)
        requires
            bytes.len() == Self::wire_size(),
            Self::decoding(bytes) is Ok,
        ensures
            Self::decoding(bytes)->Ok_0.wf(),
            Self::decoding(bytes)->Ok_0.text_is_printable(),
            Self::decoding(bytes)->Ok_0.encoding() == bytes,
    {
        Alpha::<MESSAGE_TYPE_LENGTH>::lemma_encode_decode(
            field(bytes, MESSAGE_TYPE_BYTE_OFFSET as int, MESSAGE_TYPE_LENGTH as int),
        );
        Numeric::<NANOSECONDS_LENGTH>::lemma_encode_decode(
            field(bytes, NANOSECONDS_BYTE_OFFSET as int, NANOSECONDS_LENGTH as int),
        );
        Numeric::<ORDER_ID_LENGTH>::lemma_encode_decode(
            field(bytes, ORDER_ID_BYTE_OFFSET as int, ORDER_ID_LENGTH as int),
        );
        Numeric::<ORDER_BOOK_ID_LENGTH>::lemma_encode_decode(
            field(bytes, ORDER_BOOK_ID_BYTE_OFFSET as int, ORDER_BOOK_ID_LENGTH as int),
        );
        Alpha::<SIDE_LENGTH>::lemma_encode_decode(
            field(bytes, SIDE_BYTE_OFFSET as int, SIDE_LENGTH as int),
        );
        lemma_fields_join(bytes, NANOSECONDS_BYTE_OFFSET as int, NANOSECONDS_LENGTH as int);
        lemma_fields_join(bytes, ORDER_ID_BYTE_OFFSET as int, ORDER_ID_LENGTH as int);
        lemma_fields_join(bytes, ORDER_BOOK_ID_BYTE_OFFSET as int, ORDER_BOOK_ID_LENGTH as int);
        lemma_fields_join(bytes, SIDE_BYTE_OFFSET as int, SIDE_LENGTH as int);
        assert(field(bytes, 0, bytes.len() as int) =~= bytes);
    }
}

impl TMessage for OrderDeleteMessage {
    open spec fn wire_size() -> usize {
        ORDER_DELETE_MESSAGE_BYTE_COUNT
    }

    open spec fn encoding(&self) -> Seq<u8> {
        self.message_type.wire_image() + self.nanoseconds.wire_image() + self.order_id.wire_image()
            + self.order_book_id.wire_image() + self.side.wire_image()
    }

    open spec fn decoding(bytes: Seq<u8>) -> Result<Self, DataFeedError> {
        let message_type = Alpha::<MESSAGE_TYPE_LENGTH>::decoding(
            field(bytes, MESSAGE_TYPE_BYTE_OFFSET as int, MESSAGE_TYPE_LENGTH as int),
        );
        let nanoseconds = Numeric::<NANOSECONDS_LENGTH>::decoding(
            field(bytes, NANOSECONDS_BYTE_OFFSET as int, NANOSECONDS_LENGTH as int),
        );
        let order_id = Numeric::<ORDER_ID_LENGTH>::decoding(
            field(bytes, ORDER_ID_BYTE_OFFSET as int, ORDER_ID_LENGTH as int),
        );
        let order_book_id = Numeric::<ORDER_BOOK_ID_LENGTH>::decoding(
            field(bytes, ORDER_BOOK_ID_BYTE_OFFSET as int, ORDER_BOOK_ID_LENGTH as int),
        );
        let side = Alpha::<SIDE_LENGTH>::decoding(
            field(bytes, SIDE_BYTE_OFFSET as int, SIDE_LENGTH as int),
        );
        if message_type is Err {
            Err(message_type->Err_0)
        } else if nanoseconds is Err {
            Err(nanoseconds->Err_0)
        } else if order_id is Err {
            Err(order_id->Err_0)
        } else if order_book_id is Err {
            Err(order_book_id->Err_0)
        } else if side is Err {
            Err(side->Err_0)
        } else {
            Self::spec_new(
                message_type->Ok_0,
                nanoseconds->Ok_0,
                order_id->Ok_0,
                order_book_id->Ok_0,
                side->Ok_0,
            )
        }
    }

    open spec fn field_check(&self) -> Result<(), DataFeedError> {
        let tag = self.message_type@[0];
        let side = self.side@[0];
        if tag != 'D' {
            Err(DataFeedError::InvalidMessageType('D', tag))
        } else if !is_valid_side(side) {
            Err(DataFeedError::InvalidSideValue(side))
        } else {
            Ok(())
        }
    }

    fn to_bin<const SIZE: usize>(&self) -> (r: Result<[u8; SIZE], DataFeedError>) {
        if SIZE != ORDER_DELETE_MESSAGE_BYTE_COUNT {
            return Err(DataFeedError::InvalidMessageSize(ORDER_DELETE_MESSAGE_BYTE_COUNT, SIZE));
        }
        let mut binary = zeroed::<SIZE>();
        write_alpha(&mut binary, MESSAGE_TYPE_BYTE_OFFSET, &self.message_type.value);
        assert(field(binary@, 0, MESSAGE_TYPE_LENGTH as int) =~= self.message_type.wire_image());
        write_num(&mut binary, NANOSECONDS_BYTE_OFFSET, &self.nanoseconds.to_be_bytes());
        write_num(&mut binary, ORDER_ID_BYTE_OFFSET, &self.order_id.to_be_bytes());
        write_num(&mut binary, ORDER_BOOK_ID_BYTE_OFFSET, &self.order_book_id.to_be_bytes());
        write_alpha(&mut binary, SIDE_BYTE_OFFSET, &self.side.value);
        assert(binary@ =~= field(binary@, 0, SIZE as int));
        Ok(binary)
    }

    fn from_bin<const SIZE: usize>(binary_data: &[u8; SIZE]) -> (r: Result<
        Self,
        DataFeedError,
    >) {
        if SIZE != ORDER_DELETE_MESSAGE_BYTE_COUNT {
            return Err(DataFeedError::InvalidMessageSize(ORDER_DELETE_MESSAGE_BYTE_COUNT, SIZE));
        }
        OrderDeleteMessage::new(
            read_alpha(binary_data, MESSAGE_TYPE_BYTE_OFFSET)?,
            read_numeric(binary_data, NANOSECONDS_BYTE_OFFSET)?,
            read_numeric(binary_data, ORDER_ID_BYTE_OFFSET)?,
            read_numeric(binary_data, ORDER_BOOK_ID_BYTE_OFFSET)?,
            read_alpha(binary_data, SIDE_BYTE_OFFSET)?,
        )
    }

    fn validate_fields(&self) -> (r: Result<(), DataFeedError>) {
        let tag = self.message_type.value[0];
        if tag != 'D' {
            return Err(DataFeedError::InvalidMessageType('D', tag));
        }
        let side = self.side.value[0];
        if !valid_side(side) {
            return Err(DataFeedError::InvalidSideValue(side));
        }
        Ok(())
    }
}

} // verus!
