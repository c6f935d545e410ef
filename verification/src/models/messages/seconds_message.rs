//! The seconds record: tag `T`, 5 bytes.

use crate::enums::data_feed_error::DataFeedError;
use crate::global_constants::SECONDS_MESSAGE_BYTE_COUNT;
use crate::models::data_types::alpha::Alpha;
use crate::models::data_types::numeric::Numeric;
use crate::traits::message::TMessage;
use crate::util::buffer_utils::{
    field, lemma_field_split, lemma_fields_join, read_alpha, read_numeric, write_alpha, write_num,
    zeroed,
};
use vstd::prelude::*;

verus! {

pub const MESSAGE_TYPE_BYTE_OFFSET: usize = 0;

pub const SECOND_BYTE_OFFSET: usize = 1;

pub const MESSAGE_TYPE_LENGTH: usize = 1;

pub const SECOND_LENGTH: usize = 4;

/// A heartbeat that carries the current second.
#[derive(Debug, Clone, Copy, PartialEq, Eq)]
pub struct SecondsMessage {
    /// The tag of the record: `T`.
    pub message_type: Alpha<MESSAGE_TYPE_LENGTH>,
    /// Seconds since midnight.
    pub second: Numeric<SECOND_LENGTH>,
}

impl SecondsMessage {
    /// What `new` returns for the given fields: the record that they make, if
    /// the rules of the type hold of it, and else the first rule that is broken.
    pub open spec fn spec_new(
        message_type: Alpha<MESSAGE_TYPE_LENGTH>,
        second: Numeric<SECOND_LENGTH>,
    ) -> Result<Self, DataFeedError> {
        let message = SecondsMessage { message_type, second };
        match message.field_check() {
            Ok(_) => Ok(message),
            Err(e) => Err(e),
        }
    }

    /// Every field is well formed and the rules of the type hold.
    pub open spec fn wf(&self) -> bool {
        &&& self.message_type.wf()
        &&& self.second.wf()
        &&& self.field_check() is Ok
    }

    /// Every text field is printable ASCII, so that its bytes can be decoded.
    pub open spec fn text_is_printable(&self) -> bool {
        &&& self.message_type.printable()
    }

    /// Makes a record of the given fields, or reports the first rule of the
    /// type that they break.
    pub fn new(
        message_type: Alpha<MESSAGE_TYPE_LENGTH>,
        second: Numeric<SECOND_LENGTH>,
    ) -> (r: Result<Self, DataFeedError>)
        ensures
            r == Self::spec_new(message_type, second),
    {
        let message = SecondsMessage { message_type, second };
        match message.validate_fields() {
            Ok(_) => Ok(message),
            Err(e) => Err(e),
        }
    }

    /// The wire image of a record has the wire size of the type.
    pub proof fn lemma_encoding_size(self)
        ensures
            self.encoding().len() == Self::wire_size(),
    {
    }

    /// Each field of the wire image of a record is the image of the field.
    pub proof fn lemma_fields_of_encoding(self)
        ensures
            field(
                self.encoding(),
                MESSAGE_TYPE_BYTE_OFFSET as int,
                MESSAGE_TYPE_LENGTH as int,
            ) == self.message_type.wire_image(),
            field(
                self.encoding(),
                SECOND_BYTE_OFFSET as int,
                SECOND_LENGTH as int,
            ) == self.second.wire_image(),
    {
        let bytes = self.encoding();
        let upto_message_type = self.message_type.wire_image();
        let upto_second = upto_message_type + self.second.wire_image();
        assert(field(bytes, 0, bytes.len() as int) =~= bytes);
        lemma_field_split(bytes, upto_message_type, self.second.wire_image());
    }

    /// The rules of the type leave its text no choice but printable characters.
    pub proof fn lemma_text_is_printable(self)
        requires
            self.field_check() is Ok,
        ensures
            self.text_is_printable(),
    {
    }

    /// Decoding inverts encoding: a well-formed record is what its own wire
    /// image decodes to.
    pub proof fn lemma_decode_encode(self)
        requires
            self.wf(),
        ensures
            Self::decoding(self.encoding()) == Ok::<Self, DataFeedError>(self),
    {
        self.lemma_text_is_printable();
        self.lemma_fields_of_encoding();
        self.message_type.lemma_decode_encode();
        self.second.lemma_decode_encode();
    }

    /// Encoding inverts decoding: where a buffer of the wire size decodes, the
    /// record is well formed, its text is printable, and its wire image is the
    /// buffer.
    pub proof fn lemma_encode_decode(bytes: Seq<u8>)
        requires
            bytes.len() == Self::wire_size(),
            Self::decoding(bytes) is Ok,
        ensures
            Self::decoding(bytes)->Ok_0.wf(),
            Self::decoding(bytes)->Ok_0.text_is_printable(),
            Self::decoding(bytes)->Ok_0.encoding() == bytes,
    {
        Alpha::<MESSAGE_TYPE_LENGTH>::lemma_encode_decode(
            field(bytes, MESSAGE_TYPE_BYTE_OFFSET as int, MESSAGE_TYPE_LENGTH as int),
        );
        Numeric::<SECOND_LENGTH>::lemma_encode_decode(
            field(bytes, SECOND_BYTE_OFFSET as int, SECOND_LENGTH as int),
        );
        lemma_fields_join(bytes, SECOND_BYTE_OFFSET as int, SECOND_LENGTH as int);
        assert(field(bytes, 0, bytes.len() as int) =~= bytes);
    }
}

impl TMessage for SecondsMessage {
    open spec fn wire_size() -> usize {
        SECONDS_MESSAGE_BYTE_COUNT
    }

    open spec fn encoding(&self) -> Seq<u8> {
        self.message_type.wire_image() + self.second.wire_image()
    }

    open spec fn decoding(bytes: Seq<u8>) -> Result<Self, DataFeedError> {
        let message_type = Alpha::<MESSAGE_TYPE_LENGTH>::decoding(
            field(bytes, MESSAGE_TYPE_BYTE_OFFSET as int, MESSAGE_TYPE_LENGTH as int),
        );
        let second = Numeric::<SECOND_LENGTH>::decoding(
            field(bytes, SECOND_BYTE_OFFSET as int, SECOND_LENGTH as int),
        );
        if message_type is Err {
            Err(message_type->Err_0)
        } else if second is Err {
            Err(second->Err_0)
        } else {
            Self::spec_new(message_type->Ok_0, second->Ok_0)
        }
    }

    open spec fn field_check(&self) -> Result<(), DataFeedError> {
        let tag = self.message_type@[0];
        if tag != 'T' {
            Err(DataFeedError::InvalidMessageType('T', tag))
        } else {
            Ok(())
        }
    }

    fn to_bin<const SIZE: usize>(&self) -> (r: Result<[u8; SIZE], DataFeedError>) {
        if SIZE != SECONDS_MESSAGE_BYTE_COUNT {
            return Err(DataFeedError::InvalidMessageSize(SECONDS_MESSAGE_BYTE_COUNT, SIZE));
        }
        let mut binary = zeroed::<SIZE>();
        write_alpha(&mut binary, MESSAGE_TYPE_BYTE_OFFSET, &self.message_type.value);
        assert(field(binary@, 0, MESSAGE_TYPE_LENGTH as int) =~= self.message_type.wire_image());
        write_num(&mut binary, SECOND_BYTE_OFFSET, &self.second.to_be_bytes());
        assert(binary@ =~= field(binary@, 0, SIZE as int));
        Ok(binary)
    }

    fn from_bin<const SIZE: usize>(binary_data: &[u8; SIZE]) -> (r: Result<
        Self,
        DataFeedError,
    >) {
        if SIZE != SECONDS_MESSAGE_BYTE_COUNT {
            return Err(DataFeedError::InvalidMessageSize(SECONDS_MESSAGE_BYTE_COUNT, SIZE));
        }
        SecondsMessage::new(
            read_alpha(binary_data, MESSAGE_TYPE_BYTE_OFFSET)?,
            read_numeric(binary_data, SECOND_BYTE_OFFSET)?,
        )
    }

    fn validate_fields(&self) -> (r: Result<(), DataFeedError>) {
        let tag = self.message_type.value[0];
        if tag != 'T' {
            return Err(DataFeedError::InvalidMessageType('T', tag));
        }
        Ok(())
    }
}

} // verus!
