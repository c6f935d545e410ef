//! The system event record: tag `S`, 6 bytes.

use crate::enums::data_feed_error::DataFeedError;
use crate::global_constants::SYSTEM_EVENT_MESSAGE_BYTE_COUNT;
use crate::models::data_types::alpha::Alpha;
use crate::models::data_types::numeric::Numeric;
use crate::traits::message::TMessage;
use crate::util::buffer_utils::{
    field, lemma_field_split, lemma_fields_join, read_alpha, read_numeric, write_alpha, write_num,
    zeroed,
};
use vstd::prelude::*;

verus! {

pub const MESSAGE_TYPE_BYTE_OFFSET: usize = 0;

pub const NANOSECONDS_BYTE_OFFSET: usize = 1;

pub const EVENT_CODE_BYTE_OFFSET: usize = 5;

pub const MESSAGE_TYPE_LENGTH: usize = 1;

pub const NANOSECONDS_LENGTH: usize = 4;

pub const EVENT_CODE_LENGTH: usize = 1;

/// Whether `code` is an event code that the record admits: `O` or `C`.
pub open spec fn is_valid_event_code(code: char) -> bool {
    code == 'O' || code == 'C'
}

/// Tells whether `code` is an event code that the record admits: `O` or `C`.
pub fn valid_event_code(code: char) -> (r: bool)
    ensures
        r == is_valid_event_code(code),
{
    code == 'O' || code == 'C'
}

/// A system event: the start or the end of a trading day.
#[derive(Debug, Clone, Copy, PartialEq, Eq)]
pub struct SystemEventMessage {
    /// The tag of the record: `S`.
    pub message_type: Alpha<MESSAGE_TYPE_LENGTH>,
    /// Nanoseconds since the last seconds record.
    pub nanoseconds: Numeric<NANOSECONDS_LENGTH>,
    /// The event: `O` or `C`.
    pub event_code: Alpha<EVENT_CODE_LENGTH>,
}

impl SystemEventMessage {
    /// What `new` returns for the given fields: the record that they make, if
    /// the rules of the type hold of it, and else the first rule that is broken.
    pub open spec fn spec_new(
        message_type: Alpha<MESSAGE_TYPE_LENGTH>,
        nanoseconds: Numeric<NANOSECONDS_LENGTH>,
        event_code: Alpha<EVENT_CODE_LENGTH>,
    ) -> Result<Self, DataFeedError> {
        let message = SystemEventMessage { message_type, nanoseconds, event_code };
        match message.field_check() {
            Ok(_) => Ok(message),
            Err(e) => Err(e),
        }
    }

    /// Every field is well formed and the rules of the type hold.
    pub open spec fn wf(&self) -> bool {
        &&& self.message_type.wf()
        &&& self.nanoseconds.wf()
        &&& self.event_code.wf()
        &&& self.field_check() is Ok
    }

    /// Every text field is printable ASCII, so that its bytes can be decoded.
    pub open spec fn text_is_printable(&self) -> bool {
        &&& self.message_type.printable()
        &&& self.event_code.printable()
    }

    /// Makes a record of the given fields, or reports the first rule of the
    /// type that they break.
    pub fn new(
        message_type: Alpha<MESSAGE_TYPE_LENGTH>,
        nanoseconds: Numeric<NANOSECONDS_LENGTH>,
        event_code: Alpha<EVENT_CODE_LENGTH>,
    ) -> (r: Result<Self, DataFeedError>)
        ensures
            r == Self::spec_new(message_type, nanoseconds, event_code),
    {
        let message = SystemEventMessage { message_type, nanoseconds, event_code };
        match message.validate_fields() {
            Ok(_) => Ok(message),
            Err(e) => Err(e),
        }
    }

    /// The wire image of a record has the wire size of the type.
    pub proof fn lemma_encoding_size(self)
        ensures
            self.encoding().len() == Self::wire_size(),
    {
    }

    /// Each field of the wire image of a record is the image of the field.
    pub proof fn lemma_fields_of_encoding(self)
        ensures
            field(
                self.encoding(),
                MESSAGE_TYPE_BYTE_OFFSET as int,
                MESSAGE_TYPE_LENGTH as int,
            ) == self.message_type.wire_image(),
            field(
                self.encoding(),
                NANOSECONDS_BYTE_OFFSET as int,
                NANOSECONDS_LENGTH as int,
            ) == self.nanoseconds.wire_image(),
            field(
                self.encoding(),
                EVENT_CODE_BYTE_OFFSET as int,
                EVENT_CODE_LENGTH as int,
            ) == self.event_code.wire_image(),
    {
        let bytes = self.encoding();
        let upto_message_type = self.message_type.wire_image();
        let upto_nanoseconds = upto_message_type + self.nanoseconds.wire_image();
        let upto_event_code = upto_nanoseconds + self.event_code.wire_image();
        assert(field(bytes, 0, bytes.len() as int) =~= bytes);
        lemma_field_split(bytes, upto_nanoseconds, self.event_code.wire_image());
        lemma_field_split(bytes, upto_message_type, self.nanoseconds.wire_image());
    }

    /// The rules of the type leave its text no choice but printable characters.
    pub proof fn lemma_text_is_printable(self)
        requires
            self.field_check() is Ok,
        ensures
            self.text_is_printable(),
    {
    }

    /// Decoding inverts encoding: a well-formed record is what its own wire
    /// image decodes to.
    pub proof fn lemma_decode_encode(self)
        requires
            self.wf(),
        ensures
            Self::decoding(self.encoding()) == Ok::<Self, DataFeedError>(self),
    {
        self.lemma_text_is_printable();
        self.lemma_fields_of_encoding();
        self.message_type.lemma_decode_encode();
        self.nanoseconds.lemma_decode_encode();
        self.event_code.lemma_decode_encode();
    }

    /// Encoding inverts decoding: where a buffer of the wire size decodes, the
    /// record is well formed, its text is printable, and its wire image is the
    /// buffer.
    pub proof fn lemma_encode_decode(bytes: Seq<u8>)
        requires
            bytes.len() == Self::wire_size(),
            Self::decoding(bytes) is Ok,
        ensures
            Self::decoding(bytes)->Ok_0.wf(),
            Self::decoding(bytes)->Ok_0.text_is_printable(),
            Self::decoding(bytes)->Ok_0.encoding() == bytes,
    {
        Alpha::<MESSAGE_TYPE_LENGTH>::lemma_encode_decode(
            field(bytes, MESSAGE_TYPE_BYTE_OFFSET as int, MESSAGE_TYPE_LENGTH as int),
        );
        Numeric::<NANOSECONDS_LENGTH>::lemma_encode_decode(
            field(bytes, NANOSECONDS_BYTE_OFFSET as int, NANOSECONDS_LENGTH as int),
        );
        Alpha::<EVENT_CODE_LENGTH>::lemma_encode_decode(
            field(bytes, EVENT_CODE_BYTE_OFFSET as int, EVENT_CODE_LENGTH as int),
        );
        lemma_fields_join(bytes, NANOSECONDS_BYTE_OFFSET as int, NANOSECONDS_LENGTH as int);
        lemma_fields_join(bytes, EVENT_CODE_BYTE_OFFSET as int, EVENT_CODE_LENGTH as int);
        assert(field(bytes, 0, bytes.len() as int) =~= bytes);
    }
}

impl TMessage for SystemEventMessage {
    open spec fn wire_size() -> usize {
        SYSTEM_EVENT_MESSAGE_BYTE_COUNT
    }

    open spec fn encoding(&self) -> Seq<u8> {
        self.message_type.wire_image() + self.nanoseconds.wire_image()
            + self.event_code.wire_image()
    }

    open spec fn decoding(bytes: Seq<u8>) -> Result<Self, DataFeedError> {
        let message_type = Alpha::<MESSAGE_TYPE_LENGTH>::decoding(
            field(bytes, MESSAGE_TYPE_BYTE_OFFSET as int, MESSAGE_TYPE_LENGTH as int),
        );
        let nanoseconds = Numeric::<NANOSECONDS_LENGTH>::decoding(
            field(bytes, NANOSECONDS_BYTE_OFFSET as int, NANOSECONDS_LENGTH as int),
        );
        let event_code = Alpha::<EVENT_CODE_LENGTH>::decoding(
            field(bytes, EVENT_CODE_BYTE_OFFSET as int, EVENT_CODE_LENGTH as int),
        );
        if message_type is Err {
            Err(message_type->Err_0)
        } else if nanoseconds is Err {
            Err(nanoseconds->Err_0)
        } else if event_code is Err {
            Err(event_code->Err_0)
        } else {
            Self::spec_new(message_type->Ok_0, nanoseconds->Ok_0, event_code->Ok_0)
        }
    }

    open spec fn field_check(&self) -> Result<(), DataFeedError> {
        let tag = self.message_type@[0];
        let event_code = self.event_code@[0];
        if tag != 'S' {
            Err(DataFeedError::InvalidMessageType('S', tag))
        } else if !is_valid_event_code(event_code) {
            Err(DataFeedError::InvalidEventCodeValue(event_code))
        } else {
            Ok(())
        }
    }

    fn to_bin<const SIZE: usize>(&self) -> (r: Result<[u8; SIZE], DataFeedError>) {
        if SIZE != SYSTEM_EVENT_MESSAGE_BYTE_COUNT {
            return Err(DataFeedError::InvalidMessageSize(SYSTEM_EVENT_MESSAGE_BYTE_COUNT, SIZE));
        }
        let mut binary = zeroed::<SIZE>();
        write_alpha(&mut binary, MESSAGE_TYPE_BYTE_OFFSET, &self.message_type.value);
        assert(field(binary@, 0, MESSAGE_TYPE_LENGTH as int) =~= self.message_type.wire_image());
        write_num(&mut binary, NANOSECONDS_BYTE_OFFSET, &self.nanoseconds.to_be_bytes());
        write_alpha(&mut binary, EVENT_CODE_BYTE_OFFSET, &self.event_code.value);
        assert(binary@ =~= field(binary@, 0, SIZE as int));
        Ok(binary)
    }

    fn from_bin<const SIZE: usize>(binary_data: &[u8; SIZE]) -> (r: Result<
        Self,
        DataFeedError,
    >) {
        if SIZE != SYSTEM_EVENT_MESSAGE_BYTE_COUNT {
            return Err(DataFeedError::InvalidMessageSize(SYSTEM_EVENT_MESSAGE_BYTE_COUNT, SIZE));
        }
        SystemEventMessage::new(
            read_alpha(binary_data, MESSAGE_TYPE_BYTE_OFFSET)?,
            read_numeric(binary_data, NANOSECONDS_BYTE_OFFSET)?,
            read_alpha(binary_data, EVENT_CODE_BYTE_OFFSET)?,
        )
    }

    fn validate_fields(&self) -> (r: Result<(), DataFeedError>) {
        let tag = self.message_type.value[0];
        if tag != 'S' {
            return Err(DataFeedError::InvalidMessageType('S', tag));
        }
        let event_code = self.event_code.value[0];
        if !valid_event_code(event_code) {
            return Err(DataFeedError::InvalidEventCodeValue(event_code));
        }
        Ok(())
    }
}

} // verus!
