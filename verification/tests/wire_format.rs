use feed_codec::enums::data_feed_error::DataFeedError;
use feed_codec::global_constants::{
    ADD_ORDER_WITH_PARTICIPANT_ID_MESSAGE_BYTE_COUNT,
    COMBINATION_ORDER_BOOK_DIRECTORY_MESSAGE_BYTE_COUNT,
    EQUILIBRIUM_PRICE_UPDATE_MESSAGE_BYTE_COUNT, ORDER_BOOK_STATE_MESSAGE_BYTE_COUNT,
    ORDER_DELETE_MESSAGE_BYTE_COUNT, ORDER_EXECUTED_MESSAGE_BYTE_COUNT,
    ORDER_EXECUTED_WITH_PRICE_MESSAGE_BYTE_COUNT, SECONDS_MESSAGE_BYTE_COUNT,
    SYSTEM_EVENT_MESSAGE_BYTE_COUNT, TICK_SIZE_TABLE_ENTRY_MESSAGE_BYTE_COUNT,
    TRADE_MESSAGE_BYTE_COUNT,
};
use feed_codec::models::data_types::alpha::Alpha;
use feed_codec::models::data_types::numeric::Numeric;
use feed_codec::models::data_types::price::Price;
use feed_codec::models::messages::add_order_with_participant_id_message::AddOrderWithParticipantIdMessage;
use feed_codec::models::messages::combination_order_book_directory_message::CombinationOrderBookDirectoryMessage;
use feed_codec::models::messages::equilibrium_price_update_message::EquilibriumPriceUpdateMessage;
use feed_codec::models::messages::order_book_state_message::OrderBookStateMessage;
use feed_codec::models::messages::order_delete_message::OrderDeleteMessage;
use feed_codec::models::messages::order_executed_message::OrderExecutedMessage;
use feed_codec::models::messages::order_executed_with_price_message::OrderExecutedWithPriceMessage;
use feed_codec::models::messages::seconds_message::SecondsMessage;
use feed_codec::models::messages::system_event_message::SystemEventMessage;
use feed_codec::models::messages::tick_size_table_entry_message::TickSizeTableEntryMessage;
use feed_codec::models::messages::trade_message::TradeMessage;
use feed_codec::traits::message::TMessage;

fn text<const N: usize>(s: &str) -> Alpha<N> {
    let mut value = [' '; N];
    for (i, c) in s.chars().enumerate() {
        value[i] = c;
    }
    Alpha { value }
}

fn tag(c: char) -> Alpha<1> {
    Alpha { value: [c] }
}

fn num<const N: usize>(value: u128) -> Numeric<N> {
    Numeric { value }
}

fn add_order_bytes() -> [u8; 44] {
    [
        b'A', 0, 0, 3, 232, 0, 0, 0, 0, 0, 0, 0, 42, 0, 0, 0, 7, b'B', 0, 0, 0, 1, 0, 0, 0, 0, 0,
        0, 0, 100, 0, 0, 0x30, 0x39, 0, 4, 0, b'M', b'E', b'M', b'B', b'E', b'R', b'1',
    ]
}

fn a_combination() -> CombinationOrderBookDirectoryMessage {
    CombinationOrderBookDirectoryMessage::new(
        tag('M'),
        num(123_456),
        num(900),
        text("COMBO"),
        text("A COMBINATION OF FOUR LEGS"),
        text("SE0000000001"),
        num(11),
        text("SEK"),
        num(2),
        num(4),
        num(1),
        num(100),
        num(10_000),
        num(1_000_000),
        text("LEG ONE"),
        tag('B'),
        num(1),
        text("LEG TWO"),
        tag('C'),
        num(0),
        text("LEG THREE"),
        tag('?'),
        num(0),
        text("LEG FOUR"),
        tag('B'),
        num(0),
    )
    .unwrap()
}

fn a_trade() -> TradeMessage {
    TradeMessage::new(
        tag('P'),
        num(5),
        num(0x0102_0304_0506_0708_090a_0b0c),
        tag(' '),
        num(10),
        num(3),
        Price { value: -250 },
        text("OWNER"),
        text("OTHER"),
        tag('Y'),
        tag('N'),
    )
    .unwrap()
}

#[test]
fn wire_sizes_are_those_of_the_catalog() {
    assert_eq!(SYSTEM_EVENT_MESSAGE_BYTE_COUNT, 6);
    assert_eq!(SECONDS_MESSAGE_BYTE_COUNT, 5);
    assert_eq!(ORDER_BOOK_STATE_MESSAGE_BYTE_COUNT, 29);
    assert_eq!(ADD_ORDER_WITH_PARTICIPANT_ID_MESSAGE_BYTE_COUNT, 44);
    assert_eq!(ORDER_DELETE_MESSAGE_BYTE_COUNT, 18);
    assert_eq!(ORDER_EXECUTED_MESSAGE_BYTE_COUNT, 52);
    assert_eq!(ORDER_EXECUTED_WITH_PRICE_MESSAGE_BYTE_COUNT, 58);
    assert_eq!(TRADE_MESSAGE_BYTE_COUNT, 50);
    assert_eq!(TICK_SIZE_TABLE_ENTRY_MESSAGE_BYTE_COUNT, 25);
    assert_eq!(COMBINATION_ORDER_BOOK_DIRECTORY_MESSAGE_BYTE_COUNT, 268);
    assert_eq!(EQUILIBRIUM_PRICE_UPDATE_MESSAGE_BYTE_COUNT, 53);
}

#[test]
fn add_order_decodes_field_for_field_and_encodes_back() {
    let bytes = add_order_bytes();
    let message = AddOrderWithParticipantIdMessage::from_bin(&bytes).unwrap();
    assert_eq!(message.message_type.value, ['A']);
    assert_eq!(message.nanoseconds.value, 1000);
    assert_eq!(message.order_id.value, 42);
    assert_eq!(message.order_book_id.value, 7);
    assert_eq!(message.side.value, ['B']);
    assert_eq!(message.order_book_position.value, 1);
    assert_eq!(message.quantity.value, 100);
    assert_eq!(message.price.value, 12345);
    assert_eq!(message.exchange_order_type.value, 4);
    assert_eq!(message.lot_type.value, 0);
    assert_eq!(message.participant_id.value, ['M', 'E', 'M', 'B', 'E', 'R', '1']);
    assert_eq!(message.to_bin::<44>(), Ok(bytes));
}

#[test]
fn add_order_encodes_to_the_expected_bytes() {
    let message = AddOrderWithParticipantIdMessage::new(
        tag('A'),
        num(1000),
        num(42),
        num(7),
        tag('B'),
        num(1),
        num(100),
        Price { value: 12345 },
        num(4),
        num(0),
        text("MEMBER1"),
    )
    .unwrap();
    assert_eq!(message.to_bin::<44>(), Ok(add_order_bytes()));
}

#[test]
fn system_event_has_its_fields_at_their_offsets() {
    let message = SystemEventMessage::new(tag('S'), num(0x0a0b_0c0d), tag('O')).unwrap();
    assert_eq!(message.to_bin::<6>(), Ok([b'S', 0x0a, 0x0b, 0x0c, 0x0d, b'O']));
    assert_eq!(SystemEventMessage::from_bin(&[b'S', 0x0a, 0x0b, 0x0c, 0x0d, b'O']), Ok(message));
}

#[test]
fn seconds_has_its_fields_at_their_offsets() {
    let message = SecondsMessage::new(tag('T'), num(34_200)).unwrap();
    assert_eq!(message.to_bin::<5>(), Ok([b'T', 0, 0, 0x85, 0x98]));
    assert_eq!(SecondsMessage::from_bin(&[b'T', 0, 0, 0x85, 0x98]), Ok(message));
}

#[test]
fn order_delete_has_its_fields_at_their_offsets() {
    let message = OrderDeleteMessage::new(tag('D'), num(1), num(2), num(3), tag('S')).unwrap();
    let bytes = [b'D', 0, 0, 0, 1, 0, 0, 0, 0, 0, 0, 0, 2, 0, 0, 0, 3, b'S'];
    assert_eq!(message.to_bin::<18>(), Ok(bytes));
    assert_eq!(OrderDeleteMessage::from_bin(&bytes), Ok(message));
}

#[test]
fn tick_size_table_entry_carries_negative_prices() {
    let message = TickSizeTableEntryMessage::new(
        tag('L'),
        num(1),
        num(2),
        num(5),
        Price { value: -1 },
        Price { value: i32::MIN },
    )
    .unwrap();
    let bytes = message.to_bin::<25>().unwrap();
    assert_eq!(bytes[17..21], [0xff, 0xff, 0xff, 0xff]);
    assert_eq!(bytes[21..25], [0x80, 0, 0, 0]);
    assert_eq!(TickSizeTableEntryMessage::from_bin(&bytes), Ok(message));
}

#[test]
fn order_book_state_survives_the_wire() {
    let message =
        OrderBookStateMessage::new(tag('O'), num(77), num(4_000_000_000), text("CONTINUOUS"))
            .unwrap();
    let bytes = message.to_bin::<29>().unwrap();
    assert_eq!(bytes[9..19], *b"CONTINUOUS");
    assert_eq!(bytes[19..29], [b' '; 10]);
    assert_eq!(OrderBookStateMessage::from_bin(&bytes), Ok(message));
}

#[test]
fn equilibrium_price_update_survives_the_wire() {
    let message = EquilibriumPriceUpdateMessage::new(
        tag('Z'),
        num(1),
        num(2),
        num(u64::MAX as u128),
        num(4),
        Price { value: 5 },
        Price { value: -6 },
        Price { value: 7 },
        num(8),
        num(9),
    )
    .unwrap();
    let bytes = message.to_bin::<53>().unwrap();
    assert_eq!(bytes[9..17], [0xff; 8]);
    assert_eq!(EquilibriumPriceUpdateMessage::from_bin(&bytes), Ok(message));
}

#[test]
fn combination_survives_the_wire() {
    let message = a_combination();
    let bytes = message.to_bin::<268>().unwrap();
    assert_eq!(bytes[0], b'M');
    assert_eq!(bytes[9..14], *b"COMBO");
    assert_eq!(bytes[80..92], *b"SE0000000001");
    assert_eq!(bytes[92], 11);
    assert_eq!(bytes[93..96], *b"SEK");
    assert_eq!(bytes[152], b'B');
    assert_eq!(bytes[153..157], [0, 0, 0, 1]);
    assert_eq!(bytes[263], b'B');
    assert_eq!(bytes[264..268], [0, 0, 0, 0]);
    assert_eq!(CombinationOrderBookDirectoryMessage::from_bin(&bytes), Ok(message));
}

#[test]
fn combination_leaves_its_reserved_bytes_zero() {
    let bytes = a_combination().to_bin::<268>().unwrap();
    assert_eq!(bytes[41..67], *b"A COMBINATION OF FOUR LEGS");
    assert_eq!(bytes[67..73], [b' '; 6]);
    assert_eq!(bytes[73..80], [0; 7]);
}

#[test]
fn combination_does_not_look_at_its_reserved_bytes() {
    let mut bytes = a_combination().to_bin::<268>().unwrap();
    for b in &mut bytes[73..80] {
        *b = 0xff;
    }
    assert_eq!(CombinationOrderBookDirectoryMessage::from_bin(&bytes), Ok(a_combination()));
}

#[test]
fn decoding_then_encoding_gives_the_bytes_back() {
    let seconds = [b'T', 1, 2, 3, 4];
    assert_eq!(SecondsMessage::from_bin(&seconds).unwrap().to_bin::<5>(), Ok(seconds));
    let event = [b'S', 0xff, 0xfe, 0xfd, 0xfc, b'C'];
    assert_eq!(SystemEventMessage::from_bin(&event).unwrap().to_bin::<6>(), Ok(event));
    let combination = a_combination().to_bin::<268>().unwrap();
    assert_eq!(
        CombinationOrderBookDirectoryMessage::from_bin(&combination).unwrap().to_bin::<268>(),
        Ok(combination)
    );
}

#[test]
fn encoding_refuses_every_size_but_the_wire_size() {
    let message = SecondsMessage::new(tag('T'), num(1)).unwrap();
    assert_eq!(message.to_bin::<4>(), Err(DataFeedError::InvalidMessageSize(5, 4)));
    assert_eq!(message.to_bin::<6>(), Err(DataFeedError::InvalidMessageSize(5, 6)));
    assert_eq!(message.to_bin::<0>(), Err(DataFeedError::InvalidMessageSize(5, 0)));
    assert!(message.to_bin::<5>().is_ok());
    assert_eq!(
        a_combination().to_bin::<261>(),
        Err(DataFeedError::InvalidMessageSize(268, 261))
    );
    assert_eq!(a_trade().to_bin::<58>(), Err(DataFeedError::InvalidMessageSize(50, 58)));
}

#[test]
fn decoding_refuses_every_size_but_the_wire_size() {
    assert_eq!(
        SecondsMessage::from_bin(&[b'T', 0, 0, 0]),
        Err(DataFeedError::InvalidMessageSize(5, 4))
    );
    assert_eq!(
        SecondsMessage::from_bin(&[b'T', 0, 0, 0, 0, 0]),
        Err(DataFeedError::InvalidMessageSize(5, 6))
    );
    assert_eq!(SecondsMessage::from_bin(&[]), Err(DataFeedError::InvalidMessageSize(5, 0)));
    assert_eq!(
        SystemEventMessage::from_bin(&[0u8; 5]),
        Err(DataFeedError::InvalidMessageSize(6, 5))
    );
    assert_eq!(
        OrderBookStateMessage::from_bin(&[0u8; 30]),
        Err(DataFeedError::InvalidMessageSize(29, 30))
    );
    assert_eq!(
        AddOrderWithParticipantIdMessage::from_bin(&[0u8; 43]),
        Err(DataFeedError::InvalidMessageSize(44, 43))
    );
    assert_eq!(
        OrderDeleteMessage::from_bin(&[0u8; 44]),
        Err(DataFeedError::InvalidMessageSize(18, 44))
    );
    assert_eq!(
        OrderExecutedMessage::from_bin(&[0u8; 58]),
        Err(DataFeedError::InvalidMessageSize(52, 58))
    );
    assert_eq!(
        OrderExecutedWithPriceMessage::from_bin(&[0u8; 52]),
        Err(DataFeedError::InvalidMessageSize(58, 52))
    );
    assert_eq!(TradeMessage::from_bin(&[0u8; 49]), Err(DataFeedError::InvalidMessageSize(50, 49)));
    assert_eq!(
        TickSizeTableEntryMessage::from_bin(&[0u8; 26]),
        Err(DataFeedError::InvalidMessageSize(25, 26))
    );
    assert_eq!(
        CombinationOrderBookDirectoryMessage::from_bin(&[0u8; 267]),
        Err(DataFeedError::InvalidMessageSize(268, 267))
    );
    assert_eq!(
        EquilibriumPriceUpdateMessage::from_bin(&[0u8; 54]),
        Err(DataFeedError::InvalidMessageSize(53, 54))
    );
}

#[test]
fn the_size_is_checked_before_the_bytes() {
    assert_eq!(
        SecondsMessage::from_bin(&[0x01, 0, 0, 0]),
        Err(DataFeedError::InvalidMessageSize(5, 4))
    );
}

#[test]
fn decoding_reports_a_byte_outside_printable_ascii() {
    assert_eq!(
        SecondsMessage::from_bin(&[0x01, 0, 0, 0, 0]),
        Err(DataFeedError::NonISO88591Value('\u{1}'))
    );
    assert_eq!(
        SystemEventMessage::from_bin(&[b'S', 0, 0, 0, 0, 0xe9]),
        Err(DataFeedError::NonISO88591Value('\u{e9}'))
    );
    let mut bytes = add_order_bytes();
    bytes[40] = 0x80;
    assert_eq!(
        AddOrderWithParticipantIdMessage::from_bin(&bytes),
        Err(DataFeedError::NonISO88591Value('\u{80}'))
    );
}

#[test]
fn decoding_runs_the_rules_of_the_type() {
    assert_eq!(
        SecondsMessage::from_bin(&[b'S', 0, 0, 0, 0]),
        Err(DataFeedError::InvalidMessageType('T', 'S'))
    );
    assert_eq!(
        SystemEventMessage::from_bin(&[b'S', 0, 0, 0, 0, b'Q']),
        Err(DataFeedError::InvalidEventCodeValue('Q'))
    );
    let mut bytes = add_order_bytes();
    bytes[0] = b'F';
    assert_eq!(
        AddOrderWithParticipantIdMessage::from_bin(&bytes),
        Err(DataFeedError::InvalidMessageType('F', 'F'))
    );
    let mut bytes = add_order_bytes();
    bytes[17] = b'X';
    assert_eq!(
        AddOrderWithParticipantIdMessage::from_bin(&bytes),
        Err(DataFeedError::InvalidSideValue('X'))
    );
    let mut bytes = add_order_bytes();
    bytes[34] = 1;
    assert_eq!(
        AddOrderWithParticipantIdMessage::from_bin(&bytes),
        Err(DataFeedError::InvalidExchangeOrderTypeValue(260))
    );
    let mut bytes = add_order_bytes();
    bytes[36] = 5;
    assert_eq!(
        AddOrderWithParticipantIdMessage::from_bin(&bytes),
        Err(DataFeedError::InvalidLotTypeValue(5))
    );
}

#[test]
fn decoding_a_combination_runs_the_leg_ratio_rule() {
    let mut bytes = a_combination().to_bin::<268>().unwrap();
    bytes[193] = 1;
    assert_eq!(
        CombinationOrderBookDirectoryMessage::from_bin(&bytes),
        Err(DataFeedError::InvalidLegRatioValues(1, 1, 0, 0))
    );
    bytes[92] = 2;
    assert_eq!(
        CombinationOrderBookDirectoryMessage::from_bin(&bytes),
        Err(DataFeedError::InvalidFinancialProductValue(2))
    );
}

#[test]
fn a_failing_field_is_reported_before_a_broken_rule() {
    assert_eq!(
        SystemEventMessage::from_bin(&[b'X', 0, 0, 0, 0, 0x07]),
        Err(DataFeedError::NonISO88591Value('\u{7}'))
    );
}

#[test]
fn trade_encodes_although_it_never_decodes() {
    let bytes = a_trade().to_bin::<50>().unwrap();
    assert_eq!(bytes[0], b'P');
    assert_eq!(bytes[1..5], [0, 0, 0, 5]);
    assert_eq!(bytes[5..17], [1, 2, 3, 4, 5, 6, 7, 8, 9, 10, 11, 12]);
    assert_eq!(bytes[17], b' ');
    assert_eq!(bytes[30..34], (-250i32).to_be_bytes());
    assert_eq!(bytes[48], b'Y');
    assert_eq!(bytes[49], b'N');
    assert_eq!(TradeMessage::from_bin(&bytes), Err(DataFeedError::InvalidNumericSize(12)));
}

#[test]
fn records_with_a_twelve_byte_match_id_never_decode() {
    assert_eq!(TradeMessage::from_bin(&[b' '; 50]), Err(DataFeedError::InvalidNumericSize(12)));
    assert_eq!(
        OrderExecutedMessage::from_bin(&[b' '; 52]),
        Err(DataFeedError::InvalidNumericSize(12))
    );
    assert_eq!(
        OrderExecutedWithPriceMessage::from_bin(&[b' '; 58]),
        Err(DataFeedError::InvalidNumericSize(12))
    );
    assert_eq!(TradeMessage::from_bin(&[0u8; 50]), Err(DataFeedError::NonISO88591Value('\u{0}')));
}

#[test]
fn order_executed_encodes_its_fields_at_their_offsets() {
    let message = OrderExecutedMessage::new(
        tag('E'),
        num(1),
        num(2),
        num(3),
        tag('B'),
        num(4),
        num(5),
        text("OWNER"),
        text("OTHER"),
    )
    .unwrap();
    let bytes = message.to_bin::<52>().unwrap();
    assert_eq!(bytes[17], b'B');
    assert_eq!(bytes[18..26], [0, 0, 0, 0, 0, 0, 0, 4]);
    assert_eq!(bytes[26..38], [0, 0, 0, 0, 0, 0, 0, 0, 0, 0, 0, 5]);
    assert_eq!(bytes[38..45], *b"OWNER  ");
    assert_eq!(bytes[45..52], *b"OTHER  ");
}

#[test]
fn order_executed_with_price_encodes_its_fields_at_their_offsets() {
    let message = OrderExecutedWithPriceMessage::new(
        tag('C'),
        num(1),
        num(2),
        num(3),
        tag('S'),
        num(4),
        num(5),
        text("OWNER"),
        text("OTHER"),
        Price { value: 99 },
        tag('Y'),
        tag('N'),
    )
    .unwrap();
    let bytes = message.to_bin::<58>().unwrap();
    assert_eq!(bytes[52..56], [0, 0, 0, 99]);
    assert_eq!(bytes[56], b'Y');
    assert_eq!(bytes[57], b'N');
}
