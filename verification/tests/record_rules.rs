use feed_codec::enums::data_feed_error::DataFeedError;
use feed_codec::models::data_types::alpha::Alpha;
use feed_codec::models::data_types::numeric::Numeric;
use feed_codec::models::data_types::price::Price;
use feed_codec::models::messages::add_order_with_participant_id_message::{
    valid_exchange_order_type, valid_lot_type, AddOrderWithParticipantIdMessage,
};
use feed_codec::models::messages::combination_order_book_directory_message::{
    sum_of_leg_ratios_is_one, valid_financial_product, valid_leg_1_and_2_side,
    valid_leg_3_and_4_side, CombinationOrderBookDirectoryMessage,
};
use feed_codec::models::messages::equilibrium_price_update_message::EquilibriumPriceUpdateMessage;
use feed_codec::models::messages::order_book_state_message::OrderBookStateMessage;
use feed_codec::models::messages::order_delete_message::OrderDeleteMessage;
use feed_codec::models::messages::order_executed_message::OrderExecutedMessage;
use feed_codec::models::messages::order_executed_with_price_message::OrderExecutedWithPriceMessage;
use feed_codec::models::messages::seconds_message::SecondsMessage;
use feed_codec::models::messages::system_event_message::SystemEventMessage;
use feed_codec::models::messages::tick_size_table_entry_message::TickSizeTableEntryMessage;
use feed_codec::models::messages::trade_message::TradeMessage;
use feed_codec::traits::message::TMessage;

fn text<const N: usize>(s: &str) -> Alpha<N> {
    let mut value = [' '; N];
    for (i, c) in s.chars().enumerate() {
        value[i] = c;
    }
    Alpha { value }
}

fn tag(c: char) -> Alpha<1> {
    Alpha { value: [c] }
}

fn num<const N: usize>(value: u128) -> Numeric<N> {
    Numeric { value }
}

fn order_delete(message_type: char, side: char) -> Result<OrderDeleteMessage, DataFeedError> {
    OrderDeleteMessage::new(tag(message_type), num(1), num(2), num(3), tag(side))
}

fn add_order(
    message_type: char,
    side: char,
    exchange_order_type: u128,
    lot_type: u128,
) -> Result<AddOrderWithParticipantIdMessage, DataFeedError> {
    AddOrderWithParticipantIdMessage::new(
        tag(message_type),
        num(1000),
        num(42),
        num(7),
        tag(side),
        num(1),
        num(100),
        Price { value: 12345 },
        num(exchange_order_type),
        num(lot_type),
        text("MEMBER1"),
    )
}

fn trade(
    message_type: char,
    side: char,
    printable: char,
    occurred_at_cross: char,
) -> Result<TradeMessage, DataFeedError> {
    TradeMessage::new(
        tag(message_type),
        num(5),
        num(77),
        tag(side),
        num(10),
        num(3),
        Price { value: 250 },
        text("OWNER"),
        text("OTHER"),
        tag(printable),
        tag(occurred_at_cross),
    )
}

fn executed_with_price(
    message_type: char,
    side: char,
    occurred_at_cross: char,
    printable: char,
) -> Result<OrderExecutedWithPriceMessage, DataFeedError> {
    OrderExecutedWithPriceMessage::new(
        tag(message_type),
        num(5),
        num(42),
        num(3),
        tag(side),
        num(10),
        num(77),
        text("OWNER"),
        text("OTHER"),
        Price { value: 250 },
        tag(occurred_at_cross),
        tag(printable),
    )
}

fn combination(
    message_type: char,
    financial_product: u128,
    sides: [char; 4],
    ratios: [u128; 4],
) -> Result<CombinationOrderBookDirectoryMessage, DataFeedError> {
    CombinationOrderBookDirectoryMessage::new(
        tag(message_type),
        num(1),
        num(900),
        text("COMBO"),
        text("A COMBINATION"),
        text("SE0000000001"),
        num(financial_product),
        text("SEK"),
        num(2),
        num(0),
        num(1),
        num(100),
        num(10_000),
        num(1_000_000),
        text("LEG1"),
        tag(sides[0]),
        num(ratios[0]),
        text("LEG2"),
        tag(sides[1]),
        num(ratios[1]),
        text("LEG3"),
        tag(sides[2]),
        num(ratios[2]),
        text("LEG4"),
        tag(sides[3]),
        num(ratios[3]),
    )
}

#[test]
fn system_event_accepts_open_and_close() {
    assert!(SystemEventMessage::new(tag('S'), num(1), tag('O')).is_ok());
    assert!(SystemEventMessage::new(tag('S'), num(1), tag('C')).is_ok());
}

#[test]
fn system_event_rejects_another_event_code() {
    assert_eq!(
        SystemEventMessage::new(tag('S'), num(1), tag('Q')),
        Err(DataFeedError::InvalidEventCodeValue('Q'))
    );
}

#[test]
fn system_event_rejects_another_tag() {
    assert_eq!(
        SystemEventMessage::new(tag('T'), num(1), tag('O')),
        Err(DataFeedError::InvalidMessageType('S', 'T'))
    );
}

#[test]
fn the_tag_is_checked_before_the_other_fields() {
    assert_eq!(
        SystemEventMessage::new(tag('X'), num(1), tag('Q')),
        Err(DataFeedError::InvalidMessageType('S', 'X'))
    );
    assert_eq!(order_delete('X', 'X'), Err(DataFeedError::InvalidMessageType('D', 'X')));
}

#[test]
fn new_keeps_the_fields_it_was_given() {
    let message = SystemEventMessage::new(tag('S'), num(999), tag('C')).unwrap();
    assert_eq!(message.message_type, tag('S'));
    assert_eq!(message.nanoseconds, num(999));
    assert_eq!(message.event_code, tag('C'));
}

#[test]
fn validate_fields_agrees_with_new() {
    let good = SystemEventMessage { message_type: tag('S'), nanoseconds: num(1), event_code: tag('O') };
    let bad = SystemEventMessage { message_type: tag('S'), nanoseconds: num(1), event_code: tag('o') };
    assert_eq!(good.validate_fields(), Ok(()));
    assert_eq!(bad.validate_fields(), Err(DataFeedError::InvalidEventCodeValue('o')));
}

#[test]
fn records_with_a_tag_rule_only() {
    assert!(SecondsMessage::new(tag('T'), num(3600)).is_ok());
    assert_eq!(
        SecondsMessage::new(tag('S'), num(3600)),
        Err(DataFeedError::InvalidMessageType('T', 'S'))
    );
    assert!(OrderBookStateMessage::new(tag('O'), num(1), num(2), text("OPEN")).is_ok());
    assert_eq!(
        OrderBookStateMessage::new(tag('o'), num(1), num(2), text("OPEN")),
        Err(DataFeedError::InvalidMessageType('O', 'o'))
    );
    assert!(TickSizeTableEntryMessage::new(
        tag('L'),
        num(1),
        num(2),
        num(5),
        Price { value: 0 },
        Price { value: 1000 }
    )
    .is_ok());
    assert_eq!(
        TickSizeTableEntryMessage::new(
            tag('M'),
            num(1),
            num(2),
            num(5),
            Price { value: 0 },
            Price { value: 1000 }
        ),
        Err(DataFeedError::InvalidMessageType('L', 'M'))
    );
    assert!(EquilibriumPriceUpdateMessage::new(
        tag('Z'),
        num(1),
        num(2),
        num(3),
        num(4),
        Price { value: 5 },
        Price { value: 6 },
        Price { value: 7 },
        num(8),
        num(9)
    )
    .is_ok());
    assert_eq!(
        EquilibriumPriceUpdateMessage::new(
            tag(' '),
            num(1),
            num(2),
            num(3),
            num(4),
            Price { value: 5 },
            Price { value: 6 },
            Price { value: 7 },
            num(8),
            num(9)
        ),
        Err(DataFeedError::InvalidMessageType('Z', ' '))
    );
}

#[test]
fn order_delete_accepts_buy_and_sell() {
    assert!(order_delete('D', 'B').is_ok());
    assert!(order_delete('D', 'S').is_ok());
}

#[test]
fn order_delete_rejects_another_side() {
    assert_eq!(order_delete('D', 'X'), Err(DataFeedError::InvalidSideValue('X')));
    assert_eq!(order_delete('D', ' '), Err(DataFeedError::InvalidSideValue(' ')));
    assert_eq!(order_delete('D', 'b'), Err(DataFeedError::InvalidSideValue('b')));
}

#[test]
fn add_order_accepts_any_tag_but_f() {
    assert!(add_order('A', 'B', 4, 0).is_ok());
    assert!(add_order('Z', 'S', 4, 0).is_ok());
    assert!(add_order(' ', 'S', 4, 0).is_ok());
    assert_eq!(add_order('F', 'B', 4, 0), Err(DataFeedError::InvalidMessageType('F', 'F')));
}

#[test]
fn add_order_rejects_another_side() {
    assert_eq!(add_order('A', 'X', 4, 0), Err(DataFeedError::InvalidSideValue('X')));
}

#[test]
fn add_order_accepts_the_fifteen_unions_of_the_four_flags() {
    let mut accepted = 0;
    for value in 0..=70_000u128 {
        let is_union = value != 0 && value & !(4 | 8 | 32 | 8192) == 0;
        assert_eq!(valid_exchange_order_type(value), is_union, "{}", value);
        if is_union {
            accepted += 1;
        }
    }
    assert_eq!(accepted, 15);
    for value in [4, 8, 32, 8192, 12, 36, 8196, 40, 8200, 8224, 44, 8204, 8228, 8232, 8236] {
        assert!(add_order('A', 'B', value, 0).is_ok());
    }
}

#[test]
fn add_order_rejects_another_exchange_order_type() {
    for value in [0, 1, 2, 16, 5, 64, 8193, 16384, 65_535] {
        assert_eq!(
            add_order('A', 'B', value, 0),
            Err(DataFeedError::InvalidExchangeOrderTypeValue(value))
        );
    }
}

#[test]
fn exchange_order_type_is_not_cut_to_sixteen_bits() {
    assert!(!valid_exchange_order_type(65_536 + 4));
    assert_eq!(
        add_order('A', 'B', 65_536 + 4, 0),
        Err(DataFeedError::InvalidExchangeOrderTypeValue(65_540))
    );
}

#[test]
fn add_order_accepts_lot_types_up_to_four() {
    for value in 0..=4 {
        assert!(add_order('A', 'B', 4, value).is_ok());
    }
    for value in 0..300u128 {
        assert_eq!(valid_lot_type(value), value <= 4);
    }
}

#[test]
fn add_order_rejects_another_lot_type() {
    assert_eq!(add_order('A', 'B', 4, 5), Err(DataFeedError::InvalidLotTypeValue(5)));
    assert_eq!(add_order('A', 'B', 4, 255), Err(DataFeedError::InvalidLotTypeValue(255)));
    assert_eq!(add_order('A', 'B', 4, 256), Err(DataFeedError::InvalidLotTypeValue(256)));
}

#[test]
fn add_order_reports_the_first_broken_rule() {
    assert_eq!(add_order('F', 'X', 0, 9), Err(DataFeedError::InvalidMessageType('F', 'F')));
    assert_eq!(add_order('A', 'X', 0, 9), Err(DataFeedError::InvalidSideValue('X')));
    assert_eq!(add_order('A', 'B', 0, 9), Err(DataFeedError::InvalidExchangeOrderTypeValue(0)));
    assert_eq!(add_order('A', 'B', 8, 9), Err(DataFeedError::InvalidLotTypeValue(9)));
}

#[test]
fn order_executed_checks_tag_and_side() {
    let make = |message_type: char, side: char| {
        OrderExecutedMessage::new(
            tag(message_type),
            num(1),
            num(2),
            num(3),
            tag(side),
            num(4),
            num(5),
            text("OWNER"),
            text("OTHER"),
        )
    };
    assert!(make('E', 'B').is_ok());
    assert!(make('E', 'S').is_ok());
    assert_eq!(make('C', 'B'), Err(DataFeedError::InvalidMessageType('E', 'C')));
    assert_eq!(make('E', 'C'), Err(DataFeedError::InvalidSideValue('C')));
}

#[test]
fn order_executed_with_price_checks_its_flags() {
    assert!(executed_with_price('C', 'B', 'N', 'Y').is_ok());
    assert!(executed_with_price('C', 'S', 'Y', 'N').is_ok());
    assert_eq!(
        executed_with_price('E', 'B', 'N', 'Y'),
        Err(DataFeedError::InvalidMessageType('C', 'E'))
    );
    assert_eq!(executed_with_price('C', ' ', 'N', 'Y'), Err(DataFeedError::InvalidSideValue(' ')));
    assert_eq!(
        executed_with_price('C', 'B', 'X', 'Y'),
        Err(DataFeedError::InvalidOccurredAtCrossValue('X'))
    );
    assert_eq!(
        executed_with_price('C', 'B', 'N', 'n'),
        Err(DataFeedError::InvalidPrintableValue('n'))
    );
}

#[test]
fn order_executed_with_price_checks_the_cross_flag_before_the_printable_flag() {
    assert_eq!(
        executed_with_price('C', 'B', '1', '2'),
        Err(DataFeedError::InvalidOccurredAtCrossValue('1'))
    );
}

#[test]
fn trade_accepts_a_blank_side() {
    assert!(trade('P', 'B', 'Y', 'N').is_ok());
    assert!(trade('P', 'S', 'N', 'Y').is_ok());
    assert!(trade('P', ' ', 'N', 'N').is_ok());
    assert_eq!(trade('P', 'X', 'N', 'N'), Err(DataFeedError::InvalidSideValue('X')));
}

#[test]
fn trade_checks_its_flags() {
    assert_eq!(trade('T', 'B', 'Y', 'N'), Err(DataFeedError::InvalidMessageType('P', 'T')));
    assert_eq!(trade('P', 'B', 'Q', 'N'), Err(DataFeedError::InvalidPrintableValue('Q')));
    assert_eq!(trade('P', 'B', 'Y', 'Q'), Err(DataFeedError::InvalidOccurredAtCrossValue('Q')));
}

#[test]
fn trade_checks_the_printable_flag_before_the_cross_flag() {
    assert_eq!(trade('P', 'B', '1', '2'), Err(DataFeedError::InvalidPrintableValue('1')));
}

#[test]
fn combination_accepts_leg_ratios_that_sum_to_one() {
    assert!(combination('M', 1, ['B', 'C', 'B', '?'], [1, 0, 0, 0]).is_ok());
    assert!(combination('M', 1, ['B', 'C', 'B', '?'], [0, 1, 0, 0]).is_ok());
    assert!(combination('M', 1, ['B', 'C', 'B', '?'], [0, 0, 1, 0]).is_ok());
    assert!(combination('M', 1, ['B', 'C', 'B', '?'], [0, 0, 0, 1]).is_ok());
}

#[test]
fn combination_rejects_leg_ratios_that_do_not_sum_to_one() {
    assert_eq!(
        combination('M', 1, ['B', 'C', 'B', '?'], [1, 1, 0, 0]),
        Err(DataFeedError::InvalidLegRatioValues(1, 1, 0, 0))
    );
    assert_eq!(
        combination('M', 1, ['B', 'C', 'B', '?'], [0, 0, 0, 0]),
        Err(DataFeedError::InvalidLegRatioValues(0, 0, 0, 0))
    );
    assert_eq!(
        combination('M', 1, ['B', 'C', 'B', '?'], [2, 0, 0, 0]),
        Err(DataFeedError::InvalidLegRatioValues(2, 0, 0, 0))
    );
    assert_eq!(
        combination('M', 1, ['B', 'C', 'B', '?'], [1, 2, 3, 4]),
        Err(DataFeedError::InvalidLegRatioValues(1, 2, 3, 4))
    );
}

#[test]
fn the_sum_of_leg_ratios_cannot_wrap_around() {
    assert!(!sum_of_leg_ratios_is_one(u128::MAX, 2, 0, 0));
    assert!(!sum_of_leg_ratios_is_one(u128::MAX, 1, 1, 0));
    assert!(!sum_of_leg_ratios_is_one(u128::MAX, u128::MAX, 3, 0));
    assert!(sum_of_leg_ratios_is_one(0, 0, 1, 0));
    assert_eq!(
        combination('M', 1, ['B', 'C', 'B', '?'], [u128::MAX, 2, 0, 0]),
        Err(DataFeedError::InvalidLegRatioValues(u128::MAX, 2, 0, 0))
    );
}

#[test]
fn combination_checks_the_financial_product() {
    for value in [1, 3, 5, 11] {
        assert!(combination('M', value, ['B', 'C', 'B', '?'], [1, 0, 0, 0]).is_ok());
    }
    for value in [0, 2, 4, 6, 10, 12, 255, 257] {
        assert_eq!(
            combination('M', value, ['B', 'C', 'B', '?'], [1, 0, 0, 0]),
            Err(DataFeedError::InvalidFinancialProductValue(value))
        );
    }
    for value in 0..300u128 {
        assert_eq!(valid_financial_product(value), [1, 3, 5, 11].contains(&value));
    }
}

#[test]
fn combination_checks_the_sides_of_its_legs() {
    assert!(combination('M', 1, ['C', 'B', '?', 'C'], [1, 0, 0, 0]).is_ok());
    assert_eq!(
        combination('M', 1, ['?', 'B', 'B', 'B'], [1, 0, 0, 0]),
        Err(DataFeedError::InvalidSideValue('?'))
    );
    assert_eq!(
        combination('M', 1, ['B', 'S', 'B', 'B'], [1, 0, 0, 0]),
        Err(DataFeedError::InvalidSideValue('S'))
    );
    assert_eq!(
        combination('M', 1, ['B', 'B', 'S', 'B'], [1, 0, 0, 0]),
        Err(DataFeedError::InvalidSideValue('S'))
    );
    assert_eq!(
        combination('M', 1, ['B', 'B', 'B', ' '], [1, 0, 0, 0]),
        Err(DataFeedError::InvalidSideValue(' '))
    );
    assert!(valid_leg_1_and_2_side('B') && valid_leg_1_and_2_side('C'));
    assert!(!valid_leg_1_and_2_side('?'));
    assert!(valid_leg_3_and_4_side('B') && valid_leg_3_and_4_side('C'));
    assert!(valid_leg_3_and_4_side('?'));
    assert!(!valid_leg_3_and_4_side('S'));
}

#[test]
fn combination_reports_the_first_broken_rule() {
    assert_eq!(
        combination('X', 0, ['?', '?', 'S', 'S'], [1, 1, 0, 0]),
        Err(DataFeedError::InvalidMessageType('M', 'X'))
    );
    assert_eq!(
        combination('M', 0, ['?', '?', 'S', 'S'], [1, 1, 0, 0]),
        Err(DataFeedError::InvalidFinancialProductValue(0))
    );
    assert_eq!(
        combination('M', 1, ['1', '2', '3', '4'], [1, 1, 0, 0]),
        Err(DataFeedError::InvalidSideValue('1'))
    );
    assert_eq!(
        combination('M', 1, ['B', '2', '3', '4'], [1, 1, 0, 0]),
        Err(DataFeedError::InvalidSideValue('2'))
    );
    assert_eq!(
        combination('M', 1, ['B', 'B', '3', '4'], [1, 1, 0, 0]),
        Err(DataFeedError::InvalidSideValue('3'))
    );
    assert_eq!(
        combination('M', 1, ['B', 'B', 'B', '4'], [1, 1, 0, 0]),
        Err(DataFeedError::InvalidSideValue('4'))
    );
}
