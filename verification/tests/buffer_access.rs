use feed_codec::enums::data_feed_error::DataFeedError;
use feed_codec::models::data_types::alpha::Alpha;
use feed_codec::models::data_types::numeric::Numeric;
use feed_codec::models::data_types::price::Price;
use feed_codec::util::buffer_utils::{
    read_alpha, read_big_endian, read_numeric, read_price, write_alpha, write_num, zeroed,
};
use feed_codec::util::latin1::{byte_of_char, char_of_byte, fits_one_byte};

#[test]
fn zeroed_buffer_is_all_zero() {
    assert_eq!(zeroed::<0>(), []);
    assert_eq!(zeroed::<5>(), [0, 0, 0, 0, 0]);
    assert_eq!(zeroed::<268>(), [0u8; 268]);
}

#[test]
fn write_num_copies_the_bytes_and_nothing_else() {
    let mut buf = [9u8; 8];
    write_num(&mut buf, 2, &[1, 2, 3]);
    assert_eq!(buf, [9, 9, 1, 2, 3, 9, 9, 9]);
    write_num(&mut buf, 0, &[7]);
    assert_eq!(buf, [7, 9, 1, 2, 3, 9, 9, 9]);
    write_num(&mut buf, 6, &[5, 6]);
    assert_eq!(buf, [7, 9, 1, 2, 3, 9, 5, 6]);
}

#[test]
fn write_num_of_no_bytes_changes_nothing() {
    let mut buf = [1u8, 2, 3];
    write_num(&mut buf, 3, &[]);
    assert_eq!(buf, [1, 2, 3]);
}

#[test]
fn write_alpha_writes_one_byte_per_character() {
    let mut buf = [0u8; 6];
    write_alpha(&mut buf, 1, &['A', 'b', ' ', '\u{e9}']);
    assert_eq!(buf, [0, 0x41, 0x62, 0x20, 0xe9, 0]);
}

#[test]
fn write_alpha_cuts_a_code_point_to_its_low_byte() {
    let mut buf = [0u8; 2];
    write_alpha(&mut buf, 0, &['\u{141}', '\u{20ac}']);
    assert_eq!(buf, [0x41, 0xac]);
}

#[test]
fn characters_and_bytes_convert_one_for_one() {
    assert!(fits_one_byte('\u{ff}'));
    assert!(!fits_one_byte('\u{100}'));
    assert_eq!(byte_of_char('A'), 0x41);
    assert_eq!(byte_of_char('\u{ff}'), 0xff);
    assert_eq!(byte_of_char('\u{1f600}'), 0x00);
    assert_eq!(char_of_byte(0x41), 'A');
    assert_eq!(char_of_byte(0xe9), '\u{e9}');
    for b in 0..=255u8 {
        assert_eq!(byte_of_char(char_of_byte(b)), b);
    }
}

#[test]
fn read_big_endian_reads_most_significant_byte_first() {
    let buf = [0xaa, 0x01, 0x02, 0x03, 0x04, 0xbb];
    assert_eq!(read_big_endian(&buf, 1, 4), 0x0102_0304);
    assert_eq!(read_big_endian(&buf, 0, 1), 0xaa);
    assert_eq!(read_big_endian(&buf, 3, 0), 0);
    assert_eq!(read_big_endian(&[0xff; 16], 0, 16), u128::MAX);
}

#[test]
fn read_numeric_reads_the_width_it_is_asked_for() {
    let buf = [0u8, 0, 3, 232, 0xff, 0xff];
    assert_eq!(read_numeric::<4>(&buf, 0), Ok(Numeric { value: 1000 }));
    assert_eq!(read_numeric::<2>(&buf, 2), Ok(Numeric { value: 1000 }));
    assert_eq!(read_numeric::<1>(&buf, 3), Ok(Numeric { value: 232 }));
    assert_eq!(read_numeric::<2>(&buf, 4), Ok(Numeric { value: 65_535 }));
    assert_eq!(read_numeric::<16>(&[0x80; 16], 0), Ok(Numeric { value: u128::from_be_bytes([0x80; 16]) }));
}

#[test]
fn read_numeric_rejects_an_unknown_width() {
    let buf = [0u8; 16];
    assert_eq!(read_numeric::<3>(&buf, 0), Err(DataFeedError::InvalidNumericSize(3)));
    assert_eq!(read_numeric::<12>(&buf, 0), Err(DataFeedError::InvalidNumericSize(12)));
    assert_eq!(read_numeric::<0>(&buf, 0), Err(DataFeedError::InvalidNumericSize(0)));
}

#[test]
fn read_numeric_of_an_unknown_width_does_not_touch_the_buffer() {
    assert_eq!(read_numeric::<12>(&[], 40), Err(DataFeedError::InvalidNumericSize(12)));
}

#[test]
fn read_price_reads_a_signed_number() {
    assert_eq!(read_price(&[0, 0, 0x30, 0x39], 0), Price { value: 12345 });
    assert_eq!(read_price(&[1, 0xff, 0xff, 0xff, 0xff], 1), Price { value: -1 });
    assert_eq!(read_price(&[0x80, 0, 0, 0], 0), Price { value: i32::MIN });
    assert_eq!(read_price(&[0x7f, 0xff, 0xff, 0xff], 0), Price { value: i32::MAX });
}

#[test]
fn read_alpha_reads_printable_text() {
    let buf = [0u8, b'M', b'E', b'M', b' ', b'~', 0x7f];
    assert_eq!(read_alpha::<6>(&buf, 1), Ok(Alpha { value: ['M', 'E', 'M', ' ', '~', '\u{7f}'] }));
    assert_eq!(read_alpha::<0>(&buf, 0), Ok(Alpha { value: [] }));
}

#[test]
fn read_alpha_rejects_a_byte_outside_printable_ascii() {
    assert_eq!(read_alpha::<1>(&[0x1f], 0), Err(DataFeedError::NonISO88591Value('\u{1f}')));
    assert_eq!(read_alpha::<1>(&[0x00], 0), Err(DataFeedError::NonISO88591Value('\u{0}')));
    assert_eq!(read_alpha::<1>(&[0x80], 0), Err(DataFeedError::NonISO88591Value('\u{80}')));
    assert_eq!(read_alpha::<1>(&[0xe9], 0), Err(DataFeedError::NonISO88591Value('\u{e9}')));
    assert_eq!(read_alpha::<1>(&[0xff], 0), Err(DataFeedError::NonISO88591Value('\u{ff}')));
    assert!(read_alpha::<1>(&[0x20], 0).is_ok());
    assert!(read_alpha::<1>(&[0x7f], 0).is_ok());
}

#[test]
fn read_alpha_reports_the_first_offending_byte() {
    assert_eq!(
        read_alpha::<4>(&[b'a', 0x01, 0x02, b'b'], 0),
        Err(DataFeedError::NonISO88591Value('\u{1}'))
    );
}

#[test]
fn every_byte_decodes_exactly_if_it_is_printable_ascii() {
    for b in 0..=255u8 {
        let decoded = read_alpha::<1>(&[b], 0);
        if (0x20..=0x7f).contains(&b) {
            assert_eq!(decoded, Ok(Alpha { value: [b as char] }));
        } else {
            assert_eq!(decoded, Err(DataFeedError::NonISO88591Value(b as char)));
        }
    }
}

#[test]
fn a_latin1_field_outside_ascii_is_valid_but_does_not_decode() {
    let field = Alpha::<1>::new(['\u{e9}']).unwrap();
    let mut buf = [0u8; 1];
    write_alpha(&mut buf, 0, &field.value);
    assert_eq!(buf, [0xe9]);
    assert_eq!(read_alpha::<1>(&buf, 0), Err(DataFeedError::NonISO88591Value('\u{e9}')));
}

#[test]
fn what_is_written_is_read_back() {
    let mut buf = [0u8; 32];
    let quantity = Numeric::<8>::new(123_456_789_012).unwrap();
    let price = Price::new(-678).unwrap();
    let name = Alpha::<5>::new(['S', 'T', 'O', 'C', 'K']).unwrap();
    write_num(&mut buf, 3, &quantity.to_be_bytes());
    write_num(&mut buf, 11, &price.to_be_bytes());
    write_alpha(&mut buf, 15, &name.value);
    assert_eq!(read_numeric::<8>(&buf, 3), Ok(quantity));
    assert_eq!(read_price(&buf, 11), price);
    assert_eq!(read_alpha::<5>(&buf, 15), Ok(name));
    assert_eq!(buf[..3], [0, 0, 0]);
    assert_eq!(buf[20..], [0; 12]);
}
