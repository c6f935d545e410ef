use feed_codec::enums::data_feed_error::DataFeedError;
use feed_codec::models::data_types::alpha::Alpha;
use feed_codec::models::data_types::numeric::{valid_numeric_size, Numeric, VALID_NUMERIC_SIZES};
use feed_codec::models::data_types::price::Price;
use feed_codec::traits::data_type::TDataType;

#[test]
fn alpha_keeps_the_characters_it_was_made_of() {
    let alpha = Alpha::<3>::new(['S', 'E', 'K']).unwrap();
    assert_eq!(alpha.value, ['S', 'E', 'K']);
}

#[test]
fn alpha_accepts_every_latin1_character() {
    assert!(Alpha::<4>::new(['\u{0}', ' ', '\u{7f}', '\u{ff}']).is_ok());
    assert!(Alpha::<1>::new(['\u{e9}']).is_ok());
}

#[test]
fn alpha_of_no_characters_is_valid() {
    assert_eq!(Alpha::<0>::new([]), Ok(Alpha { value: [] }));
}

#[test]
fn alpha_rejects_a_character_above_latin1() {
    assert_eq!(Alpha::<1>::new(['\u{100}']), Err(DataFeedError::NonISO88591Value('\u{100}')));
    assert_eq!(
        Alpha::<3>::new(['a', '\u{20ac}', 'b']),
        Err(DataFeedError::NonISO88591Value('\u{20ac}'))
    );
}

#[test]
fn alpha_reports_the_first_offending_character() {
    assert_eq!(
        Alpha::<4>::new(['a', '\u{3b1}', '\u{3b2}', 'b']),
        Err(DataFeedError::NonISO88591Value('\u{3b1}'))
    );
}

#[test]
fn alpha_validate_agrees_with_new() {
    let good = Alpha::<2> { value: ['o', 'k'] };
    let bad = Alpha::<2> { value: ['o', '\u{1f600}'] };
    assert_eq!(good.validate(), Ok(()));
    assert_eq!(bad.validate(), Err(DataFeedError::NonISO88591Value('\u{1f600}')));
}

#[test]
fn numeric_of_one_byte_holds_up_to_255() {
    assert_eq!(Numeric::<1>::new(255), Ok(Numeric { value: 255 }));
    assert_eq!(Numeric::<1>::new(0), Ok(Numeric { value: 0 }));
    assert_eq!(Numeric::<1>::new(256), Err(DataFeedError::InvalidNumericSize(1)));
}

#[test]
fn numeric_bounds_follow_the_width() {
    assert!(Numeric::<2>::new(65_535).is_ok());
    assert_eq!(Numeric::<2>::new(65_536), Err(DataFeedError::InvalidNumericSize(2)));
    assert!(Numeric::<4>::new(4_294_967_295).is_ok());
    assert_eq!(Numeric::<4>::new(4_294_967_296), Err(DataFeedError::InvalidNumericSize(4)));
    assert!(Numeric::<8>::new(18_446_744_073_709_551_615).is_ok());
    assert_eq!(
        Numeric::<8>::new(18_446_744_073_709_551_616),
        Err(DataFeedError::InvalidNumericSize(8))
    );
}

#[test]
fn numeric_of_sixteen_bytes_holds_every_value() {
    assert_eq!(Numeric::<16>::new(u128::MAX), Ok(Numeric { value: u128::MAX }));
    assert!(Numeric::<16>::new(0).is_ok());
}

#[test]
fn numeric_of_an_unknown_width_is_rejected_whatever_the_value() {
    assert_eq!(Numeric::<3>::new(0), Err(DataFeedError::InvalidNumericSize(3)));
    assert_eq!(Numeric::<3>::new(1_000_000), Err(DataFeedError::InvalidNumericSize(3)));
    assert_eq!(Numeric::<0>::new(0), Err(DataFeedError::InvalidNumericSize(0)));
    assert_eq!(Numeric::<12>::new(7), Err(DataFeedError::InvalidNumericSize(12)));
    assert_eq!(Numeric::<32>::new(7), Err(DataFeedError::InvalidNumericSize(32)));
}

#[test]
fn numeric_validate_agrees_with_new() {
    assert_eq!(Numeric::<2> { value: 513 }.validate(), Ok(()));
    assert_eq!(
        Numeric::<2> { value: 70_000 }.validate(),
        Err(DataFeedError::InvalidNumericSize(2))
    );
    assert_eq!(Numeric::<5> { value: 1 }.validate(), Err(DataFeedError::InvalidNumericSize(5)));
}

#[test]
fn valid_numeric_sizes_are_the_five_widths() {
    assert_eq!(VALID_NUMERIC_SIZES, [1, 2, 4, 8, 16]);
    for size in 0..40usize {
        assert_eq!(valid_numeric_size(size), VALID_NUMERIC_SIZES.contains(&size));
    }
}

#[test]
fn numeric_bytes_are_big_endian() {
    assert_eq!(Numeric::<4> { value: 1000 }.to_be_bytes(), [0, 0, 3, 232]);
    assert_eq!(Numeric::<1> { value: 7 }.to_be_bytes(), [7]);
    assert_eq!(Numeric::<2> { value: 0x1234 }.to_be_bytes(), [0x12, 0x34]);
    assert_eq!(
        Numeric::<8> { value: 0x0102_0304_0506_0708 }.to_be_bytes(),
        [1, 2, 3, 4, 5, 6, 7, 8]
    );
    assert_eq!(Numeric::<16> { value: u128::MAX }.to_be_bytes(), [0xff; 16]);
    assert_eq!(
        Numeric::<12> { value: 0x0a0b_0c0d }.to_be_bytes(),
        [0, 0, 0, 0, 0, 0, 0, 0, 0x0a, 0x0b, 0x0c, 0x0d]
    );
}

#[test]
fn numeric_bytes_agree_with_the_standard_library() {
    for value in [0u128, 1, 255, 256, 65_535, 0xdead_beef, u64::MAX as u128, u128::MAX] {
        assert_eq!(Numeric::<16> { value }.to_be_bytes(), value.to_be_bytes());
    }
    for value in [0u32, 1, 1000, 0x8000_0000, u32::MAX] {
        assert_eq!(Numeric::<4> { value: value as u128 }.to_be_bytes(), value.to_be_bytes());
    }
}

#[test]
fn numeric_bytes_of_a_value_too_large_keep_the_low_part() {
    assert_eq!(Numeric::<1> { value: 0x1ff }.to_be_bytes(), [0xff]);
    assert_eq!(Numeric::<2> { value: 0x0123_4567 }.to_be_bytes(), [0x45, 0x67]);
}

#[test]
fn numeric_wider_than_sixteen_bytes_is_padded_with_zeros() {
    let bytes = Numeric::<20> { value: u128::MAX }.to_be_bytes();
    assert_eq!(bytes[..4], [0, 0, 0, 0]);
    assert_eq!(bytes[4..], [0xff; 16]);
}

#[test]
fn price_never_fails() {
    assert_eq!(Price::new(0), Ok(Price { value: 0 }));
    assert_eq!(Price::new(12345), Ok(Price { value: 12345 }));
    assert_eq!(Price::new(i32::MIN), Ok(Price { value: i32::MIN }));
    assert_eq!(Price::new(i32::MAX), Ok(Price { value: i32::MAX }));
    assert_eq!(Price { value: -1 }.validate(), Ok(()));
}

#[test]
fn price_bits_are_twos_complement() {
    assert_eq!(Price { value: 0 }.to_bits(), 0);
    assert_eq!(Price { value: 12345 }.to_bits(), 12345);
    assert_eq!(Price { value: -1 }.to_bits(), 0xffff_ffff);
    assert_eq!(Price { value: i32::MIN }.to_bits(), 0x8000_0000);
    assert_eq!(Price::from_bits(0xffff_fffe), Price { value: -2 });
    assert_eq!(Price::from_bits(0x7fff_ffff), Price { value: i32::MAX });
    assert_eq!(Price::from_bits(0x8000_0000), Price { value: i32::MIN });
}

#[test]
fn price_bytes_agree_with_the_standard_library() {
    for value in [0i32, 1, -1, 12345, -12345, i32::MIN, i32::MAX] {
        assert_eq!(Price { value }.to_be_bytes(), value.to_be_bytes());
        assert_eq!(Price::from_bits(value as u32), Price { value });
    }
    assert_eq!(Price { value: 12345 }.to_be_bytes(), [0, 0, 0x30, 0x39]);
    assert_eq!(Price { value: -2 }.to_be_bytes(), [0xff, 0xff, 0xff, 0xfe]);
}
