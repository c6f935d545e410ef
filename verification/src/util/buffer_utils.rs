//! Reading and writing field primitives at a byte offset of a buffer.
//!
//! Numbers are big-endian; text takes one byte per character. A caller hands
//! in a buffer that is long enough for the field: that is part of each
//! contract, not an error that is reported.

use crate::enums::data_feed_error::DataFeedError;
use crate::models::data_types::alpha::Alpha;
use crate::models::data_types::numeric::{is_valid_numeric_size, valid_numeric_size, Numeric};
use crate::models::data_types::price::Price;
use crate::util::big_endian::{
    be_value, lemma_be_value_bound, lemma_be_value_push, lemma_pow256_monotonic,
    lemma_pow256_values, pow256,
};
use crate::util::latin1::{
    all_printable, array_of, byte_of_char, bytes_to_chars, char_of_byte, chars_to_bytes,
    is_first_unprintable, is_printable, lemma_array_of, lemma_first_unprintable,
};
use vstd::array::spec_array_fill_for_copy_type;
use vstd::prelude::*;

verus! {

/// The buffer `buf` after `bytes` took the place of what stood at `offset`.
pub open spec fn overwritten(buf: Seq<u8>, offset: int, bytes: Seq<u8>) -> Seq<u8> {
    buf.subrange(0, offset) + bytes + buf.subrange(offset + bytes.len(), buf.len() as int)
}

/// A run of `n` zero bytes: what a fresh buffer holds.
pub open spec fn zeros(n: nat) -> Seq<u8> {
    Seq::new(n, |i: int| 0u8)
}

/// The `width` bytes of `buf` that start at `offset`.
pub open spec fn field(buf: Seq<u8>, offset: int, width: int) -> Seq<u8> {
    buf.subrange(offset, offset + width)
}

/// A fresh buffer of `SIZE` zero bytes.
pub fn zeroed<const SIZE: usize>() -> (buf: [u8; SIZE])
    ensures
        buf@ == zeros(SIZE as nat),
{
    let buf = [0u8;SIZE];
    // Naming the fill lets the solver apply what vstd states of it.
    assert(buf == spec_array_fill_for_copy_type::<u8, SIZE>(0u8));
    assert(buf@ =~= zeros(SIZE as nat));
    buf
}

/// Where a buffer begins with `front`, then `image`, it begins with
/// `front`, and the field behind `front` is `image`.
pub proof fn lemma_field_split(buf: Seq<u8>, front: Seq<u8>, image: Seq<u8>)
    requires
        front.len() + image.len() <= buf.len(),
        field(buf, 0, (front.len() + image.len()) as int) == front + image,
    ensures
        field(buf, 0, front.len() as int) == front,
        field(buf, front.len() as int, image.len() as int) == image,
{
    let both = field(buf, 0, (front.len() + image.len()) as int);
    assert forall|i: int| 0 <= i < front.len() implies buf[i] == front[i] by {
        assert(both[i] == front[i]);
    }
    assert forall|i: int| 0 <= i < image.len() implies buf[front.len() + i] == image[i] by {
        assert(both[front.len() + i] == image[i]);
    }
    assert(field(buf, 0, front.len() as int) =~= front);
    assert(field(buf, front.len() as int, image.len() as int) =~= image);
}

/// Two fields that touch make one field: the first `end` bytes of a buffer,
/// then the next `width`, are its first `end + width` bytes.
pub proof fn lemma_fields_join(buf: Seq<u8>, end: int, width: int)
    requires
        0 <= end,
        0 <= width,
        end + width <= buf.len(),
    ensures
        field(buf, 0, end) + field(buf, end, width) == field(buf, 0, end + width),
{
    assert(field(buf, 0, end) + field(buf, end, width) =~= field(buf, 0, end + width));
}

/// Copies `bytes` into `buf[offset .. offset + SIZE]` and leaves the rest of
/// the buffer as it was.
///
/// The second and third clause spell out two consequences of the first that
/// callers who fill a buffer field by field lean on: what the buffer holds up
/// to the end of the field, and that nothing behind the field has changed.
pub fn write_num<const SIZE: usize>(buf: &mut [u8], offset: usize, bytes: &[u8; SIZE])
    requires
        offset + SIZE <= old(buf).len(),
    ensures
        final(buf)@ == overwritten(old(buf)@, offset as int, bytes@),
        field(final(buf)@, 0, offset + SIZE) == field(old(buf)@, 0, offset as int) + bytes@,
        forall|j: int|
            offset + SIZE <= j < old(buf)@.len() ==> #[trigger] final(buf)@[j] == old(buf)@[j],
{
    let mut i: usize = 0;
    while i < SIZE
        invariant
            i <= SIZE,
            offset + SIZE <= buf.len(),
            buf@.len() == old(buf)@.len(),
            forall|j: int| offset <= j < offset + i ==> buf@[j] == bytes@[j - offset],
            forall|j: int| 0 <= j < offset || offset + i <= j < buf@.len() ==> buf@[j] == old(
                buf,
            )@[j],
        decreases SIZE - i,
    {
        buf[offset + i] = bytes[i];
        i += 1;
    }
    assert(buf@ =~= overwritten(old(buf)@, offset as int, bytes@));
    assert(field(buf@, 0, offset + SIZE) =~= field(old(buf)@, 0, offset as int) + bytes@);
}

/// Writes the byte of each character of `chars` into
/// `buf[offset .. offset + SIZE]` and leaves the rest of the buffer as it
/// was. A code point above `0xFF` is cut to its low byte.
///
/// The second and third clause spell out two consequences of the first, as
/// in `write_num`.
pub fn write_alpha<const SIZE: usize>(buf: &mut [u8], offset: usize, chars: &[char; SIZE])
    requires
        offset + SIZE <= old(buf).len(),
    ensures
        final(buf)@ == overwritten(old(buf)@, offset as int, chars_to_bytes(chars@)),
        field(final(buf)@, 0, offset + SIZE) == field(old(buf)@, 0, offset as int)
            + chars_to_bytes(chars@),
        forall|j: int|
            offset + SIZE <= j < old(buf)@.len() ==> #[trigger] final(buf)@[j] == old(buf)@[j],
{
    let mut i: usize = 0;
    while i < SIZE
        invariant
            i <= SIZE,
            offset + SIZE <= buf.len(),
            buf@.len() == old(buf)@.len(),
            forall|j: int|
                offset <= j < offset + i ==> buf@[j] == chars_to_bytes(chars@)[j - offset],
            forall|j: int| 0 <= j < offset || offset + i <= j < buf@.len() ==> buf@[j] == old(
                buf,
            )@[j],
        decreases SIZE - i,
    {
        buf[offset + i] = byte_of_char(chars[i]);
        i += 1;
    }
    assert(buf@ =~= overwritten(old(buf)@, offset as int, chars_to_bytes(chars@)));
    assert(field(buf@, 0, offset + SIZE) =~= field(old(buf)@, 0, offset as int)
        + chars_to_bytes(chars@));
}

/// Reads the `width` bytes at `offset` as one big-endian number, by shifting
/// what was read one byte to the left and joining the next byte to it.
pub fn read_big_endian(buf: &[u8], offset: usize, width: usize) -> (value: u128)
    requires
        width <= 16,
        offset + width <= buf.len(),
    ensures
        value == be_value(field(buf@, offset as int, width as int)),
        value < pow256(width as nat),
{
    let mut value: u128 = 0;
    let mut i: usize = 0;
    assert(field(buf@, offset as int, 0) =~= Seq::<u8>::empty());
    while i < width
        invariant
            i <= width <= 16,
            offset + width <= buf.len(),
            value == be_value(field(buf@, offset as int, i as int)),
        decreases width - i,
    {
        let b = buf[offset + i];
        proof {
            let read = field(buf@, offset as int, i as int);
            assert(field(buf@, offset as int, i + 1) =~= read.push(b));
            lemma_be_value_push(read, b);
            lemma_be_value_bound(read);
            lemma_pow256_monotonic(i as nat, 15);
            lemma_pow256_values();
        }
        assert((value << 8) | (b as u128) == value * 256 + b) by (bit_vector)
            requires
                value < 0x100_0000_0000_0000_0000_0000_0000_0000u128,
        ;
        value = (value << 8) | (b as u128);
        i += 1;
    }
    proof {
        lemma_be_value_bound(field(buf@, offset as int, width as int));
    }
    value
}

/// Reads the numeric field of width `SIZE` at `offset`. A width outside
/// 1, 2, 4, 8, 16 is reported; otherwise the read succeeds, and the number
/// fits the width because it was read from exactly `SIZE` bytes.
pub fn read_numeric<const SIZE: usize>(buf: &[u8], offset: usize) -> (r: Result<
    Numeric<SIZE>,
    DataFeedError,
>)
    requires
        is_valid_numeric_size(SIZE) ==> offset + SIZE <= buf.len(),
    ensures
        r == Numeric::<SIZE>::decoding(field(buf@, offset as int, SIZE as int)),
        r is Ok <==> is_valid_numeric_size(SIZE),
        r matches Ok(n) ==> n.wf(),
{
    if !valid_numeric_size(SIZE) {
        return Err(DataFeedError::InvalidNumericSize(SIZE));
    }
    let value = read_big_endian(buf, offset, SIZE);
    Ok(Numeric { value })
}

/// Reads the price at `offset`: four bytes, big-endian, two's complement.
pub fn read_price(buf: &[u8], offset: usize) -> (price: Price)
    requires
        offset + 4 <= buf.len(),
    ensures
        price == Price::decoding(field(buf@, offset as int, 4)),
{
    let bits = read_big_endian(buf, offset, 4);
    proof {
        lemma_pow256_values();
    }
    Price::from_bits(bits as u32)
}

/// Reads the text field of `SIZE` characters at `offset`. The first byte
/// outside printable ASCII (`0x20` to `0x7F`) is reported, as the character
/// with its code.
pub fn read_alpha<const SIZE: usize>(buf: &[u8], offset: usize) -> (r: Result<
    Alpha<SIZE>,
    DataFeedError,
>)
    requires
        offset + SIZE <= buf.len(),
    ensures
        r == Alpha::<SIZE>::decoding(field(buf@, offset as int, SIZE as int)),
        r is Ok <==> all_printable(field(buf@, offset as int, SIZE as int)),
        r matches Ok(a) ==> a@ == bytes_to_chars(field(buf@, offset as int, SIZE as int))
            && a.printable(),
        r matches Err(e) ==> e is NonISO88591Value,
{
    let ghost bytes = field(buf@, offset as int, SIZE as int);
    let mut char_arr = [' ';SIZE];
    let mut i: usize = 0;
    while i < SIZE
        invariant
            i <= SIZE,
            offset + SIZE <= buf.len(),
            bytes == field(buf@, offset as int, SIZE as int),
            forall|j: int| 0 <= j < i ==> is_printable(#[trigger] bytes[j]),
            forall|j: int| 0 <= j < i ==> char_arr@[j] == bytes_to_chars(bytes)[j],
        decreases SIZE - i,
    {
        let b = buf[offset + i];
        assert(b == bytes[i as int]);
        if b < 0x20 || b > 0x7F {
            proof {
                assert(is_first_unprintable(bytes, i as int));
                lemma_first_unprintable(bytes, i as int);
            }
            return Err(DataFeedError::NonISO88591Value(char_of_byte(b)));
        }
        char_arr[i] = char_of_byte(b);
        i += 1;
    }
    proof {
        lemma_array_of::<SIZE>(bytes_to_chars(bytes));
        assert(char_arr@ =~= bytes_to_chars(bytes));
        assert(char_arr =~= array_of::<SIZE>(bytes_to_chars(bytes)));
        Alpha::<SIZE>::lemma_encode_decode(bytes);
    }
    Ok(Alpha { value: char_arr })
}

} // verus!
