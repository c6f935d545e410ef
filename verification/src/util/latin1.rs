//! The mathematical model of text on the wire.
//!
//! An alpha field is written one byte per character. A character may be
//! constructed if it is an ISO-8859-1 character (code point at most `0xFF`);
//! a byte may be decoded if it is printable ASCII (`0x20` to `0x7F`). The two
//! sets differ on purpose: construction is the laxer of the two.

use vstd::prelude::*;

verus! {

/// Whether `c` has a code point that one byte can hold.
pub open spec fn is_latin1(c: char) -> bool {
    c as int <= 0xFF
}

/// Whether `b` may be decoded as a character of an alpha field.
pub open spec fn is_printable(b: u8) -> bool {
    0x20 <= b <= 0x7F
}

/// Whether every character of `s` is an ISO-8859-1 character.
pub open spec fn all_latin1(s: Seq<char>) -> bool {
    forall|i: int| 0 <= i < s.len() ==> is_latin1(#[trigger] s[i])
}

/// Whether every byte of `s` is printable ASCII.
pub open spec fn all_printable(s: Seq<u8>) -> bool {
    forall|i: int| 0 <= i < s.len() ==> is_printable(#[trigger] s[i])
}

/// Whether `i` is the place of the first character of `s` that is no
/// ISO-8859-1 character.
pub open spec fn is_first_non_latin1(s: Seq<char>, i: int) -> bool {
    &&& 0 <= i < s.len()
    &&& !is_latin1(s[i])
    &&& forall|j: int| 0 <= j < i ==> is_latin1(#[trigger] s[j])
}

/// Whether `i` is the place of the first byte of `s` that is not printable.
pub open spec fn is_first_unprintable(s: Seq<u8>, i: int) -> bool {
    &&& 0 <= i < s.len()
    &&& !is_printable(s[i])
    &&& forall|j: int| 0 <= j < i ==> is_printable(#[trigger] s[j])
}

/// The first character of `s` that is no ISO-8859-1 character, where there is
/// one.
pub open spec fn first_non_latin1(s: Seq<char>) -> char {
    s[choose|i: int| is_first_non_latin1(s, i)]
}

/// The first byte of `s` that is not printable, where there is one.
pub open spec fn first_unprintable(s: Seq<u8>) -> u8 {
    s[choose|i: int| is_first_unprintable(s, i)]
}

/// The byte that stands for `c` on the wire: its code point, cut to one byte.
pub open spec fn char_to_byte(c: char) -> u8 {
    (c as int % 256) as u8
}

/// The wire image of a piece of text.
pub open spec fn chars_to_bytes(s: Seq<char>) -> Seq<u8> {
    Seq::new(s.len(), |i: int| char_to_byte(s[i]))
}

/// The text that a run of bytes stands for.
pub open spec fn bytes_to_chars(s: Seq<u8>) -> Seq<char> {
    Seq::new(s.len(), |i: int| s[i] as char)
}

/// Whether `c` is a printable ASCII character, so that the byte that stands
/// for it can be decoded again.
pub open spec fn is_printable_char(c: char) -> bool {
    0x20 <= c as int <= 0x7F
}

/// Whether every character of `s` is printable ASCII.
pub open spec fn all_printable_chars(s: Seq<char>) -> bool {
    forall|i: int| 0 <= i < s.len() ==> is_printable_char(#[trigger] s[i])
}

/// The array of `N` characters that holds `s`.
pub open spec fn array_of<const N: usize>(s: Seq<char>) -> [char; N] {
    choose|a: [char; N]| a@ == s
}

proof fn lemma_array_with_prefix<const N: usize>(s: Seq<char>, k: nat) -> (a: [char; N])
    requires
        s.len() == N,
        k <= N,
    ensures
        forall|i: int| 0 <= i < k ==> a@[i] == s[i],
    decreases k,
{
    if k == 0 {
        vstd::array::spec_array_fill_for_copy_type::<char, N>(' ')
    } else {
        let shorter = lemma_array_with_prefix::<N>(s, (k - 1) as nat);
        vstd::array::spec_array_update(shorter, k - 1, s[k - 1])
    }
}

/// For every text of `N` characters there is an array that holds it, and
/// `array_of` is that array.
pub proof fn lemma_array_of<const N: usize>(s: Seq<char>)
    requires
        s.len() == N,
    ensures
        array_of::<N>(s)@ == s,
{
    let a = lemma_array_with_prefix::<N>(s, N as nat);
    assert(a@ =~= s);
}

/// An array is the array that holds its own content.
pub proof fn lemma_array_of_view<const N: usize>(a: [char; N])
    ensures
        array_of::<N>(a@) == a,
{
    lemma_array_of::<N>(a@);
    assert(array_of::<N>(a@) =~= a);
}

/// If `i` is the place of the first offending character, the first offending
/// character is the one at `i`; and a text has such a place exactly if not
/// all of it is ISO-8859-1.
pub proof fn lemma_first_non_latin1(s: Seq<char>, i: int)
    requires
        is_first_non_latin1(s, i),
    ensures
        first_non_latin1(s) == s[i],
        !all_latin1(s),
{
    let j = choose|j: int| is_first_non_latin1(s, j);
    assert(is_first_non_latin1(s, j));
    if j < i {
        assert(is_latin1(s[j]));
    }
    if i < j {
        assert(is_latin1(s[i]));
    }
}

/// If `i` is the place of the first unprintable byte, the first unprintable
/// byte is the one at `i`.
pub proof fn lemma_first_unprintable(s: Seq<u8>, i: int)
    requires
        is_first_unprintable(s, i),
    ensures
        first_unprintable(s) == s[i],
        !all_printable(s),
{
    let j = choose|j: int| is_first_unprintable(s, j);
    assert(is_first_unprintable(s, j));
    if j < i {
        assert(is_printable(s[j]));
    }
    if i < j {
        assert(is_printable(s[i]));
    }
}

/// Printable text survives the wire: it is ISO-8859-1 text, its image is
/// printable, and the image read back is the text.
pub proof fn lemma_printable_round_trip(s: Seq<char>)
    requires
        all_printable_chars(s),
    ensures
        all_latin1(s),
        all_printable(chars_to_bytes(s)),
        bytes_to_chars(chars_to_bytes(s)) == s,
{
    assert forall|i: int| 0 <= i < s.len() implies is_latin1(#[trigger] s[i]) by {
        assert(is_printable_char(s[i]));
    }
    let bytes = chars_to_bytes(s);
    assert forall|i: int| 0 <= i < bytes.len() implies is_printable(#[trigger] bytes[i]) by {
        assert(is_printable_char(s[i]));
    }
    assert forall|i: int| 0 <= i < s.len() implies bytes_to_chars(bytes)[i] == s[i] by {
        assert(is_printable_char(s[i]));
    }
    assert(bytes_to_chars(bytes) =~= s);
}

/// Printable bytes survive decoding: the text they stand for is printable,
/// and its image is the bytes.
pub proof fn lemma_printable_bytes_round_trip(s: Seq<u8>)
    requires
        all_printable(s),
    ensures
        all_printable_chars(bytes_to_chars(s)),
        chars_to_bytes(bytes_to_chars(s)) == s,
{
    let text = bytes_to_chars(s);
    assert forall|i: int| 0 <= i < text.len() implies is_printable_char(#[trigger] text[i]) by {
        assert(is_printable(s[i]));
    }
    assert forall|i: int| 0 <= i < s.len() implies chars_to_bytes(text)[i] == s[i] by {
        assert(is_printable(s[i]));
    }
    assert(chars_to_bytes(text) =~= s);
}

/// Tells whether a character has a code point that one byte can hold.
pub fn fits_one_byte(c: char) -> (r: bool)
    ensures
        r == is_latin1(c),
{
    c as u32 <= 0xFF
}

/// The byte that stands for a character on the wire.
pub fn byte_of_char(c: char) -> (r: u8)
    ensures
        r == char_to_byte(c),
{
    (c as u32 % 256) as u8
}

/// The character that a byte stands for.
pub fn char_of_byte(b: u8) -> (r: char)
    ensures
        r == b as char,
{
    b as char
}

} // verus!
