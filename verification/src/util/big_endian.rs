//! The mathematical model of big-endian numbers on the wire.
//!
//! A numeric field of width `w` is the sequence of the `w` low-order base-256
//! digits of its value, most significant first. `be_bytes` writes that
//! sequence down, `be_value` reads it back, and the lemmas below show that the
//! two are inverse to each other on values that fit the width.

use vstd::arithmetic::div_mod::lemma_div_denominator;
use vstd::prelude::*;

verus! {

/// 256 raised to `n`: how many values `n` bytes can tell apart.
pub open spec fn pow256(n: nat) -> nat
    decreases n,
{
    if n == 0 {
        1
    } else {
        256 * pow256((n - 1) as nat)
    }
}

/// The number that `bytes` spell, most significant byte first.
pub open spec fn be_value(bytes: Seq<u8>) -> nat
    decreases bytes.len(),
{
    if bytes.len() == 0 {
        0
    } else {
        be_value(bytes.drop_last()) * 256 + bytes.last() as nat
    }
}

/// The `width` low-order base-256 digits of `value`, most significant first.
pub open spec fn be_bytes(value: nat, width: nat) -> Seq<u8> {
    Seq::new(width, |i: int| ((value / pow256((width - 1 - i) as nat)) % 256) as u8)
}

/// The unsigned 32-bit pattern of a signed 32-bit number in two's complement.
pub open spec fn twos_complement(value: i32) -> nat {
    if value >= 0 {
        value as nat
    } else {
        (value + 0x1_0000_0000) as nat
    }
}

/// The signed 32-bit number whose two's complement pattern is `bits`.
pub open spec fn from_twos_complement(bits: nat) -> i32 {
    if bits < 0x8000_0000 {
        bits as i32
    } else {
        (bits - 0x1_0000_0000) as i32
    }
}

/// `pow256` is never zero.
pub proof fn lemma_pow256_positive(n: nat)
    ensures
        pow256(n) > 0,
    decreases n,
{
    if n > 0 {
        lemma_pow256_positive((n - 1) as nat);
    }
}

/// `pow256` grows with its argument.
pub proof fn lemma_pow256_monotonic(m: nat, n: nat)
    requires
        m <= n,
    ensures
        pow256(m) <= pow256(n),
    decreases n,
{
    if m < n {
        lemma_pow256_monotonic(m, (n - 1) as nat);
        lemma_pow256_positive((n - 1) as nat);
    }
}

/// The values of `pow256` at the widths that the catalog uses.
pub proof fn lemma_pow256_values()
    ensures
        pow256(0) == 1,
        pow256(1) == 0x100,
        pow256(2) == 0x1_0000,
        pow256(4) == 0x1_0000_0000,
        pow256(8) == 0x1_0000_0000_0000_0000,
        pow256(12) == 0x1_0000_0000_0000_0000_0000_0000,
        pow256(15) == 0x100_0000_0000_0000_0000_0000_0000_0000,
        pow256(16) == 0x1_0000_0000_0000_0000_0000_0000_0000_0000,
{
    assert(pow256(0) == 1);
    assert(pow256(1) == 0x100);
    assert(pow256(2) == 0x1_0000);
    assert(pow256(3) == 0x100_0000);
    assert(pow256(4) == 0x1_0000_0000);
    assert(pow256(5) == 0x100_0000_0000);
    assert(pow256(6) == 0x1_0000_0000_0000);
    assert(pow256(7) == 0x100_0000_0000_0000);
    assert(pow256(8) == 0x1_0000_0000_0000_0000);
    assert(pow256(9) == 0x100_0000_0000_0000_0000);
    assert(pow256(10) == 0x1_0000_0000_0000_0000_0000);
    assert(pow256(11) == 0x100_0000_0000_0000_0000_0000);
    assert(pow256(12) == 0x1_0000_0000_0000_0000_0000_0000);
    assert(pow256(13) == 0x100_0000_0000_0000_0000_0000_0000);
    assert(pow256(14) == 0x1_0000_0000_0000_0000_0000_0000_0000);
    assert(pow256(15) == 0x100_0000_0000_0000_0000_0000_0000_0000);
    assert(pow256(16) == 0x1_0000_0000_0000_0000_0000_0000_0000_0000);
}

/// Dividing by `256^(k+1)` is dividing by 256 and then by `256^k`, in either
/// order.
pub proof fn lemma_div_pow256_step(value: nat, k: nat)
    ensures
        value / pow256(k + 1) == (value / 256) / pow256(k),
        value / pow256(k + 1) == (value / pow256(k)) / 256,
{
    lemma_pow256_positive(k);
    lemma_div_denominator(value as int, 256, pow256(k) as int);
    lemma_div_denominator(value as int, pow256(k) as int, 256);
    assert(pow256(k + 1) == 256 * pow256(k));
    assert(256 * pow256(k) == pow256(k) * 256) by (nonlinear_arith);
}

/// Reading one byte more multiplies what was read by 256 and adds the byte.
pub proof fn lemma_be_value_push(bytes: Seq<u8>, byte: u8)
    ensures
        be_value(bytes.push(byte)) == be_value(bytes) * 256 + byte as nat,
{
    assert(bytes.push(byte).drop_last() =~= bytes);
}

/// What `n` bytes spell is below `256^n`.
pub proof fn lemma_be_value_bound(bytes: Seq<u8>)
    ensures
        be_value(bytes) < pow256(bytes.len()),
    decreases bytes.len(),
{
    if bytes.len() > 0 {
        lemma_be_value_bound(bytes.drop_last());
    }
}

/// The digits of `value` without the last are the digits of `value / 256`.
pub proof fn lemma_be_bytes_drop_last(value: nat, width: nat)
    requires
        width > 0,
    ensures
        be_bytes(value, width).drop_last() == be_bytes(value / 256, (width - 1) as nat),
        be_bytes(value, width).last() as nat == value % 256,
{
    let front = be_bytes(value, width).drop_last();
    let other = be_bytes(value / 256, (width - 1) as nat);
    assert forall|i: int| 0 <= i < width - 1 implies front[i] == other[i] by {
        lemma_div_pow256_step(value, (width - 2 - i) as nat);
    }
    assert(front =~= other);
    assert(pow256(0) == 1);
    assert(be_bytes(value, width).last() == ((value / pow256(0)) % 256) as u8);
}

/// Writing a value that fits the width and reading the bytes back gives the
/// value.
pub proof fn lemma_be_value_of_be_bytes(value: nat, width: nat)
    requires
        value < pow256(width),
    ensures
        be_value(be_bytes(value, width)) == value,
    decreases width,
{
    if width > 0 {
        lemma_be_bytes_drop_last(value, width);
        lemma_be_value_of_be_bytes(value / 256, (width - 1) as nat);
    }
}

/// Reading bytes and writing the value back in the same width gives the
/// bytes.
pub proof fn lemma_be_bytes_of_be_value(bytes: Seq<u8>)
    ensures
        be_bytes(be_value(bytes), bytes.len()) == bytes,
    decreases bytes.len(),
{
    if bytes.len() > 0 {
        let value = be_value(bytes);
        let front = bytes.drop_last();
        lemma_be_bytes_of_be_value(front);
        lemma_be_bytes_drop_last(value, bytes.len());
        assert(value / 256 == be_value(front));
        assert(value % 256 == bytes.last() as nat);
        assert(be_bytes(value, bytes.len()) =~= be_bytes(value, bytes.len()).drop_last().push(
            be_bytes(value, bytes.len()).last(),
        ));
        assert(bytes =~= front.push(bytes.last()));
    }
    assert(be_bytes(be_value(bytes), bytes.len()) =~= bytes);
}

/// A signed 32-bit number and its two's complement pattern determine each
/// other, and the pattern fits four bytes.
pub proof fn lemma_twos_complement_inverse(value: i32)
    ensures
        twos_complement(value) < pow256(4),
        from_twos_complement(twos_complement(value)) == value,
{
    lemma_pow256_values();
}

/// A pattern of four bytes is the two's complement of the number it stands
/// for.
pub proof fn lemma_from_twos_complement_inverse(bits: nat)
    requires
        bits < pow256(4),
    ensures
        twos_complement(from_twos_complement(bits)) == bits,
{
    lemma_pow256_values();
}

} // verus!
