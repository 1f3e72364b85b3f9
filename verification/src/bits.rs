//! Bit-sequence utilities for the circuits.
//!
//! The hash circuit works on bits taken least-significant-first from each
//! byte, while the hash gadget consumes bits in the opposite order within
//! each byte; the reversal here mediates between the two conventions.

use vstd::prelude::*;
use bellman::gadgets::boolean::Boolean;

verus! {

/// Bit `i` of a byte, least significant bit first.
pub open spec fn bit_at(b: u8, i: int) -> bool {
    (b >> (i as u8)) & 1u8 == 1u8
}

/// The bits of a byte sequence, least-significant bit first within each byte.
pub open spec fn bits_le_of_bytes(bytes: Seq<u8>) -> Seq<bool> {
    Seq::new(bytes.len() * 8, |i: int| bit_at(bytes[i / 8], i % 8))
}

/// The sequence with the bit order reversed inside every group of eight.
pub open spec fn byte_reversed<T>(bits: Seq<T>) -> Seq<T> {
    Seq::new(bits.len(), |i: int| bits[8 * (i / 8) + 7 - (i % 8)])
}

/// The natural number whose little-endian bits are the given sequence.
pub open spec fn le_bits_value(bits: Seq<bool>) -> nat
    decreases bits.len(),
{
    if bits.len() == 0 {
        0
    } else {
        (if bits[0] { 1nat } else { 0nat }) + 2 * le_bits_value(bits.drop_first())
    }
}

/// Splits bytes into bits, least-significant bit first within each byte.
pub fn bytes_to_bits_le(bytes: &Vec<u8>) -> (r: Vec<bool>)
    requires
        bytes@.len() * 8 <= usize::MAX,
    ensures
        r@ == bits_le_of_bytes(bytes@),
{
    let mut out: Vec<bool> = Vec::new();
    let n = bytes.len() * 8;
    let mut i: usize = 0;
    while i < n
        invariant
            n == bytes@.len() * 8,
            i <= n,
            out@.len() == i,
            forall|k: int| 0 <= k < i ==> out@[k] == bit_at(bytes@[k / 8], k % 8),
        decreases n - i,
    {
        proof {
            assert(i / 8 < bytes@.len());
        }
        let b = bytes[i / 8];
        out.push((b >> ((i % 8) as u8)) & 1u8 == 1u8);
        i = i + 1;
    }
    proof {
        assert(out@ =~= bits_le_of_bytes(bytes@));
    }
    out
}

/// Reassembles bits, least-significant first within each byte, into bytes.
pub fn bits_le_to_bytes(bits: &Vec<bool>) -> (r: Vec<u8>)
    requires
        bits@.len() % 8 == 0,
    ensures
        r@.len() * 8 == bits@.len(),
        bits_le_of_bytes(r@) == bits@,
{
    let mut out: Vec<u8> = Vec::new();
    let n = bits.len() / 8;
    let mut k: usize = 0;
    while k < n
        invariant
            bits@.len() == n * 8,
            bits@.len() <= usize::MAX,
            k <= n,
            out@.len() == k,
            forall|k2: int, m: int|
                0 <= k2 < k && 0 <= m < 8 ==> bit_at(out@[k2], m) == bits@[8 * k2 + m],
        decreases n - k,
    {
        let mut b: u8 = 0;
        let mut j: usize = 0;
        proof {
            assert(forall|m: u8| m < 8 ==> (0u8 >> m) & 1u8 == 0u8) by (bit_vector);
        }
        while j < 8
            invariant
                j <= 8,
                k < n,
                bits@.len() == n * 8,
                bits@.len() <= usize::MAX,
                forall|m: int| 0 <= m < j ==> bit_at(b, m) == bits@[8 * k + m],
                forall|m: u8| j <= m < 8 ==> (b >> m) & 1u8 == 0u8,
            decreases 8 - j,
        {
            proof {
                assert(8 * (k as int) + (j as int) < (n as int) * 8);
            }
            if bits[8 * k + j] {
                let old_b = b;
                let jj = j as u8;
                b = b | (1u8 << jj);
                proof {
                    assert(forall|m: u8|
                        m < 8 && jj < 8 ==> (old_b | (1u8 << jj)) >> m & 1u8 == (
                        if m == jj {
                            1u8
                        } else {
                            (old_b >> m) & 1u8
                        })) by (bit_vector);
                    assert forall|m: int| 0 <= m < 8 implies bit_at(b, m) == (
                    if m == jj as int {
                        true
                    } else {
                        bit_at(old_b, m)
                    }) by {
                        let mu = m as u8;
                        assert((old_b | (1u8 << jj)) >> mu & 1u8 == (
                        if mu == jj {
                            1u8
                        } else {
                            (old_b >> mu) & 1u8
                        }));
                    }
                    assert forall|m: u8| j + 1 <= m < 8 implies (b >> m) & 1u8 == 0u8 by {
                        assert(bit_at(b, m as int) == bit_at(old_b, m as int));
                        assert((old_b >> m) & 1u8 == 0u8);
                        assert((b >> m) & 1u8 == (old_b >> m) & 1u8) by {
                            assert(!bit_at(old_b, m as int));
                            assert(forall|x: u8, mm: u8| ((x >> mm) & 1u8 == 1u8) || ((x >> mm)
                                & 1u8 == 0u8)) by (bit_vector);
                        };
                    }
                }
            }
            j = j + 1;
        }
        out.push(b);
        k = k + 1;
    }
    proof {
        assert(bits_le_of_bytes(out@) =~= bits@);
    }
    out
}

#[verifier::external_type_specification]
#[verifier::external_body]
pub struct ExBoolean(Boolean);

/// Relies on the Clone impl of the boolean gadget wire, which copies the
/// wire: the clone is the same value.
#[verifier::external_body]
fn boolean_clone(b: &Boolean) -> (r: Boolean)
    ensures
        r == *b,
{
    b.clone()
}

/// Reverses the bit order inside every group of eight wires. Applied before
/// and after the hash gadget, it converts between least-significant-first
/// and most-significant-first bit order within each byte.
pub fn reverse_bits_in_bytes(bits: &Vec<Boolean>) -> (r: Vec<Boolean>)
    requires
        bits@.len() % 8 == 0,
    ensures
        r@ == byte_reversed(bits@),
{
    let mut out: Vec<Boolean> = Vec::new();
    let n = bits.len();
    let mut i: usize = 0;
    while i < n
        invariant
            n == bits@.len(),
            n % 8 == 0,
            i <= n,
            out@.len() == i,
            forall|k: int| 0 <= k < i ==> out@[k] == bits@[8 * (k / 8) + 7 - (k % 8)],
        decreases n - i,
    {
        proof {
            assert(8 * ((i as int) / 8) + 7 < n as int) by {
                assert((i as int) / 8 <= (n as int) / 8 - 1);
            };
        }
        let group = i - (i % 8);
        let j = group + (7 - (i % 8));
        proof {
            assert(group == 8 * ((i as int) / 8));
        }
        out.push(boolean_clone(&bits[j]));
        i = i + 1;
    }
    proof {
        assert(out@ =~= byte_reversed(bits@));
    }
    out
}

/// Law: reversing the bit order within every byte twice gives back the
/// original sequence, so the corrections on either side of the double hash
/// cancel exactly.
pub proof fn lemma_double_reversal_identity<T>(bits: Seq<T>)
    requires
        bits.len() % 8 == 0,
    ensures
        byte_reversed(byte_reversed(bits)) == bits,
{
    let twice = byte_reversed(byte_reversed(bits));
    assert forall|i: int| 0 <= i < bits.len() implies twice[i] == bits[i] by {
        let j = 8 * (i / 8) + 7 - (i % 8);
        assert(0 <= j < bits.len());
        assert(j / 8 == i / 8);
        assert(j % 8 == 7 - i % 8);
        assert(8 * (j / 8) + 7 - (j % 8) == i);
    }
    assert(twice =~= bits);
}

} // verus!
