//! Normalization of an oracle randomness buffer into six winning digits.
//!
//! The first sixteen bytes of the 32-byte buffer are read as an unsigned
//! 128-bit little-endian integer, reduced modulo the pool's result bound,
//! and the leading six decimal digits of the reduced value (zero-padded on
//! the left to six digits) become the winning combination.

use vstd::prelude::*;

verus! {

/// The value of `bytes` read as a base-256 integer, least significant byte
/// first.
pub open spec fn le_bytes_value(bytes: Seq<u8>) -> nat
    decreases bytes.len(),
{
    if bytes.len() == 0 {
        0
    } else {
        bytes[0] as nat + 256 * le_bytes_value(bytes.drop_first())
    }
}

/// 256 raised to the power `n`.
pub open spec fn pow256(n: nat) -> nat
    decreases n,
{
    if n == 0 {
        1
    } else {
        256 * pow256((n - 1) as nat)
    }
}

/// Reads the first sixteen bytes of `buffer` as an unsigned little-endian
/// 128-bit integer.
pub fn le_bytes_to_u128(buffer: &[u8; 32]) -> (r: u128)
    ensures
        r == le_bytes_value(buffer@.subrange(0, 16)),
{
    let mut r: u128 = 0;
    let mut j: usize = 16;
    while j > 0
        invariant
            j <= 16,
            r == le_bytes_value(buffer@.subrange(j as int, 16)),
            r < pow256((16 - j) as nat),
        decreases j,
    {
        proof {
            reveal_with_fuel(pow256, 18);
            let tail = buffer@.subrange(j as int, 16);
            let whole = buffer@.subrange(j - 1, 16);
            assert(whole.drop_first() =~= tail);
        }
        j = j - 1;
        r = r * 256 + (buffer[j] as u128);
    }
    proof {
        assert(buffer@.subrange(0, 16) =~= buffer@.subrange(0int, 16));
    }
    r
}

/// The draw scalar derived from a randomness buffer: the first sixteen
/// bytes as a little-endian integer, reduced modulo `max_result`.
pub open spec fn normalized_value(buffer: Seq<u8>, max_result: u64) -> u64
    recommends
        max_result >= 1,
{
    (le_bytes_value(buffer.subrange(0, 16)) % (max_result as nat)) as u64
}

/// Reduces the randomness buffer to a scalar below `max_result`.
pub fn normalize_buffer(buffer: &[u8; 32], max_result: u64) -> (r: u64)
    requires
        max_result >= 1,
    ensures
        r == normalized_value(buffer@, max_result),
        r < max_result,
{
    let wide = le_bytes_to_u128(buffer);
    let reduced = wide % (max_result as u128);
    reduced as u64
}

/// The leading six decimal digits of `n`, as a number below one million:
/// `n` itself if it already has at most six digits, otherwise `n` with
/// trailing digits dropped until six remain.
pub open spec fn leading_six(n: nat) -> nat
    decreases n,
{
    if n < 1000000 {
        n
    } else {
        leading_six(n / 10)
    }
}

/// The six winning digits of a draw scalar, most significant first, each
/// between 0 and 9.
pub open spec fn winning_digits(n: u64) -> Seq<u8> {
    let t = leading_six(n as nat);
    seq![
        (t / 100000 % 10) as u8,
        (t / 10000 % 10) as u8,
        (t / 1000 % 10) as u8,
        (t / 100 % 10) as u8,
        (t / 10 % 10) as u8,
        (t % 10) as u8,
    ]
}

/// Decomposes a draw scalar into its six winning digits.
pub fn scalar_to_digits(n: u64) -> (r: [u8; 6])
    ensures
        r@ == winning_digits(n),
        forall|i: int| 0 <= i < 6 ==> r@[i] <= 9,
{
    let mut v: u64 = n;
    while v >= 1000000
        invariant
            leading_six(v as nat) == leading_six(n as nat),
        decreases v,
    {
        v = v / 10;
    }
    let r: [u8; 6] = [
        (v / 100000 % 10) as u8,
        (v / 10000 % 10) as u8,
        (v / 1000 % 10) as u8,
        (v / 100 % 10) as u8,
        (v / 10 % 10) as u8,
        (v % 10) as u8,
    ];
    assert(r@ =~= winning_digits(n));
    r
}

/// The scalar a six-digit combination stands for, most significant digit
/// first.
pub open spec fn combined_value(d: Seq<u8>) -> int
    recommends
        d.len() == 6,
{
    d[0] * 100000 + d[1] * 10000 + d[2] * 1000 + d[3] * 100 + d[4] * 10 + d[5]
}

/// Recombines six digits into the scalar they were decomposed from.
pub fn digits_to_scalar(d: &[u8; 6]) -> (r: u64)
    requires
        forall|i: int| 0 <= i < 6 ==> d@[i] <= 9,
    ensures
        r == combined_value(d@),
        r < 1000000,
{
    (d[0] as u64) * 100000 + (d[1] as u64) * 10000 + (d[2] as u64) * 1000
        + (d[3] as u64) * 100 + (d[4] as u64) * 10 + (d[5] as u64)
}

/// Decomposing a scalar below one million into its six digits and
/// recombining them reconstructs the same scalar.  (For larger scalars the
/// decomposition keeps only the leading six digits, so recombination is
/// lossy there.)
pub proof fn lemma_digits_round_trip(n: u64)
    requires
        n < 1000000,
    ensures
        combined_value(winning_digits(n)) == n,
{
    let x = n as int;
    vstd::arithmetic::div_mod::lemma_breakdown(x, 100000, 10);
    vstd::arithmetic::div_mod::lemma_breakdown(x, 10000, 10);
    vstd::arithmetic::div_mod::lemma_breakdown(x, 1000, 10);
    vstd::arithmetic::div_mod::lemma_breakdown(x, 100, 10);
    vstd::arithmetic::div_mod::lemma_breakdown(x, 10, 10);
    vstd::arithmetic::div_mod::lemma_small_mod(n as nat, 1000000);
}

} // verus!
