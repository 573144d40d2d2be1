//! The Internet checksum: one's complement of the 16-bit one's-complement
//! sum of an even-length byte buffer, read as big-endian words.
//!
//! Shared by the IPv4 header checksum and the UDP/ICMPv6 pseudo-header
//! checksums.

use vstd::prelude::*;
use vstd::arithmetic::div_mod::{
    lemma_fundamental_div_mod, lemma_mod_multiples_vanish, lemma_small_mod,
};

verus! {

/// The value of a big-endian 16-bit word with bytes `hi`, `lo`.
pub open spec fn word16(hi: u8, lo: u8) -> int {
    hi * 256 + lo
}

/// Sum of the 16-bit big-endian words of `b` starting at byte index `i`
/// (a trailing odd byte is ignored; callers only use even lengths).
pub open spec fn sum_words_from(b: Seq<u8>, i: int) -> int
    decreases b.len() - i,
{
    if 0 <= i && i + 2 <= b.len() {
        word16(b[i], b[i + 1]) + sum_words_from(b, i + 2)
    } else {
        0
    }
}

/// Sum of all 16-bit big-endian words of `b`.
pub open spec fn sum_words(b: Seq<u8>) -> int {
    sum_words_from(b, 0)
}

/// Folds the carry bits above bit 16 back into the low 16 bits until none
/// remain.
pub open spec fn fold16(s: int) -> int
    decreases s,
{
    if s > 0xFFFF {
        fold16(s % 0x10000 + s / 0x10000)
    } else {
        s
    }
}

/// The Internet checksum of `b`: the one's complement of the folded word
/// sum, as a value in `[0, 0xFFFF]`.
pub open spec fn checksum_of(b: Seq<u8>) -> int {
    0xFFFF - fold16(sum_words(b))
}

/// High byte of a 16-bit checksum value.
pub open spec fn hi8(c: int) -> u8 {
    (c / 256) as u8
}

/// Low byte of a 16-bit checksum value.
pub open spec fn lo8(c: int) -> u8 {
    (c % 256) as u8
}

pub proof fn lemma_sum_from_nonneg(b: Seq<u8>, i: int)
    ensures
        sum_words_from(b, i) >= 0,
    decreases b.len() - i,
{
    if 0 <= i && i + 2 <= b.len() {
        lemma_sum_from_nonneg(b, i + 2);
    }
}

pub proof fn lemma_sum_from_upper(b: Seq<u8>, i: int)
    requires
        0 <= i <= b.len(),
    ensures
        2 * sum_words_from(b, i) <= 0xFFFF * (b.len() - i),
    decreases b.len() - i,
{
    if i + 2 <= b.len() {
        lemma_sum_from_upper(b, i + 2);
    }
}

/// `fold16` keeps the value in the same congruence class modulo `0xFFFF`,
/// lands in `[0, 0xFFFF]`, and maps positive inputs to positive outputs.
pub proof fn lemma_fold16_props(s: int)
    requires
        s >= 0,
    ensures
        0 <= fold16(s) <= 0xFFFF,
        fold16(s) % 0xFFFF == s % 0xFFFF,
        s > 0 ==> fold16(s) > 0,
    decreases s,
{
    if s > 0xFFFF {
        let q = s / 0x10000;
        let r = s % 0x10000;
        lemma_fundamental_div_mod(s, 0x10000);
        let n = r + q;
        assert(s == n + q * 0xFFFF);
        lemma_mod_multiples_vanish(q, n, 0xFFFF);
        assert(s % 0xFFFF == n % 0xFFFF);
        lemma_fold16_props(n);
    }
}

proof fn lemma_sum_from_agree(b1: Seq<u8>, b2: Seq<u8>, i: int)
    requires
        b1.len() == b2.len(),
        forall|j: int| i <= j < b1.len() ==> b1[j] == b2[j],
    ensures
        sum_words_from(b1, i) == sum_words_from(b2, i),
    decreases b1.len() - i,
{
    if 0 <= i && i + 2 <= b1.len() {
        lemma_sum_from_agree(b1, b2, i + 2);
    }
}

proof fn lemma_sum_from_update(b: Seq<u8>, i: int, k: int, x: u8)
    requires
        b.len() % 2 == 0,
        0 <= i,
        i % 2 == 0,
        i <= k < b.len(),
    ensures
        sum_words_from(b.update(k, x), i) == sum_words_from(b, i) + (if k % 2 == 0 {
            256 * (x - b[k])
        } else {
            x - b[k]
        }),
    decreases b.len() - i,
{
    let b2 = b.update(k, x);
    if i + 2 <= b.len() {
        if k < i + 2 {
            // The change lands in the word at `i`; the rest is unchanged.
            lemma_sum_from_agree(b, b2, i + 2);
            if k == i {
                assert(b2[i] == x && b2[i + 1] == b[i + 1]);
                assert(word16(b2[i], b2[i + 1]) == word16(b[i], b[i + 1]) + 256 * (x - b[k]));
            } else {
                assert(k == i + 1);
                assert(b2[i] == b[i] && b2[i + 1] == x);
                assert(word16(b2[i], b2[i + 1]) == word16(b[i], b[i + 1]) + (x - b[k]));
            }
        } else {
            lemma_sum_from_update(b, i + 2, k, x);
        }
    } else {
        // i and b.len() are both even, so b.len() < i + 2 means
        // b.len() <= i, contradicting i <= k < b.len().
        assert(false);
    }
}

/// Changing the byte at `k` shifts the word sum by the weighted byte
/// difference.
pub proof fn lemma_sum_update(b: Seq<u8>, k: int, x: u8)
    requires
        b.len() % 2 == 0,
        0 <= k < b.len(),
    ensures
        sum_words(b.update(k, x)) == sum_words(b) + (if k % 2 == 0 {
            256 * (x - b[k])
        } else {
            x - b[k]
        }),
{
    lemma_sum_from_update(b, 0, k, x);
}

/// Congruent values in `[0, 0xFFFF]` that are both positive or both zero
/// are equal; used to pin folded sums down.
proof fn lemma_mod_diff_zero(a: int, bb: int)
    requires
        a >= 0,
        bb >= 0,
        a % 0xFFFF == bb % 0xFFFF,
        a < bb,
    ensures
        bb - a >= 0xFFFF,
{
    lemma_fundamental_div_mod(a, 0xFFFF);
    lemma_fundamental_div_mod(bb, 0xFFFF);
    let qa = a / 0xFFFF;
    let qb = bb / 0xFFFF;
    assert(bb - a == (qb - qa) * 0xFFFF) by (nonlinear_arith)
        requires
            a == 0xFFFF * qa + a % 0xFFFF,
            bb == 0xFFFF * qb + bb % 0xFFFF,
            a % 0xFFFF == bb % 0xFFFF,
    ;
    assert(qb - qa >= 1) by (nonlinear_arith)
        requires
            bb - a == (qb - qa) * 0xFFFF,
            bb - a > 0,
    ;
    assert(bb - a >= 0xFFFF) by (nonlinear_arith)
        requires
            bb - a == (qb - qa) * 0xFFFF,
            qb - qa >= 1,
    ;
}

/// Writing the computed checksum into a zeroed two-byte field makes the
/// checksum of the whole buffer, field included, verify to zero.
pub proof fn lemma_checksum_fill(b: Seq<u8>, k: int)
    requires
        b.len() % 2 == 0,
        0 <= k,
        k % 2 == 0,
        k + 1 < b.len(),
        b[k] == 0,
        b[k + 1] == 0,
    ensures
        checksum_of(b.update(k, hi8(checksum_of(b))).update(k + 1, lo8(checksum_of(b)))) == 0,
{
    let s = sum_words(b);
    lemma_sum_from_nonneg(b, 0);
    lemma_fold16_props(s);
    let c = checksum_of(b);
    assert(0 <= c <= 0xFFFF);
    lemma_fundamental_div_mod(c, 256);
    assert(0 <= c / 256 < 256 && 0 <= c % 256 < 256);
    let hi = hi8(c);
    let lo = lo8(c);
    assert(hi == c / 256 && lo == c % 256);
    let b1 = b.update(k, hi);
    let b2 = b1.update(k + 1, lo);
    lemma_sum_update(b, k, hi);
    assert(b1[k + 1] == 0);
    lemma_sum_update(b1, k + 1, lo);
    assert(sum_words(b2) == s + 256 * (hi as int) + (lo as int));
    assert(sum_words(b2) == s + c);

    // s + c is positive and divisible by 0xFFFF, so it folds to 0xFFFF.
    let f = fold16(s);
    assert(c == 0xFFFF - f);
    lemma_fold16_props(s + c);
    // (s + 0xFFFF - f) % 0xFFFF == (s - f) % 0xFFFF == 0
    lemma_mod_multiples_vanish(1, s - f, 0xFFFF);
    assert((s + c) % 0xFFFF == (s - f) % 0xFFFF);
    lemma_fundamental_div_mod(s, 0xFFFF);
    let q = s / 0xFFFF;
    assert(s - f == q * 0xFFFF + (s % 0xFFFF - f));
    assert(f % 0xFFFF == s % 0xFFFF);
    if f == 0xFFFF {
        lemma_small_mod(0, 0xFFFF);
        assert(s % 0xFFFF == 0);
        lemma_mod_multiples_vanish(q - 1, 0, 0xFFFF);
        assert((s - f) % 0xFFFF == 0);
    } else {
        lemma_small_mod(f as nat, 0xFFFF);
        assert(f % 0xFFFF == f);
        assert(s % 0xFFFF == f);
        lemma_mod_multiples_vanish(q, 0, 0xFFFF);
        assert((s - f) % 0xFFFF == 0);
    }
    let f2 = fold16(s + c);
    assert(f2 % 0xFFFF == 0);
    assert(0 <= f2 <= 0xFFFF);
    if s == 0 {
        assert(f == 0);
        assert(c == 0xFFFF);
        assert(s + c > 0);
    } else {
        assert(s + c > 0);
    }
    assert(f2 > 0);
    if f2 < 0xFFFF {
        lemma_small_mod(f2 as nat, 0xFFFF);
        assert(f2 == 0);
    }
    assert(f2 == 0xFFFF);
    assert(checksum_of(b2) == 0);
}

/// Flipping any single bit of the buffer changes its checksum: the Internet
/// checksum detects every one-bit error.
pub proof fn lemma_checksum_flip(b: Seq<u8>, k: int, t: u8)
    requires
        b.len() % 2 == 0,
        0 <= k < b.len(),
        t < 8,
    ensures
        b.update(k, (b[k] ^ (1u8 << t)) as u8) != b,
        checksum_of(b.update(k, (b[k] ^ (1u8 << t)) as u8)) != checksum_of(b),
{
    let x = b[k];
    let y = (x ^ (1u8 << t)) as u8;
    assert(y != x && (y - x == (1u8 << t) || x - y == (1u8 << t)) && 1 <= (1u8 << t) <= 128)
        by (bit_vector)
        requires
            y == (x ^ (1u8 << t)) as u8,
            t < 8,
    ;
    let b2 = b.update(k, y);
    assert(b2[k] == y && b[k] == x && y != x);
    lemma_sum_update(b, k, y);
    let s = sum_words(b);
    let s2 = sum_words(b2);
    let d = s2 - s;
    assert(d == if k % 2 == 0 { 256 * (y - x) } else { y - x });
    assert(d != 0 && -0xFFFF < d < 0xFFFF);
    lemma_sum_from_nonneg(b, 0);
    lemma_sum_from_nonneg(b2, 0);
    lemma_fold16_props(s);
    lemma_fold16_props(s2);
    if fold16(s) == fold16(s2) {
        assert(s % 0xFFFF == s2 % 0xFFFF);
        if s < s2 {
            lemma_mod_diff_zero(s, s2);
        } else {
            lemma_mod_diff_zero(s2, s);
        }
        assert(false);
    }
    assert(checksum_of(b2) != checksum_of(b));
}

/// Computes the Internet checksum of `data`: sums all 16-bit big-endian
/// words into a 32-bit accumulator, folds the carries back in, and returns
/// the one's complement of the low 16 bits.
pub fn compute_checksum(data: &[u8]) -> (r: u16)
    requires
        data@.len() % 2 == 0,
        data@.len() <= 131070,
    ensures
        r == checksum_of(data@),
{
    let n = data.len();
    let mut sum: u32 = 0;
    let mut i: usize = 0;
    proof {
        lemma_sum_from_upper(data@, 0);
        lemma_sum_from_nonneg(data@, 0);
    }
    while i < n
        invariant
            n == data@.len(),
            n % 2 == 0,
            i % 2 == 0,
            i <= n,
            sum + sum_words_from(data@, i as int) == sum_words(data@),
            2 * sum_words(data@) <= 0xFFFF * 131070,
            sum_words(data@) >= 0,
        decreases n - i,
    {
        proof {
            lemma_sum_from_nonneg(data@, i + 2);
        }
        let word: u32 = (data[i] as u32) * 256 + (data[i + 1] as u32);
        sum = sum + word;
        i = i + 2;
    }
    proof {
        lemma_fold16_props(sum as int);
    }
    while sum > 0xFFFF
        invariant
            fold16(sum as int) == fold16(sum_words(data@)),
        decreases sum,
    {
        let lo = sum & 0xFFFF;
        let hi = sum >> 16;
        proof {
            assert(lo == sum % 0x10000 && hi == sum / 0x10000 && lo + hi < sum) by (bit_vector)
                requires
                    lo == sum & 0xFFFF,
                    hi == sum >> 16u32,
                    sum > 0xFFFF,
            ;
        }
        sum = lo + hi;
    }
    let s16: u16 = sum as u16;
    let r: u16 = !s16;
    proof {
        assert(fold16(sum as int) == sum as int);
        assert(r == 0xFFFF - s16) by (bit_vector)
            requires
                r == !s16,
        ;
    }
    r
}

} // verus!
