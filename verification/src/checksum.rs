//! The internet checksum (RFC 1071) used by ICMP echo messages.
//!
//! The checksum of a message is the one's complement of the one's-complement
//! sum of its 16-bit big-endian words. The word that holds the checksum field
//! itself is skipped (treated as zero), so the value can be computed first
//! and stored into the packet afterwards.

use vstd::prelude::*;

verus! {

/// The 16-bit big-endian word of `data` at word index `w`. A trailing odd
/// byte counts as the high byte of a final word whose low byte is zero;
/// word indices past the data are zero.
pub open spec fn word_at(data: Seq<u8>, w: int) -> int {
    if 0 <= w && 2 * w + 1 < data.len() {
        data[2 * w] * 256 + data[2 * w + 1]
    } else if 0 <= w && 2 * w < data.len() {
        data[2 * w] * 256
    } else {
        0
    }
}

/// How many 16-bit words `data` spans; a trailing odd byte counts as one.
pub open spec fn word_count(data: Seq<u8>) -> int {
    (data.len() as int + 1) / 2
}

/// The plain sum of the first `n` big-endian words of `data`, with the word
/// at index `skip` left out.
pub open spec fn word_sum(data: Seq<u8>, skip: int, n: int) -> int
    decreases n,
{
    if n <= 0 {
        0
    } else {
        word_sum(data, skip, n - 1) + if n - 1 == skip {
            0
        } else {
            word_at(data, n - 1)
        }
    }
}

/// One's-complement folding: the carry above 16 bits is added back in until
/// the value fits in 16 bits.
pub open spec fn fold_carries(s: int) -> int
    decreases s,
{
    if s > 0xffff {
        fold_carries(s / 0x10000 + s % 0x10000)
    } else {
        s
    }
}

/// The internet checksum of `data` with the 16-bit word at word index `skip`
/// treated as zero.
pub open spec fn checksum_spec(data: Seq<u8>, skip: int) -> int {
    0xffff - fold_carries(word_sum(data, skip, word_count(data)))
}

/// The one's-complement total of a whole message, no word skipped: what a
/// receiver folds to check a message it got (an intact checksummed message
/// comes to 0xffff).
pub open spec fn folded_total(data: Seq<u8>) -> int {
    fold_carries(word_sum(data, -1, word_count(data)))
}

/// Every word lies in `[0, 0xffff]`, so the sum of the first `n` words is at
/// most `n * 0xffff`.
pub proof fn lemma_word_sum_bounds(data: Seq<u8>, skip: int, n: int)
    requires
        n >= 0,
    ensures
        0 <= word_sum(data, skip, n) <= n * 0xffff,
    decreases n,
{
    if n > 0 {
        lemma_word_sum_bounds(data, skip, n - 1);
    }
}

/// Folding stays within 16 bits, never grows the value, subtracts only
/// multiples of 0xffff (that is the one's-complement congruence), and
/// keeps a positive value positive.
pub proof fn lemma_fold_carries_properties(s: int)
    requires
        s >= 0,
    ensures
        0 <= fold_carries(s) <= 0xffff,
        fold_carries(s) <= s,
        (s - fold_carries(s)) % 0xffff == 0,
        s > 0 ==> fold_carries(s) > 0,
    decreases s,
{
    if s > 0xffff {
        let q = s / 0x10000;
        let r = s % 0x10000;
        vstd::arithmetic::div_mod::lemma_fundamental_div_mod(s, 0x10000);
        let s2 = q + r;
        lemma_fold_carries_properties(s2);
        assert(s - s2 == 0xffff * q);
        vstd::arithmetic::div_mod::lemma_mod_multiples_vanish(
            q,
            s2 - fold_carries(s2),
            0xffff,
        );
    }
}

/// A skip index outside the words changes nothing.
proof fn lemma_word_sum_skip_outside(data: Seq<u8>, skip: int, n: int)
    requires
        skip < 0 || skip >= n,
    ensures
        word_sum(data, skip, n) == word_sum(data, -1, n),
    decreases n,
{
    if n > 0 {
        lemma_word_sum_skip_outside(data, skip, n - 1);
    }
}

/// Summing every word equals summing with one word skipped, plus that
/// word.
pub proof fn lemma_word_sum_skip_difference(data: Seq<u8>, skip: int, n: int)
    requires
        0 <= skip < n,
    ensures
        word_sum(data, -1, n) == word_sum(data, skip, n) + word_at(data, skip),
    decreases n,
{
    if n > 0 {
        if n - 1 == skip {
            lemma_word_sum_skip_outside(data, skip, n - 1);
        } else {
            lemma_word_sum_skip_difference(data, skip, n - 1);
        }
    }
}

/// Computes the internet checksum of `data`, skipping the 16-bit word at
/// word index `skip` (the place where the checksum itself will live).
pub fn internet_checksum(data: &[u8], skip: usize) -> (c: u16)
    requires
        data@.len() <= 0xffff,
    ensures
        c == checksum_spec(data@, skip as int),
{
    let len: usize = data.len();
    let words: usize = (len + 1) / 2;
    let mut sum: u32 = 0;
    let mut w: usize = 0;
    while w < words
        invariant
            w <= words,
            len == data@.len(),
            len <= 0xffff,
            words == word_count(data@),
            sum == word_sum(data@, skip as int, w as int),
            sum <= w * 0xffff,
        decreases words - w,
    {
        if w != skip {
            let hi: u32 = data[2 * w] as u32;
            let lo: u32 = if 2 * w + 1 < len {
                data[2 * w + 1] as u32
            } else {
                0u32
            };
            sum = sum + hi * 256 + lo;
        }
        w = w + 1;
    }
    proof {
        lemma_word_sum_bounds(data@, skip as int, word_count(data@));
    }
    while sum > 0xffff
        invariant
            fold_carries(sum as int) == fold_carries(
                word_sum(data@, skip as int, word_count(data@)),
            ),
        decreases sum,
    {
        sum = sum / 0x10000 + sum % 0x10000;
    }
    (0xffff - sum) as u16
}

} // verus!
