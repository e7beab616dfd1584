//! Protocol decoding: 41 measured pulse pairs in, a validated reading out.
//!
//! The decision threshold is the mean high-pulse duration across the 40
//! data-bit slots (the initial handshake pair is skipped). Deriving the
//! threshold from the sample itself, instead of a fixed constant, makes the
//! decoder tolerate platform-dependent polling speed: only the relative
//! durations matter. A bit is set when its high duration reaches the
//! threshold; the 40 bits are packed MSB-first into five bytes
//! `[humidity high, humidity low, temperature high (7 bits plus sign),
//! temperature low, checksum]`.

use vstd::prelude::*;

use crate::pulse::{PulseSample, MAX_COUNT};
use crate::reading::{Reading, ReadingError};

verus! {

/// Sum of the high durations of the first `n` data bits. Data bit `k`
/// occupies slots `2 + 2k` (low) and `3 + 2k` (high).
pub open spec fn spec_high_sum(s: Seq<u32>, n: int) -> int
    decreases n,
{
    if n <= 0 {
        0
    } else {
        spec_high_sum(s, n - 1) + s[3 + 2 * (n - 1)]
    }
}

/// The decision threshold: the mean high-pulse duration over the 40 data
/// bits.
pub open spec fn spec_threshold(s: Seq<u32>) -> int {
    spec_high_sum(s, 40) / 40
}

/// Data bit `k` is set when its high duration reaches the threshold.
pub open spec fn spec_bit(s: Seq<u32>, k: int) -> bool {
    s[3 + 2 * k] >= spec_threshold(s)
}

/// Value of byte `j` after its first `n` bits, packed MSB-first.
pub open spec fn spec_byte_prefix(s: Seq<u32>, j: int, n: int) -> int
    decreases n,
{
    if n <= 0 {
        0
    } else {
        2 * spec_byte_prefix(s, j, n - 1) + (if spec_bit(s, 8 * j + (n - 1)) {
            1int
        } else {
            0int
        })
    }
}

/// Byte `j` of the five-byte payload.
pub open spec fn spec_byte(s: Seq<u32>, j: int) -> int {
    spec_byte_prefix(s, j, 8)
}

/// The checksum byte must equal the low eight bits of the sum of the four
/// data bytes.
pub open spec fn spec_checksum_ok(s: Seq<u32>) -> bool {
    spec_byte(s, 4) == (spec_byte(s, 0) + spec_byte(s, 1) + spec_byte(s, 2) + spec_byte(s, 3))
        % 256
}

/// Humidity in tenths of a percent: the first two bytes, big-endian.
pub open spec fn spec_humidity_tenths(s: Seq<u32>) -> int {
    256 * spec_byte(s, 0) + spec_byte(s, 1)
}

/// Temperature in tenths of a degree Celsius: bytes two and three hold the
/// magnitude (the top bit of byte two is the sign).
pub open spec fn spec_temperature_tenths(s: Seq<u32>) -> int {
    let magnitude = 256 * (spec_byte(s, 2) % 128) + spec_byte(s, 3);
    if spec_byte(s, 2) >= 128 {
        -magnitude
    } else {
        magnitude
    }
}

/// What decoding a pulse train yields: the reference reading when the
/// checksum is consistent, a checksum failure otherwise — never unvalidated
/// data.
pub open spec fn spec_decode(s: Seq<u32>) -> Result<Reading, ReadingError> {
    if spec_checksum_ok(s) {
        Ok(
            (Reading {
                temperature_tenths: spec_temperature_tenths(s) as i32,
                humidity_tenths: spec_humidity_tenths(s) as u16,
            }),
        )
    } else {
        Err(ReadingError::Checksum)
    }
}

/// `spec_byte_prefix` packs `n` bits, so it is bounded by the `n`-bit range.
proof fn lemma_byte_prefix_lt(s: Seq<u32>, j: int, n: int)
    requires
        0 <= n,
    ensures
        0 <= spec_byte_prefix(s, j, n) < spec_pow2(n),
    decreases n,
{
    if n > 0 {
        lemma_byte_prefix_lt(s, j, n - 1);
    }
}

/// Powers of two, for bounding packed bit prefixes.
spec fn spec_pow2(n: int) -> int
    decreases n,
{
    if n <= 0 {
        1
    } else {
        2 * spec_pow2(n - 1)
    }
}

proof fn lemma_pow2_positive(n: int)
    ensures
        spec_pow2(n) >= 1,
    decreases n,
{
    if n > 0 {
        lemma_pow2_positive(n - 1);
    }
}

proof fn lemma_pow2_mono(a: int, b: int)
    requires
        a <= b,
    ensures
        spec_pow2(a) <= spec_pow2(b),
    decreases b - a,
{
    if a < b {
        lemma_pow2_mono(a, b - 1);
        lemma_pow2_positive(b - 1);
    }
}

proof fn lemma_pow2_eight()
    ensures
        spec_pow2(7) == 128,
        spec_pow2(8) == 256,
{
    reveal_with_fuel(spec_pow2, 10);
}

/// Decode one pulse train into a reading.
///
/// For any sample with a consistent checksum the result is `Ok` and matches
/// the reference formula exactly; for any sample whose checksum byte differs
/// from the low eight bits of the data-byte sum the result is
/// `Err(Checksum)` and no reading is produced.
pub fn decode(sample: &PulseSample) -> (r: Result<Reading, ReadingError>)
    requires
        sample.wf(),
    ensures
        r == spec_decode(sample@),
{
    let ghost s = sample@;

    // Mean high-pulse duration over the 40 data bits.
    let mut sum: u32 = 0;
    let mut k: usize = 0;
    while k < 40
        invariant
            sample.wf(),
            s == sample@,
            k <= 40,
            sum == spec_high_sum(s, k as int),
            sum <= MAX_COUNT * k,
        decreases 40 - k,
    {
        sum = sum + sample.get(3 + 2 * k);
        k += 1;
    }
    let threshold: u32 = sum / 40;
    assert(threshold == spec_threshold(s));

    // Pack the 40 bits MSB-first into five bytes.
    let mut data: Vec<u8> = Vec::new();
    let mut j: usize = 0;
    while j < 5
        invariant
            sample.wf(),
            s == sample@,
            threshold == spec_threshold(s),
            j <= 5,
            data@.len() == j,
            forall|b: int| 0 <= b < j ==> data@[b] as int == spec_byte(s, b),
        decreases 5 - j,
    {
        let mut acc: u8 = 0;
        let mut n: usize = 0;
        while n < 8
            invariant
                sample.wf(),
                s == sample@,
                threshold == spec_threshold(s),
                j < 5,
                n <= 8,
                acc as int == spec_byte_prefix(s, j as int, n as int),
            decreases 8 - n,
        {
            let slot: usize = 3 + 2 * (8 * j + n);
            let bit: u8 = if sample.get(slot) >= threshold {
                1
            } else {
                0
            };
            proof {
                lemma_byte_prefix_lt(s, j as int, n as int);
                lemma_pow2_mono(n as int, 7);
                lemma_pow2_eight();
            }
            acc = 2 * acc + bit;
            n += 1;
        }
        data.push(acc);
        j += 1;
    }

    // Validate the checksum before anything is interpreted.
    let byte_sum: u32 = data[0] as u32 + data[1] as u32 + data[2] as u32 + data[3] as u32;
    if data[4] as u32 != byte_sum % 256 {
        return Err(ReadingError::Checksum);
    }

    let humidity: u16 = (data[0] as u16) * 256 + (data[1] as u16);

    let sign_byte: u8 = data[2];
    proof {
        assert(sign_byte & 0x7f == sign_byte % 128) by (bit_vector);
        assert((sign_byte & 0x80 != 0) == (sign_byte >= 128)) by (bit_vector);
    }
    let magnitude: u16 = ((sign_byte & 0x7f) as u16) * 256 + (data[3] as u16);
    let temperature: i32 = if sign_byte & 0x80 != 0 {
        -(magnitude as i32)
    } else {
        magnitude as i32
    };

    Ok(Reading { temperature_tenths: temperature, humidity_tenths: humidity })
}

} // verus!
