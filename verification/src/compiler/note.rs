//! Per-chip note tables.
//!
//! Frequencies are held in fixed point: note ratios in 32 fractional
//! bits, the base pitch in 16 fractional bits.  Only the integer part of
//! each product feeds the hardware table, so the table is computed in
//! plain integers.

use vstd::prelude::*;
use vstd::arithmetic::power2::{pow2, lemma_pow2_pos, lemma_pow2_unfold, lemma_pow2_adds};
use vstd::arithmetic::div_mod::lemma_div_denominator;

verus! {

/// Number of entries in a note table.
pub const NOTE_TABLE_SIZE: usize = 32;

/// Fixed-point one for note ratios (32 fractional bits).
pub const RATIO_ONE: u64 = 0x100000000;

/// Fixed-point one for the base pitch (16 fractional bits).
pub const BASE_ONE: u64 = 0x10000;

/// Upper bound on stored ratios and base pitch, so products fit.
pub const FREQ_LIMIT: u64 = 0x10000000000;

/// The integer frequency in Hz for a ratio (32 fractional bits) and a
/// base pitch (16 fractional bits).
pub open spec fn spec_freq_hz(ratio: u64, base: u64) -> int {
    (ratio * base) / 0x1000000000000
}

/// The unnormalized table entry: period-based chips (negative divisor)
/// divide a scaled clock by the frequency; frequency-based chips multiply,
/// truncated to 64 bits as the hardware arithmetic does.
pub open spec fn spec_raw_value(clock_div: int, f: int) -> int {
    let q = if clock_div < 0 {
        -clock_div
    } else {
        clock_div
    };
    if clock_div < 0 {
        (q * 0x1000000) / (if f < 1 {
            1
        } else {
            f
        })
    } else {
        (f * (q * 0x400000)) % 0x10000000000000000
    }
}

/// Calculated note values for one chip.
#[derive(Debug, Clone)]
pub struct NoteTable {
    /// Note values: a period or a frequency, depending on the chip.
    pub values: Vec<i64>,
}

impl NoteTable {
    /// Well-formed: exactly 32 nonnegative entries.
    pub open spec fn wf(&self) -> bool {
        &&& self.values@.len() == NOTE_TABLE_SIZE
        &&& forall|i: int| 0 <= i < NOTE_TABLE_SIZE ==> 0 <= #[trigger] self.values@[i]
    }

    /// An all-zero table.
    pub fn new() -> (r: NoteTable)
        ensures
            r.wf(),
            forall|i: int| 0 <= i < NOTE_TABLE_SIZE ==> #[trigger] r.values@[i] == 0,
    {
        let mut values: Vec<i64> = Vec::new();
        let mut i: usize = 0;
        while i < NOTE_TABLE_SIZE
            invariant
                i <= NOTE_TABLE_SIZE,
                values@.len() == i,
                forall|j: int| 0 <= j < i ==> #[trigger] values@[j] == 0,
            decreases NOTE_TABLE_SIZE - i,
        {
            values.push(0);
            i = i + 1;
        }
        NoteTable { values }
    }

    /// Calculate the note table for a chip.
    ///
    /// Every raw entry is right-shifted by the same smallest amount that
    /// makes each entry fit in `|note_bits|` bits.
    #[verifier::rlimit(100)]
    pub fn calculate(clock_div: i32, note_bits: i32, note_freq: &Vec<u64>, base_freq: u64) -> (r:
        NoteTable)
        requires
            note_freq@.len() == NOTE_TABLE_SIZE,
            -64 < note_bits < 64,
            forall|i: int| 0 <= i < NOTE_TABLE_SIZE ==> #[trigger] note_freq@[i] < FREQ_LIMIT,
            base_freq < FREQ_LIMIT,
        ensures
            r.wf(),
            clock_div == 0 ==> forall|i: int| 0 <= i < NOTE_TABLE_SIZE ==> #[trigger] r.values@[i]
                == 0,
            clock_div != 0 ==> exists|k: nat|
                {
                    &&& #[trigger] pow2(k) >= 1
                    &&& ({
                    let bits = if note_bits < 0 {
                        -(note_bits as int)
                    } else {
                        note_bits as int
                    };
                    &&& forall|i: int| 0 <= i < NOTE_TABLE_SIZE ==> #[trigger] r.values@[i]
                        == spec_raw_value(
                        clock_div as int,
                        spec_freq_hz(note_freq@[i], base_freq),
                    ) / pow2(k) as int
                    &&& forall|i: int| 0 <= i < NOTE_TABLE_SIZE ==> #[trigger] r.values@[i] < pow2(
                        bits as nat,
                    ) as int
                    &&& (k > 0 ==> exists|i: int|
                        0 <= i < NOTE_TABLE_SIZE && #[trigger] spec_raw_value(
                            clock_div as int,
                            spec_freq_hz(note_freq@[i], base_freq),
                        ) / pow2((k - 1) as nat) as int >= pow2(bits as nat) as int)
                    })
                },
    {
        let mut table = NoteTable::new();

        if clock_div == 0 {
            return table;
        }

        let bits: i32 = if note_bits < 0 {
            -note_bits
        } else {
            note_bits
        };
        let is_period = clock_div < 0;
        let q: u64 = if clock_div < 0 {
            (-(clock_div as i64)) as u64
        } else {
            clock_div as u64
        };
        let limit: u64 = 1u64 << (bits as u64);
        proof {
            vstd::arithmetic::power2::lemma2_to64();
            vstd::arithmetic::power2::lemma2_to64_rest();
            lemma_pow2_pos(bits as nat);
            if bits < 63 {
                vstd::arithmetic::power2::lemma_pow2_strictly_increases(bits as nat, 63);
            }
            vstd::bits::lemma_u64_shl_is_mul(1u64, bits as u64);
            assert(limit == pow2(bits as nat));
        }

        let mut u: Vec<u64> = Vec::new();
        let mut i: usize = 0;
        while i < NOTE_TABLE_SIZE
            invariant
                i <= NOTE_TABLE_SIZE,
                u@.len() == i,
                note_freq@.len() == NOTE_TABLE_SIZE,
                forall|j: int| 0 <= j < NOTE_TABLE_SIZE ==> #[trigger] note_freq@[j] < FREQ_LIMIT,
                base_freq < FREQ_LIMIT,
                clock_div != 0,
                is_period == (clock_div < 0),
                q == (if clock_div < 0 { -(clock_div as int) } else { clock_div as int }),
                forall|j: int| 0 <= j < i ==> #[trigger] u@[j] == spec_raw_value(
                    clock_div as int,
                    spec_freq_hz(note_freq@[j], base_freq),
                ),
            decreases NOTE_TABLE_SIZE - i,
        {
            proof {
                assert((note_freq@[i as int] as int) * (base_freq as int)
                    < 0x100000000000000000000) by (nonlinear_arith)
                    requires note_freq@[i as int] < 0x10000000000 && base_freq < 0x10000000000;
            }
            let prod: u128 = (note_freq[i] as u128) * (base_freq as u128);
            let f: u64 = (prod / 0x1000000000000) as u64;
            proof {
                assert(f == spec_freq_hz(note_freq@[i as int], base_freq));
            }
            let v: u64 = if is_period {
                let denom: u64 = if f < 1 {
                    1
                } else {
                    f
                };
                (q * 0x1000000) / denom
            } else {
                let qs: u64 = q * 0x400000;
                proof {
                    assert((f as int) * (qs as int) < 0x100000000000000000000000000000000)
                        by (nonlinear_arith)
                        requires f < 0x10000000000000000 && qs < 0x10000000000000000;
                }
                let prod2: u128 = (f as u128) * (qs as u128);
                let w = (prod2 % 0x10000000000000000) as u64;
                proof {
                    assert(prod2 == (f as int) * (qs as int));
                }
                w
            };
            proof {
                assert(v == spec_raw_value(clock_div as int, f as int));
            }
            u.push(v);
            i = i + 1;
        }

        normalize(&mut u, limit);

        proof {
            if bits < 63 {
                vstd::arithmetic::power2::lemma_pow2_strictly_increases(bits as nat, 63);
            }
            vstd::arithmetic::power2::lemma2_to64_rest();
            assert(limit <= 0x8000000000000000);
        }
        let mut out: Vec<i64> = Vec::new();
        let mut i2: usize = 0;
        while i2 < NOTE_TABLE_SIZE
            invariant
                u@.len() == NOTE_TABLE_SIZE,
                i2 <= NOTE_TABLE_SIZE,
                out@.len() == i2,
                limit == pow2(bits as nat),
                limit <= 0x8000000000000000,
                forall|j: int| 0 <= j < NOTE_TABLE_SIZE ==> #[trigger] u@[j] < limit,
                forall|j: int| 0 <= j < i2 ==> #[trigger] out@[j] == u@[j] && 0 <= out@[j] < limit,
            decreases NOTE_TABLE_SIZE - i2,
        {
            out.push(u[i2] as i64);
            i2 = i2 + 1;
        }
        table.values = out;
        table
    }

    /// The hardware pitch value for a note index at an octave: the table
    /// entry shifted by the distance from the chip's reference octave, in
    /// the direction the chip's pitch register expects.  Out-of-range
    /// notes and shifts yield zero.
    pub fn get(&self, note: i32, octave: i32, basic_octave: i32, clock_div: i32, note_bits: i32)
        -> (r: i64)
        requires
            self.wf(),
        ensures
            r == spec_note_get(
                self.values@,
                note as int,
                octave as int,
                basic_octave as int,
                clock_div as int,
                note_bits as int,
            ),
    {
        if note < 0 || note >= 32 {
            return 0;
        }
        let value = self.values[note as usize];
        if note_bits < 0 {
            value
        } else {
            let shift: i64 = if clock_div < 0 {
                (octave as i64) - (basic_octave as i64)
            } else {
                (basic_octave as i64) - (octave as i64)
            };
            if 0 <= shift && shift < 64 {
                let uv: u64 = value as u64;
                let shifted: u64 = uv >> (shift as u64);
                proof {
                    vstd::bits::lemma_u64_shr_is_div(uv, shift as u64);
                    lemma_pow2_pos(shift as nat);
                    assert(shifted == value as int / pow2(shift as nat) as int);
                    assert(shifted <= uv) by {
                        vstd::arithmetic::div_mod::lemma_div_is_ordered_by_denominator(
                            uv as int,
                            1,
                            pow2(shift as nat) as int,
                        );
                    }
                }
                shifted as i64
            } else {
                0
            }
        }
    }
}

/// The pitch value `get` returns, as a function of the table contents.
pub open spec fn spec_note_get(
    values: Seq<i64>,
    note: int,
    octave: int,
    basic_octave: int,
    clock_div: int,
    note_bits: int,
) -> int {
    if note < 0 || note >= 32 || values.len() != 32 {
        0
    } else if note_bits < 0 {
        values[note] as int
    } else {
        let shift = if clock_div < 0 {
            octave - basic_octave
        } else {
            basic_octave - octave
        };
        if 0 <= shift < 64 {
            values[note] as int / pow2(shift as nat) as int
        } else {
            0
        }
    }
}

/// Right-shift every entry by the same smallest amount that brings each
/// below `limit`.
#[verifier::rlimit(100)]
fn normalize(u: &mut Vec<u64>, limit: u64)
    requires
        limit >= 1,
        old(u)@.len() == NOTE_TABLE_SIZE,
    ensures
        final(u)@.len() == NOTE_TABLE_SIZE,
        exists|k: nat|
            {
                &&& #[trigger] pow2(k) >= 1
                &&& forall|j: int| 0 <= j < NOTE_TABLE_SIZE ==> #[trigger] final(u)@[j] == old(u)@[
                    j
                ] as int / pow2(k) as int
                &&& (k > 0 ==> exists|j: int| 0 <= j < NOTE_TABLE_SIZE && #[trigger] old(u)@[
                    j
                ] as int / pow2((k - 1) as nat) as int >= limit)
            },
        forall|j: int| 0 <= j < NOTE_TABLE_SIZE ==> #[trigger] final(u)@[j] < limit,
{
    let ghost raws = u@;
    let ghost mut k: nat = 0;
    proof {
        vstd::arithmetic::power2::lemma2_to64();
        assert forall|j: int| 0 <= j < NOTE_TABLE_SIZE implies #[trigger] u@[j] == raws[j] as int
            / pow2(0) as int by {}
    }
    while any_at_or_over(u, limit)
        invariant
            raws == old(u)@,
            limit >= 1,
            u@.len() == NOTE_TABLE_SIZE,
            raws.len() == NOTE_TABLE_SIZE,
            k <= 64,
            forall|j: int| 0 <= j < NOTE_TABLE_SIZE ==> #[trigger] u@[j] == raws[j] as int / pow2(
                k,
            ) as int,
            k > 0 ==> exists|j: int| 0 <= j < NOTE_TABLE_SIZE && #[trigger] raws[j] as int / pow2(
                (k - 1) as nat,
            ) as int >= limit,
        decreases 64 - k,
    {
        proof {
            let w = choose|j: int| 0 <= j < NOTE_TABLE_SIZE && #[trigger] u@[j] >= limit;
            assert(raws[w] as int / pow2(k) as int >= limit >= 1);
            lemma_pow2_pos(k);
            assert(raws[w] as int >= pow2(k) as int) by (nonlinear_arith)
                requires raws[w] as int / pow2(k) as int >= 1 && pow2(k) as int >= 1;
            if k >= 64 {
                assert(pow2(64) <= pow2(k)) by {
                    if k > 64 {
                        vstd::arithmetic::power2::lemma_pow2_strictly_increases(64, k);
                    }
                }
                assert(raws[w] < 0x10000000000000000);
                vstd::arithmetic::power2::lemma2_to64_rest();
                assert(false);
            }
        }
        let mut j: usize = 0;
        while j < u.len()
            invariant
                u@.len() == NOTE_TABLE_SIZE,
                j <= NOTE_TABLE_SIZE,
                raws.len() == NOTE_TABLE_SIZE,
                k < 64,
                forall|a: int| j <= a < NOTE_TABLE_SIZE ==> #[trigger] u@[a] == raws[a] as int
                    / pow2(k) as int,
                forall|a: int| 0 <= a < j ==> #[trigger] u@[a] == raws[a] as int / pow2(
                    (k + 1) as nat,
                ) as int,
            decreases NOTE_TABLE_SIZE - j,
        {
            let halved = u[j] / 2;
            proof {
                lemma_pow2_pos(k);
                lemma_div_denominator(raws[j as int] as int, pow2(k) as int, 2);
                lemma_pow2_adds(k, 1);
                assert(pow2(1) == 2) by {
                    vstd::arithmetic::power2::lemma2_to64();
                }
                assert(halved == raws[j as int] as int / pow2((k + 1) as nat) as int);
            }
            u.set(j, halved);
            j = j + 1;
        }
        proof {
            k = k + 1;
        }
    }
    proof {
        lemma_pow2_pos(k);
        assert(pow2(k) >= 1);
        assert(forall|j: int| 0 <= j < NOTE_TABLE_SIZE ==> #[trigger] u@[j] == raws[j] as int
            / pow2(k) as int);
        assert(k > 0 ==> exists|j: int| 0 <= j < NOTE_TABLE_SIZE && #[trigger] raws[j] as int
            / pow2((k - 1) as nat) as int >= limit);
    }
}

/// Whether any entry is at or over the limit.
fn any_at_or_over(u: &Vec<u64>, limit: u64) -> (r: bool)
    ensures
        r == exists|j: int| 0 <= j < u@.len() && #[trigger] u@[j] >= limit,
{
    let mut i: usize = 0;
    while i < u.len()
        invariant
            i <= u@.len(),
            forall|j: int| 0 <= j < i ==> #[trigger] u@[j] < limit,
        decreases u@.len() - i,
    {
        if u[i] >= limit {
            return true;
        }
        i = i + 1;
    }
    false
}

} // verus!
