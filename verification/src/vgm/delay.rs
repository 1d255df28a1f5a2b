//! VGM delay command generation.
//!
//! A duration in samples is encoded as a sequence of VGM wait commands,
//! chosen greedily to minimize bytes.  The ranges around 735 and 882
//! absorb a single sample-rate off-by-one of 1/60 or 1/50 second into a
//! one-byte command instead of a three-byte one.

use vstd::prelude::*;

verus! {

/// Wait n samples (16-bit): `0x61 lo hi`.
pub const WAIT_NNNN: u8 = 0x61;

/// Wait 735 samples (1/60 second at 44100 Hz).
pub const WAIT_60TH: u8 = 0x62;

/// Wait 882 samples (1/50 second at 44100 Hz).
pub const WAIT_50TH: u8 = 0x63;

/// End of sound data.
pub const END: u8 = 0x66;

/// Wait n+1 samples (n = 0-15, command 0x70-0x7F).
pub const WAIT_N_BASE: u8 = 0x70;

/// The byte sequence the encoder produces for a duration of `d` samples.
pub open spec fn delay_encoding(d: nat) -> Seq<u8>
    decreases d,
{
    if d == 0 {
        Seq::empty()
    } else if (735 <= d && d <= 751) || d == 1470 || d == 1617 || (65536 <= d && d <= 67152) {
        seq![WAIT_60TH] + delay_encoding((d - 735) as nat)
    } else if (882 <= d && d <= 898) || d == 1764 || (67153 <= d && d <= 67299) {
        seq![WAIT_50TH] + delay_encoding((d - 882) as nat)
    } else if d <= 16 {
        seq![(WAIT_N_BASE + d - 1) as u8]
    } else if d <= 32 {
        seq![(WAIT_N_BASE + 15) as u8] + delay_encoding((d - 16) as nat)
    } else if d <= 65535 {
        seq![WAIT_NNNN, (d % 256) as u8, (d / 256) as u8]
    } else {
        seq![WAIT_NNNN, 0xFFu8, 0xFFu8] + delay_encoding((d - 65535) as nat)
    }
}

/// Does the byte sequence consist solely of well-formed VGM wait commands?
pub open spec fn is_wait_stream(s: Seq<u8>) -> bool
    decreases s.len(),
{
    if s.len() == 0 {
        true
    } else if s[0] == WAIT_60TH || s[0] == WAIT_50TH
        || (WAIT_N_BASE <= s[0] && s[0] < WAIT_N_BASE + 16) {
        is_wait_stream(s.drop_first())
    } else if s[0] == WAIT_NNNN {
        s.len() >= 3 && is_wait_stream(s.skip(3))
    } else {
        false
    }
}

/// Total number of samples a well-formed wait stream asks for, by the VGM
/// delay opcode semantics.
pub open spec fn wait_sum(s: Seq<u8>) -> int
    decreases s.len(),
{
    if s.len() == 0 {
        0
    } else if s[0] == WAIT_60TH {
        735 + wait_sum(s.drop_first())
    } else if s[0] == WAIT_50TH {
        882 + wait_sum(s.drop_first())
    } else if WAIT_N_BASE <= s[0] && s[0] < WAIT_N_BASE + 16 {
        (s[0] - WAIT_N_BASE + 1) + wait_sum(s.drop_first())
    } else if s[0] == WAIT_NNNN && s.len() >= 3 {
        s[1] + 256 * s[2] + wait_sum(s.skip(3))
    } else {
        0
    }
}

/// Appending to a well-formed wait stream: well-formedness of the whole is
/// that of the suffix, and the decoded waits add.
pub proof fn lemma_wait_stream_concat(a: Seq<u8>, b: Seq<u8>)
    requires
        is_wait_stream(a),
    ensures
        is_wait_stream(a + b) == is_wait_stream(b),
        wait_sum(a + b) == wait_sum(a) + wait_sum(b),
    decreases a.len(),
{
    if a.len() == 0 {
        assert(a + b =~= b);
    } else if a[0] == WAIT_NNNN {
        assert((a + b).skip(3) =~= a.skip(3) + b);
        lemma_wait_stream_concat(a.skip(3), b);
    } else {
        assert((a + b).drop_first() =~= a.drop_first() + b);
        lemma_wait_stream_concat(a.drop_first(), b);
    }
}

/// Law: for every duration `d`, the encoded byte sequence is a well-formed
/// wait stream and decodes, per the VGM delay opcode semantics, to a wait
/// of exactly `d` samples.
pub proof fn lemma_delay_exact(d: nat)
    ensures
        is_wait_stream(delay_encoding(d)),
        wait_sum(delay_encoding(d)) == d,
    decreases d,
{
    if d == 0 {
    } else if (735 <= d && d <= 751) || d == 1470 || d == 1617 || (65536 <= d && d <= 67152) {
        lemma_delay_exact((d - 735) as nat);
        assert(seq![WAIT_60TH].len() == 1);
        assert(seq![WAIT_60TH][0] == WAIT_60TH);
        assert(is_wait_stream(Seq::<u8>::empty()));
        assert(wait_sum(Seq::<u8>::empty()) == 0);
        assert(seq![WAIT_60TH].drop_first() =~= Seq::<u8>::empty());
        assert(is_wait_stream(seq![WAIT_60TH]));
        assert(wait_sum(seq![WAIT_60TH]) == 735);
        lemma_wait_stream_concat(seq![WAIT_60TH], delay_encoding((d - 735) as nat));
    } else if (882 <= d && d <= 898) || d == 1764 || (67153 <= d && d <= 67299) {
        lemma_delay_exact((d - 882) as nat);
        assert(is_wait_stream(Seq::<u8>::empty()));
        assert(wait_sum(Seq::<u8>::empty()) == 0);
        assert(seq![WAIT_50TH].drop_first() =~= Seq::<u8>::empty());
        assert(is_wait_stream(seq![WAIT_50TH]));
        assert(wait_sum(seq![WAIT_50TH]) == 882);
        lemma_wait_stream_concat(seq![WAIT_50TH], delay_encoding((d - 882) as nat));
    } else if d <= 16 {
        assert(is_wait_stream(Seq::<u8>::empty()));
        assert(wait_sum(Seq::<u8>::empty()) == 0);
        let s = seq![(WAIT_N_BASE + d - 1) as u8];
        assert(s.drop_first() =~= Seq::<u8>::empty());
    } else if d <= 32 {
        lemma_delay_exact((d - 16) as nat);
        assert(is_wait_stream(Seq::<u8>::empty()));
        assert(wait_sum(Seq::<u8>::empty()) == 0);
        assert(seq![(WAIT_N_BASE + 15) as u8].drop_first() =~= Seq::<u8>::empty());
        assert(is_wait_stream(seq![(WAIT_N_BASE + 15) as u8]));
        assert(wait_sum(seq![(WAIT_N_BASE + 15) as u8]) == 16);
        lemma_wait_stream_concat(seq![(WAIT_N_BASE + 15) as u8], delay_encoding((d - 16) as nat));
    } else if d <= 65535 {
        assert(is_wait_stream(Seq::<u8>::empty()));
        assert(wait_sum(Seq::<u8>::empty()) == 0);
        let s = seq![WAIT_NNNN, (d % 256) as u8, (d / 256) as u8];
        assert(s.skip(3) =~= Seq::<u8>::empty());
        assert(d % 256 + 256 * (d / 256) == d) by (nonlinear_arith);
    } else {
        lemma_delay_exact((d - 65535) as nat);
        assert(is_wait_stream(Seq::<u8>::empty()));
        assert(wait_sum(Seq::<u8>::empty()) == 0);
        assert(seq![WAIT_NNNN, 0xFFu8, 0xFFu8].skip(3) =~= Seq::<u8>::empty());
        assert(is_wait_stream(seq![WAIT_NNNN, 0xFFu8, 0xFFu8]));
        assert(wait_sum(seq![WAIT_NNNN, 0xFFu8, 0xFFu8]) == 65535);
        lemma_wait_stream_concat(seq![WAIT_NNNN, 0xFFu8, 0xFFu8], delay_encoding((d - 65535) as nat));
    }
}

/// Generate the delay commands that wait exactly `duration` samples.
pub fn generate_delay(duration: u64) -> (r: Vec<u8>)
    ensures
        r@ == delay_encoding(duration as nat),
        is_wait_stream(r@),
        wait_sum(r@) == duration,
{
    let mut commands: Vec<u8> = Vec::new();
    let mut d: u64 = duration;

    while d > 0
        invariant
            commands@ + delay_encoding(d as nat) == delay_encoding(duration as nat),
        decreases d,
    {
        let ghost pre = commands@;
        let ghost rest = delay_encoding(d as nat);
        if (735 <= d && d <= 751) || d == 1470 || d == 1617 || (65536 <= d && d <= 67152) {
            commands.push(WAIT_60TH);
            d = d - 735;
            proof {
                assert(pre + rest =~= commands@ + delay_encoding(d as nat));
            }
        } else if (882 <= d && d <= 898) || d == 1764 || (67153 <= d && d <= 67299) {
            commands.push(WAIT_50TH);
            d = d - 882;
            proof {
                assert(pre + rest =~= commands@ + delay_encoding(d as nat));
            }
        } else if d <= 16 {
            commands.push((WAIT_N_BASE as u64 + d - 1) as u8);
            d = 0;
            proof {
                assert(pre + rest =~= commands@ + delay_encoding(0nat));
            }
        } else if d <= 32 {
            commands.push(WAIT_N_BASE + 15);
            d = d - 16;
            proof {
                assert(pre + rest =~= commands@ + delay_encoding(d as nat));
            }
        } else if d <= 65535 {
            commands.push(WAIT_NNNN);
            commands.push((d % 256) as u8);
            commands.push((d / 256) as u8);
            d = 0;
            proof {
                assert(pre + rest =~= commands@ + delay_encoding(0nat));
            }
        } else {
            commands.push(WAIT_NNNN);
            commands.push(0xFF);
            commands.push(0xFF);
            d = d - 65535;
            proof {
                assert(pre + rest =~= commands@ + delay_encoding(d as nat));
            }
        }
    }
    proof {
        assert(commands@ + delay_encoding(0nat) =~= commands@);
        lemma_delay_exact(duration as nat);
    }
    commands
}

} // verus!
