//! Channel definitions and per-channel compile state.

use vstd::prelude::*;
use crate::text::str_chars;

verus! {

/// One MML channel: the chip it is bound to, its role and voice indices,
/// its accumulated MML text, and the timing the compiler records.
#[derive(Debug, Clone)]
pub struct Channel {
    /// Associated chip name.
    pub chip_name: String,
    /// Index of the chip instance in the compiler's chip list.
    pub chip_idx: usize,
    /// Chip sub-index (functional role within the chip family).
    pub chip_sub: usize,
    /// Voice sub-index within the role.
    pub chan_sub: usize,
    /// MML text for this channel, as characters.
    pub text: Vec<char>,
    /// Loop point in samples (-1 if no loop).
    pub loop_point: i64,
    /// Total duration in samples.
    pub duration: i64,
}

impl Channel {
    /// A fresh channel bound to the named chip instance.
    pub fn new(chip_name: String, chip_idx: usize, chip_sub: usize, chan_sub: usize) -> (r:
        Channel)
        ensures
            r.chip_name == chip_name,
            r.chip_idx == chip_idx,
            r.chip_sub == chip_sub,
            r.chan_sub == chan_sub,
            r.text@.len() == 0,
            r.loop_point == -1,
            r.duration == 0,
    {
        Channel {
            chip_name,
            chip_idx,
            chip_sub,
            chan_sub,
            text: Vec::new(),
            loop_point: -1,
            duration: 0,
        }
    }

    /// A copy of this channel, equal field by field.
    pub fn clone_channel(&self) -> (r: Channel)
        ensures
            r.chip_name@ == self.chip_name@,
            r.chip_idx == self.chip_idx,
            r.chip_sub == self.chip_sub,
            r.chan_sub == self.chan_sub,
            r.text@ == self.text@,
            r.loop_point == self.loop_point,
            r.duration == self.duration,
    {
        let mut text: Vec<char> = Vec::new();
        let mut i: usize = 0;
        while i < self.text.len()
            invariant
                i <= self.text@.len(),
                text@ == self.text@.take(i as int),
            decreases self.text@.len() - i,
        {
            text.push(self.text[i]);
            proof {
                assert(self.text@.take(i + 1) =~= self.text@.take(i as int).push(
                    self.text@[i as int],
                ));
            }
            i = i + 1;
        }
        proof {
            assert(self.text@.take(self.text@.len() as int) =~= self.text@);
        }
        Channel {
            chip_name: self.chip_name.clone(),
            chip_idx: self.chip_idx,
            chip_sub: self.chip_sub,
            chan_sub: self.chan_sub,
            text,
            loop_point: self.loop_point,
            duration: self.duration,
        }
    }

    /// Append MML text to this channel.
    pub fn append_text(&mut self, text: &str)
        ensures
            final(self).text@ == old(self).text@ + text@,
            final(self).chip_name == old(self).chip_name,
            final(self).chip_idx == old(self).chip_idx,
            final(self).chip_sub == old(self).chip_sub,
            final(self).chan_sub == old(self).chan_sub,
            final(self).loop_point == old(self).loop_point,
            final(self).duration == old(self).duration,
    {
        let cs = str_chars(text);
        self.append_chars(&cs);
    }

    /// Append characters to this channel's MML text.
    pub fn append_chars(&mut self, cs: &Vec<char>)
        ensures
            final(self).text@ == old(self).text@ + cs@,
            final(self).chip_name == old(self).chip_name,
            final(self).chip_idx == old(self).chip_idx,
            final(self).chip_sub == old(self).chip_sub,
            final(self).chan_sub == old(self).chan_sub,
            final(self).loop_point == old(self).loop_point,
            final(self).duration == old(self).duration,
    {
        let mut i: usize = 0;
        while i < cs.len()
            invariant
                i <= cs@.len(),
                self.text@ == old(self).text@ + cs@.take(i as int),
                self.chip_name == old(self).chip_name,
                self.chip_idx == old(self).chip_idx,
                self.chip_sub == old(self).chip_sub,
                self.chan_sub == old(self).chan_sub,
                self.loop_point == old(self).loop_point,
                self.duration == old(self).duration,
            decreases cs@.len() - i,
        {
            self.text.push(cs[i]);
            proof {
                assert(old(self).text@ + cs@.take(i + 1) =~= (old(self).text@ + cs@.take(
                    i as int,
                )).push(cs@[i as int]));
            }
            i = i + 1;
        }
        proof {
            assert(cs@.take(cs@.len() as int) =~= cs@);
        }
    }
}

/// Samples per whole note at one beat per minute: 44100 * 60 * 4.
pub const WHOLE_NOTE_SAMPLES: i64 = 10584000;

/// The dotted-length accumulation: each dot adds half of the previous
/// extension, starting from the undotted length `k`.
pub open spec fn spec_dotted(k: int, j: int, dots: int) -> int
    decreases dots,
{
    if dots <= 0 {
        k
    } else {
        spec_dotted(k + j / 2, j / 2, dots - 1)
    }
}

/// The length in samples of a note: the whole-note sample count divided
/// by the length denominator, extended by the dots, divided by the tempo.
pub open spec fn spec_note_length(tempo: int, length: int, dots: int) -> int {
    if length == 0 {
        0
    } else {
        let k = WHOLE_NOTE_SAMPLES as int / length;
        spec_dotted(k, k, dots) / tempo
    }
}

/// For nonnegative starting values the dotted sum stays within the sum
/// of its two arguments.
proof fn lemma_dotted_bounds(k: int, j: int, dots: int)
    requires
        dots >= 0,
        k >= 0,
        j >= 0,
    ensures
        0 <= spec_dotted(k, j, dots) <= k + j,
    decreases dots,
{
    if dots > 0 {
        lemma_dotted_bounds(k + j / 2, j / 2, dots - 1);
    }
}

/// Calculate a note length in samples from the tempo in beats per minute,
/// the note value (4 = quarter, 8 = eighth, and so on) and the dot count.
pub fn calc_note_length(tempo: i32, length: i32, dots: i32) -> (r: i64)
    requires
        tempo > 0,
        length >= 0,
        dots >= 0,
    ensures
        r == spec_note_length(tempo as int, length as int, dots as int),
        r >= 0,
        r <= 2 * WHOLE_NOTE_SAMPLES,
{
    if length == 0 {
        return 0;
    }
    let k0: i64 = WHOLE_NOTE_SAMPLES / (length as i64);
    let mut k: i64 = k0;
    let mut j: i64 = k0;
    let mut t: i32 = dots;
    while t > 0
        invariant
            t >= 0,
            k >= 0,
            j >= 0,
            k + j <= 2 * WHOLE_NOTE_SAMPLES,
            spec_dotted(k0 as int, k0 as int, dots as int) == spec_dotted(
                k as int,
                j as int,
                t as int,
            ),
        decreases t,
    {
        j = j / 2;
        k = k + j;
        t = t - 1;
    }
    proof {
        lemma_dotted_bounds(k0 as int, k0 as int, dots as int);
    }
    k / (tempo as i64)
}

/// Per-channel musical state while compiling.
#[derive(Debug, Clone)]
pub struct ChannelState {
    /// Current octave.
    pub octave: i32,
    /// Current tempo in beats per minute.
    pub tempo: i32,
    /// Default note length in samples.
    pub default_length: i64,
    /// Current time position in samples.
    pub time: i64,
    /// Transpose amount in semitones.
    pub transpose: i32,
    /// Detune amount in hardware pitch units.
    pub detune: i64,
    /// Quantize amount in samples.
    pub quantize: i64,
    /// Current note (-1 for rest, -2 for wait).
    pub current_note: i32,
    /// Current note length in samples.
    pub current_length: i64,
    /// Active macro envelope id per kind (-1 for none).
    pub active_macros: Vec<i32>,
    /// Note-off event mode.
    pub note_off_event: i32,
    /// Sample list id (-1 for none).
    pub sample_list: i32,
    /// This channel's slot in its phase group.
    pub phase: i32,
    /// Number of slots in the phase group.
    pub phase_count: i32,
}

impl Default for ChannelState {
    /// The at-rest state: octave 4, tempo 120, nothing pending.
    fn default() -> (r: ChannelState)
        ensures
            r.octave == 4,
            r.tempo == 120,
            r.default_length == 0,
            r.time == 0,
            r.transpose == 0,
            r.detune == 0,
            r.quantize == 0,
            r.current_note == -1,
            r.current_length == 0,
            r.active_macros@.len() == 13,
            forall|i: int| 0 <= i < 13 ==> r.active_macros@[i] == -1,
            r.note_off_event == 0,
            r.sample_list == -1,
            r.phase == 0,
            r.phase_count == 1,
    {
        let mut active_macros: Vec<i32> = Vec::new();
        let mut i: usize = 0;
        while i < 13
            invariant
                i <= 13,
                active_macros@.len() == i,
                forall|j: int| 0 <= j < i ==> active_macros@[j] == -1,
            decreases 13 - i,
        {
            active_macros.push(-1);
            i = i + 1;
        }
        ChannelState {
            octave: 4,
            tempo: 120,
            default_length: 0,
            time: 0,
            transpose: 0,
            detune: 0,
            quantize: 0,
            current_note: -1,
            current_length: 0,
            active_macros,
            note_off_event: 0,
            sample_list: -1,
            phase: 0,
            phase_count: 1,
        }
    }
}

impl ChannelState {
    /// The starting state for a channel at the given tempo, with the
    /// default length of one quarter note.
    pub fn new(tempo: i32) -> (r: ChannelState)
        requires
            tempo > 0,
        ensures
            r.tempo == tempo,
            r.default_length == spec_note_length(tempo as int, 4, 0),
            r.octave == 4,
            r.time == 0,
            r.current_note == -1,
            r.current_length == 0,
            r.transpose == 0,
            r.detune == 0,
            r.quantize == 0,
            r.active_macros@.len() == 13,
            forall|i: int| 0 <= i < 13 ==> r.active_macros@[i] == -1,
            r.note_off_event == 0,
            r.sample_list == -1,
            r.phase == 0,
            r.phase_count == 1,
    {
        let mut state = ChannelState::default();
        state.tempo = tempo;
        state.default_length = calc_note_length(tempo, 4, 0);
        state
    }
}

} // verus!
