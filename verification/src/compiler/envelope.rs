//! Macro envelopes: per-(kind, id) sequences of values a channel steps
//! through while a note sounds.

use vstd::prelude::*;

verus! {

/// Maximum envelope data length; writes past it are silently dropped.
pub const MAX_ENVELOPE_DATA: usize = 2048;

/// Number of macro kinds.
pub const MAX_MACRO_TYPES: usize = 13;

/// Number of envelope ids per kind.
pub const MACRO_ENV_IDS: usize = 256;

/// Macro kinds.
#[derive(Debug, Clone, Copy, PartialEq, Eq, Hash)]
pub enum MacroType {
    Volume,
    Panning,
    Tone,
    Option,
    Arpeggio,
    Global,
    Multiply,
    Waveform,
    ModWaveform,
    VolumeEnv,
    Sample,
    SampleList,
    Midi,
}

/// The storage slot of each macro kind.
pub open spec fn spec_macro_index(t: MacroType) -> int {
    match t {
        MacroType::Volume => 0,
        MacroType::Panning => 1,
        MacroType::Tone => 2,
        MacroType::Option => 3,
        MacroType::Arpeggio => 4,
        MacroType::Global => 5,
        MacroType::Multiply => 6,
        MacroType::Waveform => 7,
        MacroType::ModWaveform => 8,
        MacroType::VolumeEnv => 9,
        MacroType::Sample => 10,
        MacroType::Midi => 12,
        MacroType::SampleList => 11,
    }
}

impl MacroType {
    /// The storage slot of this kind.
    pub fn index(&self) -> (r: usize)
        ensures
            r == spec_macro_index(*self),
            r < MAX_MACRO_TYPES,
    {
        match self {
            MacroType::Volume => 0,
            MacroType::Panning => 1,
            MacroType::Tone => 2,
            MacroType::Option => 3,
            MacroType::Arpeggio => 4,
            MacroType::Global => 5,
            MacroType::Multiply => 6,
            MacroType::Waveform => 7,
            MacroType::ModWaveform => 8,
            MacroType::VolumeEnv => 9,
            MacroType::Sample => 10,
            MacroType::SampleList => 11,
            MacroType::Midi => 12,
        }
    }

    /// The static command name (for channel commands); empty when the
    /// kind has no static form.
    pub fn stat_name(&self) -> (r: &'static str)
        ensures
            r@ == spec_stat_name(*self),
    {
        let r = match self {
            MacroType::Volume => "v",
            MacroType::Panning => "P",
            MacroType::Tone => "@",
            MacroType::Option => "",
            MacroType::Arpeggio => "",
            MacroType::Global => "@G",
            MacroType::Multiply => "M",
            MacroType::Waveform => "@W",
            MacroType::ModWaveform => "@WM",
            MacroType::VolumeEnv => "ve",
            MacroType::Sample => "@S",
            MacroType::SampleList => "@SL",
            MacroType::Midi => "",
        };
        proof {
            reveal_strlit("v");
            reveal_strlit("P");
            reveal_strlit("@");
            reveal_strlit("");
            reveal_strlit("@G");
            reveal_strlit("M");
            reveal_strlit("@W");
            reveal_strlit("@WM");
            reveal_strlit("ve");
            reveal_strlit("@S");
            reveal_strlit("@SL");
            assert(r@ =~= spec_stat_name(*self));
        }
        r
    }

    /// The dynamic command name (for envelope definitions); empty when
    /// the kind has no dynamic form.
    pub fn dyn_name(&self) -> (r: &'static str)
        ensures
            r@ == spec_dyn_name(*self),
    {
        let r = match self {
            MacroType::Volume => "@v",
            MacroType::Panning => "@P",
            MacroType::Tone => "@@",
            MacroType::Option => "@x",
            MacroType::Arpeggio => "@EN",
            MacroType::Global => "",
            MacroType::Multiply => "@M",
            MacroType::Waveform => "@W",
            MacroType::ModWaveform => "",
            MacroType::VolumeEnv => "",
            MacroType::Sample => "@S",
            MacroType::SampleList => "@SL",
            MacroType::Midi => "@MIDI",
        };
        proof {
            reveal_strlit("@v");
            reveal_strlit("@P");
            reveal_strlit("@@");
            reveal_strlit("@x");
            reveal_strlit("@EN");
            reveal_strlit("");
            reveal_strlit("@M");
            reveal_strlit("@W");
            reveal_strlit("@S");
            reveal_strlit("@SL");
            reveal_strlit("@MIDI");
            assert(r@ =~= spec_dyn_name(*self));
        }
        r
    }

    /// The dynamic relative command name; empty when the kind has none.
    pub fn dyn_rel_name(&self) -> (r: &'static str)
        ensures
            r@ == spec_dyn_rel_name(*self),
    {
        let r = match self {
            MacroType::Volume => "@vr",
            MacroType::Option => "@xr",
            _ => "",
        };
        proof {
            reveal_strlit("@vr");
            reveal_strlit("@xr");
            reveal_strlit("");
            assert(r@ =~= spec_dyn_rel_name(*self));
        }
        r
    }

    /// The kind whose dynamic name matches, if any.
    pub fn from_dyn_name(name: &str) -> (r: Option<MacroType>)
        ensures
            r == spec_from_dyn_name(name@),
    {
        let cs = crate::text::str_chars(name);
        Self::from_dyn_chars(&cs)
    }

    /// The kind whose dynamic name matches the given characters, if any.
    pub fn from_dyn_chars(cs: &Vec<char>) -> (r: Option<MacroType>)
        ensures
            r == spec_from_dyn_name(cs@),
    {
        let r = if chars_eq2(cs, '@', 'v') {
            Some(MacroType::Volume)
        } else if chars_eq2(cs, '@', 'P') {
            Some(MacroType::Panning)
        } else if chars_eq2(cs, '@', '@') {
            Some(MacroType::Tone)
        } else if chars_eq2(cs, '@', 'x') {
            Some(MacroType::Option)
        } else if chars_eq3(cs, '@', 'E', 'N') {
            Some(MacroType::Arpeggio)
        } else if chars_eq2(cs, '@', 'M') {
            Some(MacroType::Multiply)
        } else if chars_eq2(cs, '@', 'W') {
            Some(MacroType::Waveform)
        } else if chars_eq2(cs, '@', 'S') {
            Some(MacroType::Sample)
        } else if chars_eq3(cs, '@', 'S', 'L') {
            Some(MacroType::SampleList)
        } else if cs.len() == 5 && cs[0] == '@' && cs[1] == 'M' && cs[2] == 'I' && cs[3] == 'D'
            && cs[4] == 'I' {
            proof {
                assert(cs@ =~= seq!['@', 'M', 'I', 'D', 'I']);
            }
            Some(MacroType::Midi)
        } else {
            proof {
                if cs@.len() == 5 && cs@[0] == '@' && cs@[1] == 'M' && cs@[2] == 'I' && cs@[3]
                    == 'D' && cs@[4] == 'I' {
                    assert(cs@ =~= seq!['@', 'M', 'I', 'D', 'I']);
                }
            }
            None
        };
        proof {
            assert(r == spec_from_dyn_name(cs@));
        }
        r
    }

    /// The kind whose static name matches, if any.
    pub fn from_stat_name(name: &str) -> (r: Option<MacroType>)
        ensures
            r == spec_from_stat_name(name@),
    {
        let cs = crate::text::str_chars(name);
        Self::from_stat_chars(&cs)
    }

    /// The kind whose static name matches the given characters, if any.
    pub fn from_stat_chars(cs: &Vec<char>) -> (r: Option<MacroType>)
        ensures
            r == spec_from_stat_name(cs@),
    {
        let r = if chars_eq1(cs, 'v') {
            Some(MacroType::Volume)
        } else if chars_eq1(cs, 'P') {
            Some(MacroType::Panning)
        } else if chars_eq1(cs, '@') {
            Some(MacroType::Tone)
        } else if chars_eq2(cs, '@', 'G') {
            Some(MacroType::Global)
        } else if chars_eq1(cs, 'M') {
            Some(MacroType::Multiply)
        } else if chars_eq2(cs, '@', 'W') {
            Some(MacroType::Waveform)
        } else if chars_eq3(cs, '@', 'W', 'M') {
            Some(MacroType::ModWaveform)
        } else if chars_eq2(cs, 'v', 'e') {
            Some(MacroType::VolumeEnv)
        } else if chars_eq2(cs, '@', 'S') {
            Some(MacroType::Sample)
        } else if chars_eq3(cs, '@', 'S', 'L') {
            Some(MacroType::SampleList)
        } else {
            None
        };
        proof {
            assert(r == spec_from_stat_name(cs@));
        }
        r
    }

    /// All macro kinds, in storage order.
    pub fn all() -> (r: Vec<MacroType>)
        ensures
            r@.len() == MAX_MACRO_TYPES,
            forall|i: int| 0 <= i < MAX_MACRO_TYPES ==> spec_macro_index(#[trigger] r@[i]) == i,
    {
        let mut v: Vec<MacroType> = Vec::new();
        v.push(MacroType::Volume);
        v.push(MacroType::Panning);
        v.push(MacroType::Tone);
        v.push(MacroType::Option);
        v.push(MacroType::Arpeggio);
        v.push(MacroType::Global);
        v.push(MacroType::Multiply);
        v.push(MacroType::Waveform);
        v.push(MacroType::ModWaveform);
        v.push(MacroType::VolumeEnv);
        v.push(MacroType::Sample);
        v.push(MacroType::SampleList);
        v.push(MacroType::Midi);
        v
    }
}

/// The characters of each kind's static command name.
pub open spec fn spec_stat_name(t: MacroType) -> Seq<char> {
    match t {
        MacroType::Volume => seq!['v'],
        MacroType::Panning => seq!['P'],
        MacroType::Tone => seq!['@'],
        MacroType::Option => Seq::empty(),
        MacroType::Arpeggio => Seq::empty(),
        MacroType::Global => seq!['@', 'G'],
        MacroType::Multiply => seq!['M'],
        MacroType::Waveform => seq!['@', 'W'],
        MacroType::ModWaveform => seq!['@', 'W', 'M'],
        MacroType::VolumeEnv => seq!['v', 'e'],
        MacroType::Sample => seq!['@', 'S'],
        MacroType::SampleList => seq!['@', 'S', 'L'],
        MacroType::Midi => Seq::empty(),
    }
}

/// The characters of each kind's dynamic command name.
pub open spec fn spec_dyn_name(t: MacroType) -> Seq<char> {
    match t {
        MacroType::Volume => seq!['@', 'v'],
        MacroType::Panning => seq!['@', 'P'],
        MacroType::Tone => seq!['@', '@'],
        MacroType::Option => seq!['@', 'x'],
        MacroType::Arpeggio => seq!['@', 'E', 'N'],
        MacroType::Global => Seq::empty(),
        MacroType::Multiply => seq!['@', 'M'],
        MacroType::Waveform => seq!['@', 'W'],
        MacroType::ModWaveform => Seq::empty(),
        MacroType::VolumeEnv => Seq::empty(),
        MacroType::Sample => seq!['@', 'S'],
        MacroType::SampleList => seq!['@', 'S', 'L'],
        MacroType::Midi => seq!['@', 'M', 'I', 'D', 'I'],
    }
}

/// The characters of each kind's dynamic relative command name.
pub open spec fn spec_dyn_rel_name(t: MacroType) -> Seq<char> {
    match t {
        MacroType::Volume => seq!['@', 'v', 'r'],
        MacroType::Option => seq!['@', 'x', 'r'],
        _ => Seq::empty(),
    }
}

/// The kind whose dynamic name is exactly `s`, if any.
pub open spec fn spec_from_dyn_name(s: Seq<char>) -> Option<MacroType> {
    if s == seq!['@', 'v'] {
        Some(MacroType::Volume)
    } else if s == seq!['@', 'P'] {
        Some(MacroType::Panning)
    } else if s == seq!['@', '@'] {
        Some(MacroType::Tone)
    } else if s == seq!['@', 'x'] {
        Some(MacroType::Option)
    } else if s == seq!['@', 'E', 'N'] {
        Some(MacroType::Arpeggio)
    } else if s == seq!['@', 'M'] {
        Some(MacroType::Multiply)
    } else if s == seq!['@', 'W'] {
        Some(MacroType::Waveform)
    } else if s == seq!['@', 'S'] {
        Some(MacroType::Sample)
    } else if s == seq!['@', 'S', 'L'] {
        Some(MacroType::SampleList)
    } else if s == seq!['@', 'M', 'I', 'D', 'I'] {
        Some(MacroType::Midi)
    } else {
        None
    }
}

/// The kind whose static name is exactly `s`, if any.
pub open spec fn spec_from_stat_name(s: Seq<char>) -> Option<MacroType> {
    if s == seq!['v'] {
        Some(MacroType::Volume)
    } else if s == seq!['P'] {
        Some(MacroType::Panning)
    } else if s == seq!['@'] {
        Some(MacroType::Tone)
    } else if s == seq!['@', 'G'] {
        Some(MacroType::Global)
    } else if s == seq!['M'] {
        Some(MacroType::Multiply)
    } else if s == seq!['@', 'W'] {
        Some(MacroType::Waveform)
    } else if s == seq!['@', 'W', 'M'] {
        Some(MacroType::ModWaveform)
    } else if s == seq!['v', 'e'] {
        Some(MacroType::VolumeEnv)
    } else if s == seq!['@', 'S'] {
        Some(MacroType::Sample)
    } else if s == seq!['@', 'S', 'L'] {
        Some(MacroType::SampleList)
    } else {
        None
    }
}

/// Is `cs` the one-character sequence `a`?
fn chars_eq1(cs: &Vec<char>, a: char) -> (r: bool)
    ensures
        r == (cs@ == seq![a]),
{
    let r = cs.len() == 1 && cs[0] == a;
    proof {
        if r {
            assert(cs@ =~= seq![a]);
        }
    }
    r
}

/// Is `cs` the two-character sequence `a`, `b`?
fn chars_eq2(cs: &Vec<char>, a: char, b: char) -> (r: bool)
    ensures
        r == (cs@ == seq![a, b]),
{
    let r = cs.len() == 2 && cs[0] == a && cs[1] == b;
    proof {
        if r {
            assert(cs@ =~= seq![a, b]);
        }
    }
    r
}

/// Is `cs` the three-character sequence `a`, `b`, `c`?
fn chars_eq3(cs: &Vec<char>, a: char, b: char, c: char) -> (r: bool)
    ensures
        r == (cs@ == seq![a, b, c]),
{
    let r = cs.len() == 3 && cs[0] == a && cs[1] == b && cs[2] == c;
    proof {
        if r {
            assert(cs@ =~= seq![a, b, c]);
        }
    }
    r
}

/// One macro envelope: data values, a loop start (or -1 for none) and the
/// write position `loop_end`, which doubles as the data length.
#[derive(Debug, Clone)]
pub struct MacroEnvelope {
    /// Loop start index (-1 if no loop).
    pub loop_start: i32,
    /// Loop end index; also the data length.
    pub loop_end: i32,
    /// Envelope data.
    pub data: Vec<i16>,
    /// Optional text label (used by sample envelopes).
    pub text: String,
}

impl MacroEnvelope {
    /// Well-formed: the write position stays within the data and the cap,
    /// and the loop start, when set, stays within the written range.
    pub open spec fn wf(&self) -> bool {
        &&& 0 <= self.loop_end <= self.data@.len()
        &&& self.loop_end <= MAX_ENVELOPE_DATA
        &&& -1 <= self.loop_start <= self.loop_end
    }

    /// An empty envelope with no loop.
    pub fn new() -> (r: MacroEnvelope)
        ensures
            r.wf(),
            r.loop_start == -1,
            r.loop_end == 0,
            r.data@.len() == 0,
            r.text@.len() == 0,
    {
        MacroEnvelope { loop_start: -1, loop_end: 0, data: Vec::new(), text: String::new() }
    }

    /// A copy of this envelope, equal field by field.
    pub fn clone_env(&self) -> (r: MacroEnvelope)
        requires
            self.wf(),
        ensures
            r.wf(),
            r.loop_start == self.loop_start,
            r.loop_end == self.loop_end,
            r.data@ == self.data@,
            r.text@ == self.text@,
    {
        let mut data: Vec<i16> = Vec::new();
        let mut i: usize = 0;
        while i < self.data.len()
            invariant
                i <= self.data@.len(),
                data@ == self.data@.take(i as int),
            decreases self.data@.len() - i,
        {
            data.push(self.data[i]);
            proof {
                assert(self.data@.take(i + 1) =~= self.data@.take(i as int).push(
                    self.data@[i as int],
                ));
            }
            i = i + 1;
        }
        proof {
            assert(self.data@.take(self.data@.len() as int) =~= self.data@);
        }
        MacroEnvelope {
            loop_start: self.loop_start,
            loop_end: self.loop_end,
            data,
            text: self.text.clone(),
        }
    }

    /// Reset to the empty state.
    pub fn reset(&mut self)
        ensures
            final(self).wf(),
            final(self).loop_start == -1,
            final(self).loop_end == 0,
            final(self).data@.len() == 0,
            final(self).text@.len() == 0,
    {
        self.loop_start = -1;
        self.loop_end = 0;
        self.data.clear();
        self.text = String::new();
    }

    /// The length of the envelope data.
    pub fn len(&self) -> (r: usize)
        requires
            self.wf(),
        ensures
            r == self.loop_end,
    {
        self.loop_end as usize
    }

    /// Whether the envelope holds no data.
    pub fn is_empty(&self) -> (r: bool)
        ensures
            r == (self.loop_end == 0),
    {
        self.loop_end == 0
    }

    /// Append a value; at the cap the value is silently dropped.
    pub fn push(&mut self, value: i16)
        requires
            old(self).wf(),
        ensures
            final(self).wf(),
            final(self).loop_start == old(self).loop_start,
            final(self).text == old(self).text,
            old(self).loop_end < MAX_ENVELOPE_DATA ==> {
                &&& final(self).loop_end == old(self).loop_end + 1
                &&& final(self).data@ == old(self).data@.update(old(self).loop_end as int, value)
                    || final(self).data@ == old(self).data@.push(value)
                &&& final(self).data@.len() >= old(self).data@.len()
                &&& final(self).data@[old(self).loop_end as int] == value
                &&& forall|i: int| 0 <= i < old(self).loop_end ==> final(self).data@[i] == old(
                    self,
                ).data@[i]
            },
            old(self).loop_end >= MAX_ENVELOPE_DATA ==> *final(self) == *old(self),
    {
        if (self.loop_end as usize) < MAX_ENVELOPE_DATA {
            if self.data.len() <= self.loop_end as usize {
                self.data.push(value);
            } else {
                self.data.set(self.loop_end as usize, value);
            }
            self.loop_end = self.loop_end + 1;
        }
    }

    /// Set the loop point at the current position.
    pub fn set_loop_point(&mut self)
        requires
            old(self).wf(),
        ensures
            final(self).wf(),
            final(self).loop_start == old(self).loop_end,
            final(self).loop_end == old(self).loop_end,
            final(self).data == old(self).data,
            final(self).text == old(self).text,
    {
        self.loop_start = self.loop_end;
    }

    /// The value at `index`, when within the data.
    pub fn get(&self, index: usize) -> (r: Option<i16>)
        ensures
            index < self.data@.len() ==> r == Some(self.data@[index as int]),
            index >= self.data@.len() ==> r is None,
    {
        if index < self.data.len() {
            Some(self.data[index])
        } else {
            None
        }
    }

    /// The last written value, if any.
    pub fn last(&self) -> (r: Option<i16>)
        requires
            self.wf(),
        ensures
            self.loop_end > 0 ==> r == Some(self.data@[self.loop_end - 1]),
            self.loop_end == 0 ==> r is None,
    {
        if self.loop_end > 0 {
            Some(self.data[(self.loop_end - 1) as usize])
        } else {
            None
        }
    }
}

impl Default for MacroEnvelope {
    /// An empty envelope with no loop.
    fn default() -> (r: MacroEnvelope)
        ensures
            r.wf(),
            r.loop_start == -1,
            r.loop_end == 0,
            r.data@.len() == 0,
    {
        MacroEnvelope::new()
    }
}

/// Storage for all macro envelopes, one per (kind slot, id), held as a
/// single table of `MAX_MACRO_TYPES` times `MACRO_ENV_IDS` entries.
pub struct MacroEnvStorage {
    envs: Vec<MacroEnvelope>,
}

impl MacroEnvStorage {
    /// The envelope table, kind-major: slot `t`, id `i` is entry
    /// `t * MACRO_ENV_IDS + i`.
    pub closed spec fn table(&self) -> Seq<MacroEnvelope> {
        self.envs@
    }

    /// The envelope stored for kind slot `t` and id `i`.
    pub open spec fn spec_env(&self, t: int, i: int) -> MacroEnvelope {
        self.table()[t * MACRO_ENV_IDS + i]
    }

    /// Well-formed: a full table of well-formed envelopes.
    pub open spec fn wf(&self) -> bool {
        &&& self.table().len() == MAX_MACRO_TYPES * MACRO_ENV_IDS
        &&& forall|k: int| 0 <= k < self.table().len() ==> (#[trigger] self.table()[k]).wf()
    }

    /// The envelope for the given kind slot and id.
    pub fn env(&self, t: usize, id: usize) -> (r: &MacroEnvelope)
        requires
            self.wf(),
            t < MAX_MACRO_TYPES,
            id < MACRO_ENV_IDS,
        ensures
            *r == self.spec_env(t as int, id as int),
            r.wf(),
    {
        proof {
            lemma_env_slot_bounds(t as int, id as int);
        }
        &self.envs[t * MACRO_ENV_IDS + id]
    }

    /// Replace the envelope for the given kind slot and id.
    pub fn set_env(&mut self, t: usize, id: usize, e: MacroEnvelope)
        requires
            old(self).wf(),
            t < MAX_MACRO_TYPES,
            id < MACRO_ENV_IDS,
            e.wf(),
        ensures
            final(self).wf(),
            final(self).table() == old(self).table().update(t * MACRO_ENV_IDS + id, e),
            final(self).spec_env(t as int, id as int) == e,
            forall|a: int, b: int| 0 <= a < MAX_MACRO_TYPES && 0 <= b < MACRO_ENV_IDS && !(a == t
                && b == id) ==> final(self).spec_env(a, b) == old(self).spec_env(a, b),
    {
        proof {
            lemma_env_slot_bounds(t as int, id as int);
        }
        self.envs.set(t * MACRO_ENV_IDS + id, e);
        proof {
            assert forall|a: int, b: int| 0 <= a < MAX_MACRO_TYPES && 0 <= b < MACRO_ENV_IDS && !(a
                == t && b == id) implies final(self).spec_env(a, b) == old(self).spec_env(a, b) by {
                lemma_env_slot_bounds(a, b);
                lemma_env_slot_distinct(a, b, t as int, id as int);
            }
        }
    }
}

/// Each (slot, id) pair addresses a distinct in-range table entry.
proof fn lemma_env_slot_bounds(t: int, i: int)
    requires
        0 <= t < MAX_MACRO_TYPES,
        0 <= i < MACRO_ENV_IDS,
    ensures
        0 <= t * MACRO_ENV_IDS + i < MAX_MACRO_TYPES * MACRO_ENV_IDS,
{
    assert(0 <= t * MACRO_ENV_IDS + i < MAX_MACRO_TYPES * MACRO_ENV_IDS) by (nonlinear_arith)
        requires 0 <= t < MAX_MACRO_TYPES && 0 <= i < MACRO_ENV_IDS;
}

/// Distinct (slot, id) pairs address distinct table entries.
proof fn lemma_env_slot_distinct(a: int, b: int, t: int, i: int)
    requires
        0 <= a < MAX_MACRO_TYPES,
        0 <= b < MACRO_ENV_IDS,
        0 <= t < MAX_MACRO_TYPES,
        0 <= i < MACRO_ENV_IDS,
        !(a == t && b == i),
    ensures
        a * MACRO_ENV_IDS + b != t * MACRO_ENV_IDS + i,
{
    assert(a * MACRO_ENV_IDS + b != t * MACRO_ENV_IDS + i) by (nonlinear_arith)
        requires 0 <= a < MAX_MACRO_TYPES && 0 <= b < MACRO_ENV_IDS && 0 <= t < MAX_MACRO_TYPES
            && 0 <= i < MACRO_ENV_IDS && !(a == t && b == i);
}

/// Create the empty envelope table.
pub fn create_macro_env_storage() -> (r: MacroEnvStorage)
    ensures
        r.wf(),
        forall|k: int| 0 <= k < r.table().len() ==> {
            &&& (#[trigger] r.table()[k]).loop_start == -1
            &&& r.table()[k].loop_end == 0
            &&& r.table()[k].data@.len() == 0
        },
{
    let mut envs: Vec<MacroEnvelope> = Vec::new();
    let mut k: usize = 0;
    while k < MAX_MACRO_TYPES * MACRO_ENV_IDS
        invariant
            k <= MAX_MACRO_TYPES * MACRO_ENV_IDS,
            envs@.len() == k,
            forall|a: int| 0 <= a < k ==> {
                &&& (#[trigger] envs@[a]).wf()
                &&& envs@[a].loop_start == -1
                &&& envs@[a].loop_end == 0
                &&& envs@[a].data@.len() == 0
            },
        decreases MAX_MACRO_TYPES * MACRO_ENV_IDS - k,
    {
        envs.push(MacroEnvelope::new());
        k = k + 1;
    }
    MacroEnvStorage { envs }
}

} // verus!
