//! GD3 metadata block: eleven UTF-16LE null-terminated strings.

use vstd::prelude::*;
use crate::compiler::Gd3Metadata;
use crate::text::str_chars;

verus! {

/// GD3 tag version (1.0).
pub const GD3_VERSION: u32 = 0x100;

/// The bytes of the ASCII magic `"Gd3 "`.
pub open spec fn gd3_magic() -> Seq<u8> {
    seq![0x47u8, 0x64u8, 0x33u8, 0x20u8]
}

/// The four little-endian bytes of `v` (truncated to 32 bits).
pub open spec fn le32_bytes(v: int) -> Seq<u8> {
    seq![
        (v % 0x100) as u8,
        ((v / 0x100) % 0x100) as u8,
        ((v / 0x10000) % 0x100) as u8,
        ((v / 0x1000000) % 0x100) as u8,
    ]
}

/// UTF-16LE encoding of one character: two bytes for the basic
/// multilingual plane, a surrogate pair for code points at 0x10000 and up.
pub open spec fn utf16_char(c: char) -> Seq<u8> {
    let u = c as u32;
    if u < 0x10000 {
        seq![(u % 0x100) as u8, (u / 0x100) as u8]
    } else {
        let v = u - 0x10000;
        let high = 0xD800 + v / 0x400;
        let low = 0xDC00 + v % 0x400;
        seq![(high % 0x100) as u8, (high / 0x100) as u8, (low % 0x100) as u8, (low / 0x100) as u8]
    }
}

/// UTF-16LE encoding of a character sequence, without a terminator.
pub open spec fn utf16_chars(s: Seq<char>) -> Seq<u8>
    decreases s.len(),
{
    if s.len() == 0 {
        Seq::empty()
    } else {
        utf16_char(s[0]) + utf16_chars(s.drop_first())
    }
}

/// UTF-16LE encoding of a string: the characters, then a null terminator.
pub open spec fn utf16_str(s: Seq<char>) -> Seq<u8> {
    utf16_chars(s) + seq![0u8, 0u8]
}

/// The string region of the GD3 block: the eleven fields in fixed order.
pub open spec fn gd3_strings(m: &Gd3Metadata) -> Seq<u8> {
    utf16_str(m.title_en@) + utf16_str(m.title_jp@) + utf16_str(m.game_en@) + utf16_str(m.game_jp@)
        + utf16_str(m.system_en@) + utf16_str(m.system_jp@) + utf16_str(m.composer_en@)
        + utf16_str(m.composer_jp@) + utf16_str(m.date@) + utf16_str(m.converter@) + utf16_str(
        m.notes@,
    )
}

/// The whole GD3 block: magic, version, byte length of the string region,
/// then the string region.
pub open spec fn gd3_block(m: &Gd3Metadata) -> Seq<u8> {
    gd3_magic() + le32_bytes(GD3_VERSION as int) + le32_bytes(gd3_strings(m).len() as int)
        + gd3_strings(m)
}

/// Encoding one more character appends that character's bytes.
pub proof fn lemma_utf16_chars_push(s: Seq<char>, c: char)
    ensures
        utf16_chars(s.push(c)) == utf16_chars(s) + utf16_char(c),
    decreases s.len(),
{
    if s.len() == 0 {
        assert(s.push(c).drop_first() =~= Seq::<char>::empty());
        assert(s.push(c)[0] == c);
        assert(utf16_chars(Seq::<char>::empty()) =~= Seq::<u8>::empty());
        assert(utf16_chars(s.push(c)) =~= utf16_char(c));
        assert(utf16_chars(s) + utf16_char(c) =~= utf16_char(c));
    } else {
        assert(s.push(c).drop_first() =~= s.drop_first().push(c));
        lemma_utf16_chars_push(s.drop_first(), c);
        assert(utf16_chars(s.push(c)) =~= utf16_chars(s) + utf16_char(c));
    }
}

/// Append the UTF-16LE encoding of `s`, null-terminated, to `data`.
pub fn write_utf16_string(data: &mut Vec<u8>, s: &str)
    ensures
        final(data)@ == old(data)@ + utf16_str(s@),
{
    let ghost base = data@;
    let cs = str_chars(s);
    let mut i: usize = 0;
    while i < cs.len()
        invariant
            cs@ == s@,
            i <= cs.len(),
            data@ == base + utf16_chars(cs@.take(i as int)),
        decreases cs.len() - i,
    {
        let ghost pre = data@;
        let c = cs[i];
        let code = c as u32;
        if code <= 0xFFFF {
            data.push((code % 0x100) as u8);
            data.push((code / 0x100) as u8);
        } else {
            let v = code - 0x10000;
            let high = 0xD800 + v / 0x400;
            let low = 0xDC00 + v % 0x400;
            data.push((high % 0x100) as u8);
            data.push((high / 0x100) as u8);
            data.push((low % 0x100) as u8);
            data.push((low / 0x100) as u8);
        }
        proof {
            assert(cs@.take(i + 1) =~= cs@.take(i as int).push(cs@[i as int]));
            lemma_utf16_chars_push(cs@.take(i as int), cs@[i as int]);
            assert(data@ =~= pre + utf16_char(cs@[i as int]));
            assert(data@ =~= base + utf16_chars(cs@.take(i + 1)));
        }
        i = i + 1;
    }
    data.push(0);
    data.push(0);
    proof {
        assert(cs@.take(cs@.len() as int) =~= cs@);
        assert(data@ =~= base + utf16_str(s@));
    }
}

/// Generate the GD3 block for the given metadata.
pub fn generate_gd3(metadata: &Gd3Metadata) -> (r: Vec<u8>)
    ensures
        r@ == gd3_block(metadata),
{
    let mut strings: Vec<u8> = Vec::new();
    write_utf16_string(&mut strings, metadata.title_en.as_str());
    write_utf16_string(&mut strings, metadata.title_jp.as_str());
    write_utf16_string(&mut strings, metadata.game_en.as_str());
    write_utf16_string(&mut strings, metadata.game_jp.as_str());
    write_utf16_string(&mut strings, metadata.system_en.as_str());
    write_utf16_string(&mut strings, metadata.system_jp.as_str());
    write_utf16_string(&mut strings, metadata.composer_en.as_str());
    write_utf16_string(&mut strings, metadata.composer_jp.as_str());
    write_utf16_string(&mut strings, metadata.date.as_str());
    write_utf16_string(&mut strings, metadata.converter.as_str());
    write_utf16_string(&mut strings, metadata.notes.as_str());
    proof {
        assert(strings@ =~= gd3_strings(metadata));
    }

    let mut data: Vec<u8> = Vec::new();
    data.push(0x47);
    data.push(0x64);
    data.push(0x33);
    data.push(0x20);
    data.push(0x00);
    data.push(0x01);
    data.push(0x00);
    data.push(0x00);
    let size = strings.len() as u64;
    data.push((size % 0x100) as u8);
    data.push(((size / 0x100) % 0x100) as u8);
    data.push(((size / 0x10000) % 0x100) as u8);
    data.push(((size / 0x1000000) % 0x100) as u8);
    proof {
        assert(le32_bytes(GD3_VERSION as int) =~= seq![0x00u8, 0x01u8, 0x00u8, 0x00u8]);
    }
    let mut s2 = strings;
    data.append(&mut s2);
    proof {
        assert(data@ =~= gd3_block(metadata));
    }
    data
}

/// Decoding of a UTF-16LE byte stream up to its null terminator, by the
/// rules the VGM reader follows: surrogate pairs combine, lone surrogates
/// are dropped, and a truncated tail ends the string.
pub open spec fn utf16_decode(b: Seq<u8>) -> Seq<char>
    decreases b.len(),
{
    if b.len() < 2 {
        Seq::empty()
    } else {
        let u = b[0] + 0x100 * b[1];
        if u == 0 {
            Seq::empty()
        } else if 0xD800 <= u && u <= 0xDBFF {
            if b.len() >= 4 {
                let l = b[2] + 0x100 * b[3];
                if 0xDC00 <= l && l <= 0xDFFF {
                    seq![((0x10000 + (u - 0xD800) * 0x400 + (l - 0xDC00)) as u32) as char]
                        + utf16_decode(b.skip(4))
                } else {
                    utf16_decode(b.skip(4))
                }
            } else {
                Seq::empty()
            }
        } else if 0xDC00 <= u && u <= 0xDFFF {
            utf16_decode(b.skip(2))
        } else {
            seq![(u as u32) as char] + utf16_decode(b.skip(2))
        }
    }
}

/// Law: text encoded into a GD3 string field parses back, code point for
/// code point, to the identical string, for every string free of embedded
/// null characters; surrogate pairs are emitted and re-combined for code
/// points at 0x10000 and up.
pub proof fn lemma_utf16_round_trip(s: Seq<char>)
    requires
        forall|i: int| 0 <= i < s.len() ==> #[trigger] s[i] as u32 != 0,
    ensures
        utf16_decode(utf16_str(s)) == s,
    decreases s.len(),
{
    if s.len() == 0 {
        assert(utf16_str(s) =~= seq![0u8, 0u8]);
        assert(utf16_decode(utf16_str(s)) =~= Seq::<char>::empty());
        assert(utf16_decode(utf16_str(s)) =~= s);
    } else {
        let c = s[0];
        let u = c as u32;
        let rest = s.drop_first();
        lemma_utf16_round_trip(rest);
        let b = utf16_str(s);
        assert(utf16_chars(s) == utf16_char(c) + utf16_chars(rest));
        assert(b =~= utf16_char(c) + utf16_str(rest));
        vstd::utf8::char_is_scalar(c);
        vstd::utf8::char_u32_cast(c, u);
        if u < 0x10000 {
            assert(b[0] == u % 0x100 && b[1] == u / 0x100);
            assert(b[0] + 0x100 * b[1] == u);
            assert(u != 0);
            assert(!(0xD800 <= u && u <= 0xDFFF));
            assert(b.skip(2) =~= utf16_str(rest));
            assert((u as u32) as char == c);
            assert(utf16_decode(b) =~= seq![c] + utf16_decode(utf16_str(rest)));
            assert(utf16_decode(b) =~= s);
        } else {
            let v = u - 0x10000;
            let high = 0xD800 + v / 0x400;
            let low = 0xDC00 + v % 0x400;
            assert(v <= 0xFFFFF);
            assert(v / 0x400 <= 0x3FF) by (nonlinear_arith)
                requires 0 <= v <= 0xFFFFF;
            assert(0 <= v % 0x400 < 0x400);
            assert(b[0] == high % 0x100 && b[1] == high / 0x100);
            assert(b[0] + 0x100 * b[1] == high);
            assert(0xD800 <= high && high <= 0xDBFF);
            assert(b.len() >= 4);
            assert(b[2] == low % 0x100 && b[3] == low / 0x100);
            assert(b[2] + 0x100 * b[3] == low);
            assert(0xDC00 <= low && low <= 0xDFFF);
            assert((v / 0x400) * 0x400 + v % 0x400 == v) by (nonlinear_arith);
            assert(0x10000 + (high - 0xD800) * 0x400 + (low - 0xDC00) == u);
            assert((u as u32) as char == c);
            assert(b.skip(4) =~= utf16_str(rest));
            assert(utf16_decode(b) =~= seq![c] + utf16_decode(utf16_str(rest)));
            assert(utf16_decode(b) =~= s);
        }
    }
}

} // verus!
