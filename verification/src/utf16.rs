use vstd::prelude::*;

verus! {

/// The UTF-16 code units of one character: itself below 0x10000, else a surrogate pair.
pub open spec fn utf16_units(c: char) -> Seq<u16> {
    let v = c as u32;
    if v < 0x10000 {
        seq![v as u16]
    } else {
        seq![(0xD800 + (v - 0x10000) / 0x400) as u16, (0xDC00 + (v - 0x10000) % 0x400) as u16]
    }
}

/// The UTF-16 encoding of a string.
pub open spec fn utf16_encode(s: Seq<char>) -> Seq<u16>
    decreases s.len(),
{
    if s.len() == 0 {
        Seq::empty()
    } else {
        utf16_encode(s.drop_last()) + utf16_units(s.last())
    }
}

/// Each code unit as two bytes, the low byte first.
pub open spec fn le_bytes(units: Seq<u16>) -> Seq<u8>
    decreases units.len(),
{
    if units.len() == 0 {
        Seq::empty()
    } else {
        le_bytes(units.drop_last()) + seq![(units.last() % 256) as u8, (units.last() / 256) as u8]
    }
}

fn push_units(c: char, out: &mut Vec<u16>)
    ensures
        final(out)@ == old(out)@ + utf16_units(c),
{
    let ghost before = out@;
    let v = c as u32;
    if v < 0x10000 {
        out.push(v as u16);
    } else {
        let w = v - 0x10000;
        out.push((0xD800 + w / 0x400) as u16);
        out.push((0xDC00 + w % 0x400) as u16);
    }
    assert(out@ =~= before + utf16_units(c));
}

/// The UTF-16 encoding of `string`, followed by a zero code unit when `null_terminate` holds.
pub fn clone_to_utf16(string: &str, null_terminate: bool) -> (result: Vec<u16>)
    ensures
        result@ == utf16_encode(string@) + (if null_terminate {
            seq![0u16]
        } else {
            Seq::empty()
        }),
{
    let mut result: Vec<u16> = Vec::new();
    let ghost all = string@;
    for c in it: string.chars()
        invariant
            it.seq() == all,
            result@ == utf16_encode(it.seq().take(it.index())),
        ensures
            result@ == utf16_encode(all.take(all.len() as int)),
    {
        push_units(c, &mut result);
        assert(it.seq().take(it.index() + 1).drop_last() =~= it.seq().take(it.index()));
    }
    assert(all.take(all.len() as int) =~= all);
    if null_terminate {
        result.push(0);
    }
    result
}

/// The UTF-16 encoding of `string` as little-endian bytes, followed by a single zero byte when
/// `null_terminate` holds.
pub fn clone_to_utf16_le(string: &str, null_terminate: bool) -> (result: Vec<u8>)
    ensures
        result@ == le_bytes(utf16_encode(string@)) + (if null_terminate {
            seq![0u8]
        } else {
            Seq::empty()
        }),
{
    let units = clone_to_utf16(string, false);
    assert(units@ =~= utf16_encode(string@));
    let mut result: Vec<u8> = Vec::new();
    let mut i: usize = 0;
    while i < units.len()
        invariant
            i <= units@.len(),
            result@ == le_bytes(units@.take(i as int)),
        decreases units@.len() - i,
    {
        let u = units[i];
        result.push((u % 256) as u8);
        result.push((u / 256) as u8);
        assert(units@.take(i + 1).drop_last() =~= units@.take(i as int));
        i = i + 1;
    }
    assert(units@.take(units@.len() as int) =~= units@);
    if null_terminate {
        result.push(0);
    }
    result
}

/// A code unit that opens a surrogate pair.
pub open spec fn is_high_surrogate(u: u16) -> bool {
    0xD800 <= u < 0xDC00
}

/// A code unit that closes a surrogate pair.
pub open spec fn is_low_surrogate(u: u16) -> bool {
    0xDC00 <= u < 0xE000
}

/// The characters that a sequence of UTF-16 code units stands for; a surrogate that is not
/// part of a pair stands for U+FFFD.
pub open spec fn utf16_decode(units: Seq<u16>) -> Seq<char>
    decreases units.len(),
{
    if units.len() == 0 {
        Seq::empty()
    } else if units.len() >= 2 && is_high_surrogate(units[0]) && is_low_surrogate(units[1]) {
        seq![(0x10000 + (units[0] - 0xD800) * 0x400 + (units[1] - 0xDC00)) as char]
            + utf16_decode(units.subrange(2, units.len() as int))
    } else if is_high_surrogate(units[0]) || is_low_surrogate(units[0]) {
        seq!['\u{FFFD}'] + utf16_decode(units.subrange(1, units.len() as int))
    } else {
        seq![units[0] as char] + utf16_decode(units.subrange(1, units.len() as int))
    }
}

/// A character below U+10000 is one code unit equal to its value; any other character is a
/// high surrogate (D800-DBFF) followed by a low surrogate (DC00-DFFF) that together carry
/// the character's value less 0x10000, ten bits in each.
pub proof fn law_utf16_units(c: char)
    ensures
        (c as u32) < 0x10000 ==> utf16_units(c).len() == 1 && utf16_units(c)[0] as u32 == c as u32,
        (c as u32) >= 0x10000 ==> {
            let u = utf16_units(c);
            &&& u.len() == 2
            &&& is_high_surrogate(u[0])
            &&& is_low_surrogate(u[1])
            &&& 0x10000 + (u[0] - 0xD800) * 0x400 + (u[1] - 0xDC00) == c as u32
        },
{
    vstd::utf8::char_is_scalar(c);
}

/// Encoding two strings one after the other gives the encoding of the two joined.
pub proof fn lemma_utf16_encode_append(a: Seq<char>, b: Seq<char>)
    ensures
        utf16_encode(a + b) == utf16_encode(a) + utf16_encode(b),
    decreases b.len(),
{
    if b.len() == 0 {
        assert(a + b =~= a);
        assert(utf16_encode(a) + utf16_encode(b) =~= utf16_encode(a));
    } else {
        lemma_utf16_encode_append(a, b.drop_last());
        assert((a + b).drop_last() =~= a + b.drop_last());
        assert((a + b).last() == b.last());
        assert(utf16_encode(a + b) =~= utf16_encode(a) + utf16_encode(b));
    }
}

/// No character is lost or changed by the UTF-16 encoding: decoding it gives the string back.
pub proof fn law_utf16_decode_encode(s: Seq<char>)
    ensures
        utf16_decode(utf16_encode(s)) == s,
    decreases s.len(),
{
    if s.len() > 0 {
        let first = s[0];
        let rest = s.subrange(1, s.len() as int);
        assert(s =~= seq![first] + rest);
        lemma_utf16_encode_append(seq![first], rest);
        assert(seq![first].drop_last() =~= Seq::<char>::empty());
        assert(utf16_encode(Seq::<char>::empty()) =~= Seq::<u16>::empty());
        assert(utf16_encode(seq![first]) =~= utf16_units(first));
        law_utf16_decode_encode(rest);
        let e = utf16_encode(s);
        let tail = utf16_encode(rest);
        let v = first as u32;
        vstd::utf8::char_is_scalar(first);
        vstd::utf8::char_u32_cast(first, v);
        if v < 0x10000 {
            assert(e =~= seq![v as u16] + tail);
            assert(e.subrange(1, e.len() as int) =~= tail);
            assert(!is_high_surrogate(e[0]) && !is_low_surrogate(e[0]));
            assert(e[0] as u32 == v);
            assert((e[0] as char) == first);
        } else {
            let w = v - 0x10000;
            let hi = (0xD800 + w / 0x400) as u16;
            let lo = (0xDC00 + w % 0x400) as u16;
            assert(e =~= seq![hi, lo] + tail);
            assert(e.subrange(2, e.len() as int) =~= tail);
            assert(is_high_surrogate(hi) && is_low_surrogate(lo));
            assert(0x10000 + (hi - 0xD800) * 0x400 + (lo - 0xDC00) == v);
        }
        assert(utf16_decode(e) =~= s);
    }
}

/// A string of characters below U+10000 encodes to one code unit per character, each equal
/// to the character's value.
pub proof fn law_utf16_basic_plane(s: Seq<char>)
    requires
        forall|i: int| 0 <= i < s.len() ==> (s[i] as u32) < 0x10000,
    ensures
        utf16_encode(s).len() == s.len(),
        forall|i: int| 0 <= i < s.len() ==> utf16_encode(s)[i] as u32 == s[i] as u32,
    decreases s.len(),
{
    if s.len() > 0 {
        let init = s.drop_last();
        assert forall|i: int| 0 <= i < init.len() implies (init[i] as u32) < 0x10000 by {
            assert(init[i] == s[i]);
        }
        law_utf16_basic_plane(init);
        let last = s.last();
        assert((last as u32) < 0x10000);
        assert(utf16_units(last) =~= seq![last as u32 as u16]);
        assert(utf16_encode(s) =~= utf16_encode(init) + seq![last as u32 as u16]);
        assert forall|i: int| 0 <= i < s.len() implies utf16_encode(s)[i] as u32 == s[i] as u32 by {
            if i < s.len() - 1 {
                assert(init[i] == s[i]);
            }
        }
    }
}

/// The little-endian bytes hold two bytes per code unit, low byte first, and nothing else.
pub proof fn law_le_bytes_pairs(units: Seq<u16>)
    ensures
        le_bytes(units).len() == 2 * units.len(),
        forall|i: int|
            0 <= i < units.len() ==> le_bytes(units)[2 * i] + 256 * le_bytes(units)[2 * i + 1]
                == units[i],
    decreases units.len(),
{
    if units.len() > 0 {
        law_le_bytes_pairs(units.drop_last());
        let n = units.len() - 1;
        assert forall|i: int|
            0 <= i < units.len() implies le_bytes(units)[2 * i] + 256 * le_bytes(units)[2 * i + 1]
                == units[i] by {
            if i < n {
                assert(units.drop_last()[i] == units[i]);
            }
        }
    }
}

} // verus!
