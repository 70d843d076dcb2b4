//! Conversion between native strings and the wide-string representation.

use vstd::prelude::*;
use vstd::std_specs::iter::IteratorSpec;

verus! {

/// The character that stands for a code unit that cannot be decoded.
pub const REPLACEMENT: char = '\u{FFFD}';

/// `String::push` of std: the character is appended at the end of the string
/// and the rest of the string stays as it was.
pub assume_specification[ String::push ](s: &mut String, c: char)
    ensures
        final(s)@ == old(s)@.push(c),
;

/// `char::from_u32` of std: a number is a `char` exactly when it is at most
/// 0x10FFFF and no surrogate code point; any other number gives `None`.
pub assume_specification[ char::from_u32 ](i: u32) -> (r: Option<char>)
    ensures
        is_scalar(i as int) ==> r == Some(i as char),
        !is_scalar(i as int) ==> r is None,
;

/// Whether `v` is a Unicode scalar value.
pub open spec fn is_scalar(v: int) -> bool {
    0 <= v < 0xD800 || 0xE000 <= v <= 0x10FFFF
}

/// Whether `u` is the first unit of a surrogate pair.
pub open spec fn is_high_surrogate(u: u16) -> bool {
    0xD800 <= u <= 0xDBFF
}

/// Whether `u` is the second unit of a surrogate pair.
pub open spec fn is_low_surrogate(u: u16) -> bool {
    0xDC00 <= u <= 0xDFFF
}

/// The scalar value that a surrogate pair stands for.
pub open spec fn pair_value(high: u16, low: u16) -> int {
    0x10000 + (high - 0xD800) * 0x400 + (low - 0xDC00)
}

/// The code units of one character: one unit below 0x10000, else a surrogate pair.
pub open spec fn units_of_char(c: char) -> Seq<u16> {
    let v = c as int;
    if v < 0x10000 {
        seq![v as u16]
    } else {
        seq![(0xD800 + (v - 0x10000) / 0x400) as u16, (0xDC00 + (v - 0x10000) % 0x400) as u16]
    }
}

/// The wide-string form of a sequence of characters.
pub open spec fn encode(chars: Seq<char>) -> Seq<u16>
    decreases chars.len(),
{
    if chars.len() == 0 {
        Seq::empty()
    } else {
        units_of_char(chars[0]) + encode(chars.drop_first())
    }
}

/// The characters that a sequence of code units stands for. A surrogate that
/// is not part of a well-formed pair decodes to the replacement character.
pub open spec fn decode(units: Seq<u16>) -> Seq<char>
    decreases units.len(),
{
    if units.len() == 0 {
        Seq::empty()
    } else if is_high_surrogate(units[0]) && units.len() >= 2 && is_low_surrogate(units[1]) {
        seq![pair_value(units[0], units[1]) as char] + decode(units.skip(2))
    } else if is_high_surrogate(units[0]) || is_low_surrogate(units[0]) {
        seq![REPLACEMENT] + decode(units.skip(1))
    } else {
        seq![units[0] as char] + decode(units.skip(1))
    }
}

/// Encoding distributes over appending one character.
pub proof fn lemma_encode_push(chars: Seq<char>, c: char)
    ensures
        encode(chars.push(c)) == encode(chars) + units_of_char(c),
    decreases chars.len(),
{
    if chars.len() == 0 {
        assert(chars.push(c).drop_first() =~= Seq::<char>::empty());
        assert(encode(chars.push(c)) =~= units_of_char(c) + encode(Seq::<char>::empty()));
        assert(encode(chars.push(c)) =~= encode(chars) + units_of_char(c));
    } else {
        lemma_encode_push(chars.drop_first(), c);
        assert(chars.push(c).drop_first() =~= chars.drop_first().push(c));
        assert(encode(chars.push(c)) =~= encode(chars) + units_of_char(c));
    }
}

/// Decoding the code units of one character followed by `rest` gives that
/// character followed by the decoding of `rest`.
pub proof fn lemma_decode_char(c: char, rest: Seq<u16>)
    ensures
        decode(units_of_char(c) + rest) == seq![c] + decode(rest),
{
    let v = c as int;
    let all = units_of_char(c) + rest;
    if v < 0x10000 {
        assert(all[0] == v as u16);
        assert(all.skip(1) =~= rest);
        assert(all[0] as char == c);
    } else {
        let high = (0xD800 + (v - 0x10000) / 0x400) as u16;
        let low = (0xDC00 + (v - 0x10000) % 0x400) as u16;
        assert(all[0] == high);
        assert(all[1] == low);
        assert(all.skip(2) =~= rest);
        assert(is_high_surrogate(high));
        assert(is_low_surrogate(low));
        assert(pair_value(high, low) == v);
        assert(pair_value(high, low) as char == c);
    }
}

/// Every string survives the way into the wide-string form and back.
pub proof fn lemma_decode_encode(chars: Seq<char>)
    ensures
        decode(encode(chars)) == chars,
    decreases chars.len(),
{
    if chars.len() == 0 {
        assert(decode(encode(chars)) =~= chars);
    } else {
        lemma_decode_encode(chars.drop_first());
        lemma_decode_char(chars[0], encode(chars.drop_first()));
        assert(seq![chars[0]] + chars.drop_first() =~= chars);
    }
}

/// Appends the code units of `c` to `out`.
fn push_units(out: &mut Vec<u16>, c: char)
    ensures
        final(out)@ == old(out)@ + units_of_char(c),
{
    let v: u32 = c as u32;
    if v < 0x10000 {
        out.push(v as u16);
    } else {
        let rest: u32 = v - 0x10000;
        out.push((0xD800 + rest / 0x400) as u16);
        out.push((0xDC00 + rest % 0x400) as u16);
    }
    assert(out@ =~= old(out)@ + units_of_char(c));
}

/// Converts a native string to its wide-string form.
pub fn encode_utf16(s: &str) -> (out: Vec<u16>)
    ensures
        out@ == encode(s@),
{
    let mut out: Vec<u16> = Vec::new();
    let mut it = s.chars();
    let ghost mut n: int = 0;
    assert(s@.take(0) =~= Seq::<char>::empty());
    loop
        invariant
            it.obeys_prophetic_iter_laws(),
            it.decrease() is Some,
            0 <= n <= s@.len(),
            it.remaining() == s@.skip(n),
            out@ == encode(s@.take(n)),
        ensures
            out@ == encode(s@),
        decreases it.decrease()->0,
    {
        let ghost before = it;
        match it.next() {
            Some(c) => {
                proof {
                    vstd::string::next_postcondition(&before, &it, Some(c));
                    lemma_encode_push(s@.take(n), c);
                    assert(s@.take(n).push(c) =~= s@.take(n + 1));
                    assert(s@.skip(n).drop_first() =~= s@.skip(n + 1));
                    n = n + 1;
                }
                push_units(&mut out, c);
            },
            None => {
                proof {
                    vstd::string::next_postcondition(&before, &it, None);
                    assert(s@.take(n) =~= s@);
                }
                break ;
            },
        }
    }
    out
}

/// The character with scalar value `v`.
fn scalar_char(v: u32) -> (c: char)
    requires
        is_scalar(v as int),
    ensures
        c == v as char,
{
    match char::from_u32(v) {
        Some(c) => c,
        None => REPLACEMENT,
    }
}

/// Converts a wide string to a native string. Code units that belong to no
/// well-formed surrogate pair come out as the replacement character.
pub fn decode_utf16(units: &Vec<u16>) -> (out: String)
    ensures
        out@ == decode(units@),
{
    let mut out = String::new();
    let mut i: usize = 0;
    assert(units@.skip(0) =~= units@);
    while i < units.len()
        invariant
            0 <= i <= units.len(),
            out@ + decode(units@.skip(i as int)) == decode(units@),
        decreases units.len() - i,
    {
        let ghost tail = units@.skip(i as int);
        let ghost done = out@;
        let u: u16 = units[i];
        assert(tail[0] == u);
        if 0xD800 <= u && u <= 0xDBFF && i + 1 < units.len() && 0xDC00 <= units[i + 1]
            && units[i + 1] <= 0xDFFF {
            let low: u16 = units[i + 1];
            assert(tail[1] == low);
            let v: u32 = 0x10000 + (u as u32 - 0xD800) * 0x400 + (low as u32 - 0xDC00);
            let c = scalar_char(v);
            out.push(c);
            proof {
                assert(tail.skip(2) =~= units@.skip(i + 2));
                assert(done.push(c) + decode(tail.skip(2)) =~= done + decode(tail));
            }
            i = i + 2;
        } else if 0xD800 <= u && u <= 0xDFFF {
            out.push(REPLACEMENT);
            proof {
                assert(tail.skip(1) =~= units@.skip(i + 1));
                assert(done.push(REPLACEMENT) + decode(tail.skip(1)) =~= done + decode(tail));
            }
            i = i + 1;
        } else {
            let c = scalar_char(u as u32);
            out.push(c);
            proof {
                assert(tail.skip(1) =~= units@.skip(i + 1));
                assert(done.push(c) + decode(tail.skip(1)) =~= done + decode(tail));
            }
            i = i + 1;
        }
    }
    assert(units@.skip(units@.len() as int) =~= Seq::<u16>::empty());
    assert(out@ + Seq::<char>::empty() =~= out@);
    out
}

} // verus!
