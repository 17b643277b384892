//! Wide-character text: validation and decoding of the UTF-16 code-unit
//! buffers the native boundary uses for every string field.
//!
//! A buffer is well-formed when every surrogate code unit belongs to a
//! high-low pair; decoding such a buffer yields the character sequence it
//! denotes, and any other buffer is rejected with a decode error — never a
//! partial result.

use vstd::prelude::*;

use crate::error::Error;

verus! {

/// A code unit opening a surrogate pair.
pub open spec fn is_high_surrogate(u: u16) -> bool {
    0xd800 <= u <= 0xdbff
}

/// A code unit closing a surrogate pair.
pub open spec fn is_low_surrogate(u: u16) -> bool {
    0xdc00 <= u <= 0xdfff
}

/// A code unit that cannot stand for a character on its own.
pub open spec fn is_surrogate(u: u16) -> bool {
    is_high_surrogate(u) || is_low_surrogate(u)
}

/// The Unicode scalar value a surrogate pair stands for.
pub open spec fn combined_scalar(hi: u16, lo: u16) -> u32
    recommends
        is_high_surrogate(hi),
        is_low_surrogate(lo),
{
    (0x10000 + (hi - 0xd800) * 0x400 + (lo - 0xdc00)) as u32
}

/// True when the code-unit sequence is well-formed UTF-16: every high
/// surrogate is followed by a low one, and no low surrogate stands alone.
pub open spec fn wide_ok(units: Seq<u16>) -> bool
    decreases units.len(),
{
    if units.len() == 0 {
        true
    } else if !is_surrogate(units[0]) {
        wide_ok(units.drop_first())
    } else if is_high_surrogate(units[0]) && units.len() >= 2 && is_low_surrogate(units[1]) {
        wide_ok(units.skip(2))
    } else {
        false
    }
}

/// The character sequence a well-formed code-unit sequence denotes: each
/// non-surrogate unit is its own character, each surrogate pair is the
/// character with the combined scalar value.
pub open spec fn wide_decode(units: Seq<u16>) -> Seq<char>
    recommends
        wide_ok(units),
    decreases units.len(),
{
    if units.len() == 0 {
        Seq::empty()
    } else if !is_surrogate(units[0]) {
        seq![(units[0] as u32) as char] + wide_decode(units.drop_first())
    } else if is_high_surrogate(units[0]) && units.len() >= 2 && is_low_surrogate(units[1]) {
        seq![combined_scalar(units[0], units[1]) as char] + wide_decode(units.skip(2))
    } else {
        Seq::empty()
    }
}

/// Relies on char::from_u32: every value below the surrogate range, or
/// above it and at most the greatest code point, is a Unicode scalar value
/// and converts to the character with exactly that value; such inputs never
/// yield `None`, so the unwrap cannot panic.
#[verifier::external_body]
fn char_from_scalar(v: u32) -> (c: char)
    requires
        v < 0xd800 || (0xe000 <= v && v <= 0x10ffff),
    ensures
        c as u32 == v,
{
    char::from_u32(v).unwrap()
}

/// Relies on String::push: appends one character at the end.
#[verifier::external_body]
fn push_char(s: &mut String, c: char)
    ensures
        final(s)@ == old(s)@.push(c),
{
    s.push(c);
}

/// Decodes a wide-character buffer into owned text: the decoded characters
/// exactly when the buffer is well-formed UTF-16, and a decode error —
/// with nothing decoded — when it is not.
#[verifier::loop_isolation(false)]
pub fn decode_wide(units: &Vec<u16>) -> (r: Result<String, Error>)
    ensures
        match r {
            Result::Ok(s) => wide_ok(units@) && s@ == wide_decode(units@),
            Result::Err(e) => !wide_ok(units@) && e == Error::Utf16StringDecode,
        },
{
    let len = units.len();
    let mut out = String::new();
    let mut i: usize = 0;
    proof {
        assert(units@.skip(0) =~= units@);
    }
    while i < len
        invariant
            i <= len,
            wide_ok(units@) == wide_ok(units@.skip(i as int)),
            wide_decode(units@) == out@ + wide_decode(units@.skip(i as int)),
        decreases len - i,
    {
        let ghost suffix: Seq<u16> = units@.skip(i as int);
        let u = units[i];
        assert(u == suffix[0]);
        if u < 0xd800 || u >= 0xe000 {
            let c = char_from_scalar(u as u32);
            proof {
                vstd::utf8::char_u32_cast(c, u as u32);
                assert(suffix.drop_first() =~= units@.skip(i + 1));
            }
            push_char(&mut out, c);
            proof {
                assert(out@ + wide_decode(units@.skip(i + 1)) =~= wide_decode(units@));
            }
            i = i + 1;
        } else if u < 0xdc00 {
            if i + 1 < len {
                let u2 = units[i + 1];
                assert(u2 == suffix[1]);
                if 0xdc00 <= u2 && u2 < 0xe000 {
                    let scalar: u32 = 0x10000 + (((u - 0xd800) as u32) * 0x400) + ((u2 - 0xdc00)
                        as u32);
                    let c = char_from_scalar(scalar);
                    proof {
                        vstd::utf8::char_u32_cast(c, scalar);
                        assert(suffix.skip(2) =~= units@.skip(i + 2));
                    }
                    push_char(&mut out, c);
                    proof {
                        assert(out@ + wide_decode(units@.skip(i + 2)) =~= wide_decode(units@));
                    }
                    i = i + 2;
                } else {
                    return Result::Err(Error::Utf16StringDecode);
                }
            } else {
                return Result::Err(Error::Utf16StringDecode);
            }
        } else {
            return Result::Err(Error::Utf16StringDecode);
        }
    }
    proof {
        assert(units@.skip(len as int) =~= Seq::<u16>::empty());
        assert(out@ + wide_decode(units@.skip(len as int)) =~= out@);
    }
    Result::Ok(out)
}

/// The UTF-16 encoding of one character: the character's own scalar value
/// when it fits one code unit, a surrogate pair otherwise.
pub open spec fn spec_encode_char(c: char) -> Seq<u16> {
    if (c as u32) < 0x10000 {
        seq![(c as u32) as u16]
    } else {
        seq![
            (0xd800 + ((c as u32) - 0x10000) / 0x400) as u16,
            (0xdc00 + ((c as u32) - 0x10000) % 0x400) as u16,
        ]
    }
}

/// The UTF-16 encoding of a character sequence.
pub open spec fn wide_encode(chars: Seq<char>) -> Seq<u16>
    decreases chars.len(),
{
    if chars.len() == 0 {
        Seq::empty()
    } else {
        spec_encode_char(chars[0]) + wide_encode(chars.drop_first())
    }
}

/// Encoding one more character appends that character's encoding.
pub proof fn lemma_wide_encode_push(chars: Seq<char>, c: char)
    ensures
        wide_encode(chars.push(c)) == wide_encode(chars) + spec_encode_char(c),
    decreases chars.len(),
{
    let pushed = chars.push(c);
    if chars.len() == 0 {
        assert(pushed.drop_first() =~= Seq::<char>::empty());
        assert(spec_encode_char(c) + wide_encode(Seq::<char>::empty()) =~= spec_encode_char(c));
        assert(wide_encode(chars) + spec_encode_char(c) =~= spec_encode_char(c));
    } else {
        lemma_wide_encode_push(chars.drop_first(), c);
        assert(pushed.drop_first() =~= chars.drop_first().push(c));
        assert(spec_encode_char(chars[0]) + (wide_encode(chars.drop_first()) + spec_encode_char(c))
            =~= (spec_encode_char(chars[0]) + wide_encode(chars.drop_first()))
            + spec_encode_char(c));
    }
}

/// Encodes text into the wide-character form the native boundary expects:
/// exactly the UTF-16 encoding of the text's characters, in order, without
/// a terminator.
#[verifier::loop_isolation(false)]
pub fn encode_wide(s: &str) -> (r: Vec<u16>)
    ensures
        r@ == wide_encode(s@),
{
    let n = s.unicode_len();
    let mut out: Vec<u16> = Vec::new();
    let mut i: usize = 0;
    proof {
        assert(s@.take(0) =~= Seq::<char>::empty());
    }
    while i < n
        invariant
            i <= n,
            out@ == wide_encode(s@.take(i as int)),
        decreases n - i,
    {
        let c = s.get_char(i);
        let u = c as u32;
        proof {
            vstd::utf8::char_is_scalar(c);
        }
        if u < 0x10000 {
            out.push(u as u16);
        } else {
            out.push((0xd800 + (u - 0x10000) / 0x400) as u16);
            out.push((0xdc00 + (u - 0x10000) % 0x400) as u16);
        }
        proof {
            lemma_wide_encode_push(s@.take(i as int), s@[i as int]);
            assert(s@.take(i + 1) =~= s@.take(i as int).push(s@[i as int]));
            assert(out@ =~= wide_encode(s@.take(i + 1)));
        }
        i = i + 1;
    }
    proof {
        assert(s@.take(n as int) =~= s@);
    }
    out
}

/// Round trip: the encoding of any text is well-formed UTF-16 and decodes
/// back to exactly the characters that were encoded.
pub proof fn lemma_wide_round_trip(chars: Seq<char>)
    ensures
        wide_ok(wide_encode(chars)),
        wide_decode(wide_encode(chars)) == chars,
    decreases chars.len(),
{
    if chars.len() == 0 {
        assert(wide_decode(wide_encode(chars)) =~= chars);
    } else {
        let c = chars[0];
        let u = c as u32;
        vstd::utf8::char_is_scalar(c);
        lemma_wide_round_trip(chars.drop_first());
        let enc = wide_encode(chars);
        let rest = wide_encode(chars.drop_first());
        if u < 0x10000 {
            let unit = (c as u32) as u16;
            assert(unit == u);
            assert(enc.drop_first() =~= rest);
            assert((unit as u32) as char == c) by {
                vstd::utf8::char_u32_cast(c, u);
            }
            assert(wide_decode(enc) =~= seq![c] + wide_decode(rest));
            assert(seq![c] + chars.drop_first() =~= chars);
        } else {
            let x = (u - 0x10000) as int;
            assert(0 <= x <= 0xfffff);
            vstd::arithmetic::div_mod::lemma_fundamental_div_mod(x, 0x400);
            assert(0 <= x % 0x400 < 0x400) by {
                vstd::arithmetic::div_mod::lemma_mod_bound(x, 0x400);
            }
            assert(0 <= x / 0x400 <= 0x3ff) by {
                vstd::arithmetic::div_mod::lemma_div_nonincreasing(x, 0x400);
                vstd::arithmetic::div_mod::lemma_div_is_ordered(x, 0xfffff, 0x400);
                assert(0xfffff as int / 0x400 == 0x3ff);
                vstd::arithmetic::div_mod::lemma_div_pos_is_pos(x, 0x400);
            }
            let hi = (0xd800 + x / 0x400) as u16;
            let lo = (0xdc00 + x % 0x400) as u16;
            assert(enc[0] == hi);
            assert(enc[1] == lo);
            assert(is_high_surrogate(hi));
            assert(is_low_surrogate(lo));
            assert(enc.skip(2) =~= rest);
            assert(combined_scalar(hi, lo) == u);
            assert((combined_scalar(hi, lo)) as char == c) by {
                vstd::utf8::char_u32_cast(c, u);
            }
            assert(wide_decode(enc) =~= seq![c] + wide_decode(rest));
            assert(seq![c] + chars.drop_first() =~= chars);
        }
    }
}

} // verus!
