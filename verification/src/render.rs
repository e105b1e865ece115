//! Building the strings the library shows: ASCII text recovered from
//! wire bytes, and decimal and hexadecimal renderings of numbers.

use vstd::prelude::*;
use vstd::string::StringExecFns;

verus! {

/// The characters of a byte sequence read as ASCII.
pub open spec fn chars_of_bytes(v: Seq<u8>) -> Seq<char> {
    Seq::new(v.len(), |i: int| v[i] as char)
}

/// Relies on `String::push`: appends exactly the one character.
#[verifier::external_body]
fn push_char(s: &mut String, c: char)
    ensures
        final(s)@ == old(s)@.push(c),
{
    s.push(c)
}

/// Turn bytes known to be ASCII into the string of their characters.
pub fn ascii_bytes_to_string(v: &[u8]) -> (r: String)
    requires
        forall|i: int| 0 <= i < v@.len() ==> v@[i] < 0x80,
    ensures
        r@ == chars_of_bytes(v@),
{
    let n = v.len();
    let mut r = String::new();
    let mut i: usize = 0;
    while i < n
        invariant
            n == v@.len(),
            0 <= i <= n,
            forall|j: int| 0 <= j < n ==> v@[j] < 0x80,
            r@ == chars_of_bytes(v@).take(i as int),
        decreases n - i,
    {
        let b = *vstd::slice::slice_index_get(v, i);
        push_char(&mut r, b as char);
        proof {
            assert(r@ =~= chars_of_bytes(v@).take(i + 1));
        }
        i += 1;
    }
    proof {
        assert(chars_of_bytes(v@).take(n as int) =~= chars_of_bytes(v@));
    }
    r
}

/// Relies on `char::from_u32`: `Some` exactly for a Unicode scalar
/// value (at most 0x10FFFF and not a surrogate), preserving the value.
#[verifier::external_body]
fn char_from_u32(u: u32) -> (r: Option<char>)
    ensures
        match r {
            Some(c) => vstd::utf8::is_scalar(u) && c as u32 == u,
            None => !vstd::utf8::is_scalar(u),
        },
{
    char::from_u32(u)
}

/// Decode bytes as UTF-8 text: the string of their decoded characters
/// exactly when they are a valid UTF-8 encoding, and nothing otherwise.
pub fn utf8_bytes_to_string(v: &[u8]) -> (r: Option<String>)
    ensures
        match r {
            Some(s) => vstd::utf8::valid_utf8(v@) && s@ == vstd::utf8::decode_utf8(v@),
            None => !vstd::utf8::valid_utf8(v@),
        },
{
    let n = v.len();
    let mut s = String::new();
    let mut pos: usize = 0;
    proof {
        assert(v@.skip(0) =~= v@);
    }
    while pos < n
        invariant
            n == v@.len(),
            0 <= pos <= n,
            vstd::utf8::valid_utf8(v@) <==> vstd::utf8::valid_utf8(v@.skip(pos as int)),
            vstd::utf8::valid_utf8(v@) ==> s@ + vstd::utf8::decode_utf8(v@.skip(pos as int))
                == vstd::utf8::decode_utf8(v@),
        decreases n - pos,
    {
        let ghost suffix = v@.skip(pos as int);
        proof {
            assert forall|k: int| 0 <= k < suffix.len() implies suffix[k] == v@[pos + k] by {
            }
        }
        let b0 = *vstd::slice::slice_index_get(v, pos);
        // Classify the leading byte, gather the continuation bytes,
        // and compute the codepoint exactly as the decoding rules say.
        let (cp, width): (u32, usize) = if b0 <= 0x7f {
            ((b0 & 0x7f) as u32, 1)
        } else if 0xc0 <= b0 && b0 <= 0xdf {
            if n - pos < 2 {
                proof {
                    assert(!vstd::utf8::valid_first_scalar(suffix));
                }
                return None;
            }
            let b1 = *vstd::slice::slice_index_get(v, pos + 1);
            if !(0x80 <= b1 && b1 <= 0xbf) {
                proof {
                    assert(!vstd::utf8::valid_first_scalar(suffix));
                }
                return None;
            }
            let cp = (((b0 & 0x1f) as u32) << 6) | ((b1 & 0x3f) as u32);
            if !(cp >= 0x80) {
                // An overlong two-byte encoding.
                proof {
                    assert(vstd::utf8::decode_first_codepoint(suffix) == cp);
                    assert(!vstd::utf8::valid_first_scalar(suffix));
                }
                return None;
            }
            (cp, 2)
        } else if 0xe0 <= b0 && b0 <= 0xef {
            if n - pos < 3 {
                proof {
                    assert(!vstd::utf8::valid_first_scalar(suffix));
                }
                return None;
            }
            let b1 = *vstd::slice::slice_index_get(v, pos + 1);
            let b2 = *vstd::slice::slice_index_get(v, pos + 2);
            if !(0x80 <= b1 && b1 <= 0xbf && 0x80 <= b2 && b2 <= 0xbf) {
                proof {
                    assert(!vstd::utf8::valid_first_scalar(suffix));
                }
                return None;
            }
            let cp = (((b0 & 0x0f) as u32) << 12) | (((b1 & 0x3f) as u32) << 6) | ((b2
                & 0x3f) as u32);
            if !(cp >= 0x800 && !(0xd800 <= cp && cp <= 0xdfff)) {
                // An overlong three-byte encoding, or a surrogate.
                proof {
                    assert(vstd::utf8::decode_first_codepoint(suffix) == cp);
                    assert(!vstd::utf8::valid_first_scalar(suffix));
                }
                return None;
            }
            (cp, 3)
        } else if 0xf0 <= b0 && b0 <= 0xf7 {
            if n - pos < 4 {
                proof {
                    assert(!vstd::utf8::valid_first_scalar(suffix));
                }
                return None;
            }
            let b1 = *vstd::slice::slice_index_get(v, pos + 1);
            let b2 = *vstd::slice::slice_index_get(v, pos + 2);
            let b3 = *vstd::slice::slice_index_get(v, pos + 3);
            if !(0x80 <= b1 && b1 <= 0xbf && 0x80 <= b2 && b2 <= 0xbf && 0x80 <= b3 && b3
                <= 0xbf) {
                proof {
                    assert(!vstd::utf8::valid_first_scalar(suffix));
                }
                return None;
            }
            let cp = (((b0 & 0x07) as u32) << 18) | (((b1 & 0x3f) as u32) << 12) | (((b2
                & 0x3f) as u32) << 6) | ((b3 & 0x3f) as u32);
            if !(cp >= 0x10000 && cp <= 0x10ffff) {
                // An overlong four-byte encoding, or past the last scalar.
                proof {
                    assert(vstd::utf8::decode_first_codepoint(suffix) == cp);
                    assert(!vstd::utf8::valid_first_scalar(suffix));
                }
                return None;
            }
            (cp, 4)
        } else {
            // A continuation byte, or a byte no encoding starts with.
            proof {
                assert(!vstd::utf8::valid_first_scalar(suffix));
            }
            return None;
        };
        proof {
            if width == 1 {
                assert((b0 & 0x7f) <= 0x7f) by (bit_vector);
                assert(b0 <= 0x7f ==> (b0 & 0x7f) == b0) by (bit_vector);
            }
            if width == 2 {
                let b1 = v@[pos + 1];
                assert(((((b0 & 0x1f) as u32) << 6) | ((b1 & 0x3f) as u32)) <= 0x7ff)
                    by (bit_vector);
            }
            if width == 3 {
                let b1 = v@[pos + 1];
                let b2 = v@[pos + 2];
                assert(((((b0 & 0x0f) as u32) << 12) | (((b1 & 0x3f) as u32) << 6) | ((b2
                    & 0x3f) as u32)) <= 0xffff) by (bit_vector);
            }
            assert(vstd::utf8::valid_first_scalar(suffix));
            assert(vstd::utf8::decode_first_codepoint(suffix) == cp);
            assert(vstd::utf8::length_of_first_scalar(suffix) == width);
            assert(vstd::utf8::is_scalar(cp));
        }
        let c = match char_from_u32(cp) {
            Some(c) => c,
            None => {
                proof {
                    assert(false);
                }
                return None;
            },
        };
        push_char(&mut s, c);
        proof {
            vstd::utf8::char_u32_cast(c, cp);
            assert(vstd::utf8::pop_first_scalar(suffix) =~= v@.skip(pos + width));
            if vstd::utf8::valid_utf8(v@) {
                assert(vstd::utf8::decode_utf8(suffix) == seq![c] + vstd::utf8::decode_utf8(
                    v@.skip(pos + width),
                ));
                assert(s@ + vstd::utf8::decode_utf8(v@.skip(pos + width))
                    =~= vstd::utf8::decode_utf8(v@));
            }
        }
        pos += width;
    }
    proof {
        assert(v@.skip(n as int) =~= Seq::<u8>::empty());
        assert(vstd::utf8::valid_utf8(v@));
        assert(s@ =~= vstd::utf8::decode_utf8(v@));
    }
    Some(s)
}

/// The character for one decimal digit.
pub open spec fn spec_digit(d: int) -> char {
    ((0x30 + d) as u8) as char
}

/// The decimal digits of `n`, most significant first.
pub open spec fn spec_dec(n: nat) -> Seq<char>
    decreases n,
{
    if n < 10 {
        seq![spec_digit(n as int)]
    } else {
        spec_dec(n / 10).push(spec_digit((n % 10) as int))
    }
}

/// Append the decimal rendering of `n`.
pub fn push_dec(s: &mut String, n: u64)
    ensures
        final(s)@ == old(s)@ + spec_dec(n as nat),
    decreases n,
{
    if n >= 10 {
        push_dec(s, n / 10);
    }
    let d: u8 = (n % 10) as u8;
    push_char(s, (0x30 + d) as char);
    assert(s@ =~= old(s)@ + spec_dec(n as nat));
}

/// The character for one hexadecimal digit, upper case.
pub open spec fn spec_hex_digit(d: int) -> char {
    if d < 10 {
        ((0x30 + d) as u8) as char
    } else {
        ((0x37 + d) as u8) as char
    }
}

/// The rendering of `n` as `0x` and eight upper-case hex digits.
pub open spec fn spec_hex8(n: u32) -> Seq<char> {
    seq![
        '0',
        'x',
        spec_hex_digit((n / 0x10000000) as int),
        spec_hex_digit((n / 0x1000000 % 16) as int),
        spec_hex_digit((n / 0x100000 % 16) as int),
        spec_hex_digit((n / 0x10000 % 16) as int),
        spec_hex_digit((n / 0x1000 % 16) as int),
        spec_hex_digit((n / 0x100 % 16) as int),
        spec_hex_digit((n / 0x10 % 16) as int),
        spec_hex_digit((n % 16) as int),
    ]
}

fn hex_digit(d: u8) -> (c: char)
    requires
        d < 16,
    ensures
        c == spec_hex_digit(d as int),
{
    if d < 10 {
        (0x30 + d) as char
    } else {
        (0x37 + d) as char
    }
}

/// Append the rendering of `n` as `0x` and eight hex digits.
pub fn push_hex8(s: &mut String, n: u32)
    ensures
        final(s)@ == old(s)@ + spec_hex8(n),
{
    push_char(s, '0');
    push_char(s, 'x');
    push_char(s, hex_digit((n / 0x10000000) as u8));
    push_char(s, hex_digit((n / 0x1000000 % 16) as u8));
    push_char(s, hex_digit((n / 0x100000 % 16) as u8));
    push_char(s, hex_digit((n / 0x10000 % 16) as u8));
    push_char(s, hex_digit((n / 0x1000 % 16) as u8));
    push_char(s, hex_digit((n / 0x100 % 16) as u8));
    push_char(s, hex_digit((n / 0x10 % 16) as u8));
    push_char(s, hex_digit((n % 16) as u8));
    assert(s@ =~= old(s)@ + spec_hex8(n));
}

/// Append a string slice.
pub fn push_str(s: &mut String, t: &str)
    ensures
        final(s)@ == old(s)@ + t@,
{
    s.append(t);
}

} // verus!
