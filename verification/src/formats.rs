//! Primitive wire formats: unsigned big-endian integers, C-octet
//! strings (NUL-terminated ASCII with a maximum length) and raw octet
//! strings with an explicit length.  Every read works on a byte slice
//! restricted to `[pos, end)` and reports where it stopped; every write
//! appends to a byte buffer.

use vstd::prelude::*;
use vstd::slice::slice_index_get;
use vstd::string::StrSliceExecFns;
use vstd::string::StringSliceAdditionalSpecFns;

use crate::pduparseerror::{ErrBodyV, ErrV, PduParseError, PduParseErrorBody};

verus! {

/// The big-endian value of four bytes.
pub open spec fn spec_be32(b0: u8, b1: u8, b2: u8, b3: u8) -> u32 {
    (b0 * 0x1000000 + b1 * 0x10000 + b2 * 0x100 + b3) as u32
}

/// The four big-endian bytes of a value.
pub open spec fn spec_u32_bytes(n: u32) -> Seq<u8> {
    seq![
        (n / 0x1000000) as u8,
        ((n / 0x10000) % 0x100) as u8,
        ((n / 0x100) % 0x100) as u8,
        (n % 0x100) as u8,
    ]
}

/// Reading back the four bytes of `n` yields `n`.
pub proof fn lemma_be32_roundtrip(n: u32)
    ensures
        spec_be32(
            spec_u32_bytes(n)[0],
            spec_u32_bytes(n)[1],
            spec_u32_bytes(n)[2],
            spec_u32_bytes(n)[3],
        ) == n,
{
    assert(spec_be32(
        (n / 0x1000000) as u8,
        ((n / 0x10000) % 0x100) as u8,
        ((n / 0x100) % 0x100) as u8,
        (n % 0x100) as u8,
    ) == n) by (nonlinear_arith);
}

/// An unsigned one-octet integer, SMPP v3.4 specification, section 3.1.
#[derive(Debug, PartialEq, Eq, Structural, Clone, Copy)]
pub struct Integer1 {
    pub value: u8,
}

impl Integer1 {
    pub fn new(value: u8) -> (r: Integer1)
        ensures
            r.value == value,
    {
        Integer1 { value }
    }

    /// Read one byte at `pos`, not reaching `end`.
    pub fn read(bytes: &[u8], pos: usize, end: usize) -> (r: Result<(Integer1, usize), PduParseError>)
        requires
            end <= bytes@.len(),
        ensures
            match r {
                Ok((v, n)) => pos + 1 <= end && n == pos + 1 && v.value == bytes@[pos as int],
                Err(e) => pos + 1 > end && e@ == ErrV::plain(ErrBodyV::NotEnoughBytes),
            },
    {
        if pos < end {
            Ok((Integer1 { value: *slice_index_get(bytes, pos) }, pos + 1))
        } else {
            Err(PduParseError::new(PduParseErrorBody::NotEnoughBytes))
        }
    }

    /// Append this value's one byte.
    pub fn write(&self, buf: &mut Vec<u8>)
        ensures
            final(buf)@ == old(buf)@.push(self.value),
    {
        buf.push(self.value);
    }
}

/// An unsigned four-octet integer, transmitted most significant byte
/// first, SMPP v3.4 specification, section 3.1.
#[derive(Debug, PartialEq, Eq, Structural, Clone, Copy)]
pub struct Integer4 {
    pub value: u32,
}

impl Integer4 {
    pub fn new(value: u32) -> (r: Integer4)
        ensures
            r.value == value,
    {
        Integer4 { value }
    }

    /// Read four big-endian bytes at `pos`, not reaching `end`.
    pub fn read(bytes: &[u8], pos: usize, end: usize) -> (r: Result<(Integer4, usize), PduParseError>)
        requires
            end <= bytes@.len(),
        ensures
            match r {
                Ok((v, n)) => pos + 4 <= end && n == pos + 4 && v.value == spec_be32(
                    bytes@[pos as int],
                    bytes@[pos + 1],
                    bytes@[pos + 2],
                    bytes@[pos + 3],
                ),
                Err(e) => pos + 4 > end && e@ == ErrV::plain(ErrBodyV::NotEnoughBytes),
            },
    {
        if pos < end && end - pos >= 4 {
            let b0 = *slice_index_get(bytes, pos);
            let b1 = *slice_index_get(bytes, pos + 1);
            let b2 = *slice_index_get(bytes, pos + 2);
            let b3 = *slice_index_get(bytes, pos + 3);
            let value = (b0 as u32) * 0x1000000 + (b1 as u32) * 0x10000 + (b2 as u32) * 0x100
                + (b3 as u32);
            Ok((Integer4 { value }, pos + 4))
        } else {
            Err(PduParseError::new(PduParseErrorBody::NotEnoughBytes))
        }
    }

    /// Append this value's four big-endian bytes.
    pub fn write(&self, buf: &mut Vec<u8>)
        ensures
            final(buf)@ == old(buf)@ + spec_u32_bytes(self.value),
    {
        let n = self.value;
        buf.push((n / 0x1000000) as u8);
        buf.push((n / 0x10000 % 0x100) as u8);
        buf.push((n / 0x100 % 0x100) as u8);
        buf.push((n % 0x100) as u8);
        assert(buf@ =~= old(buf)@ + spec_u32_bytes(self.value));
    }
}

/// The first position in `[pos, end)` holding a NUL byte.
pub open spec fn find_nul(b: Seq<u8>, pos: int, end: int) -> Option<int>
    decreases end - pos,
{
    if pos < 0 || pos >= end || end > b.len() {
        None
    } else if b[pos] == 0 {
        Some(pos)
    } else {
        find_nul(b, pos + 1, end)
    }
}

/// The first position in `[pos, end)` holding a byte outside ASCII.
pub open spec fn find_nonascii(b: Seq<u8>, pos: int, end: int) -> Option<int>
    decreases end - pos,
{
    if pos < 0 || pos >= end || end > b.len() {
        None
    } else if b[pos] >= 0x80 {
        Some(pos)
    } else {
        find_nonascii(b, pos + 1, end)
    }
}

/// Scanning may start after any prefix known to hold no NUL.
pub proof fn lemma_find_nul_skip(b: Seq<u8>, pos: int, mid: int, end: int)
    requires
        0 <= pos <= mid <= end <= b.len(),
        forall|j: int| pos <= j < mid ==> b[j] != 0,
    ensures
        find_nul(b, pos, end) == find_nul(b, mid, end),
    decreases mid - pos,
{
    if pos < mid {
        lemma_find_nul_skip(b, pos + 1, mid, end);
    }
}

/// Scanning may start after any prefix known to be ASCII.
pub proof fn lemma_find_nonascii_skip(b: Seq<u8>, pos: int, mid: int, end: int)
    requires
        0 <= pos <= mid <= end <= b.len(),
        forall|j: int| pos <= j < mid ==> b[j] < 0x80,
    ensures
        find_nonascii(b, pos, end) == find_nonascii(b, mid, end),
    decreases mid - pos,
{
    if pos < mid {
        lemma_find_nonascii_skip(b, pos + 1, mid, end);
    }
}

/// What reading a C-octet string from a byte view yields.
pub enum CoReadV {
    /// The value's bytes (without the NUL) and the position just past
    /// the NUL.
    Value(Seq<u8>, int),
    /// `max` bytes were available and scanned without finding a NUL.
    TooLong,
    /// The readable window ended, short of `max`, without a NUL.
    DoesNotEndWithNul,
    /// A byte outside ASCII stands at this offset from the value's start.
    NotAscii(int),
}

/// Read a C-octet string from `b` at `pos`, staying inside `[pos, end)`
/// and scanning at most `max` bytes: the value runs to the first NUL,
/// must fall inside the window, and must be ASCII.
pub open spec fn spec_read_coctet(b: Seq<u8>, pos: int, end: int, max: int) -> CoReadV {
    let wend = if pos + max <= end {
        pos + max
    } else {
        end
    };
    match find_nul(b, pos, wend) {
        Some(i) => match find_nonascii(b, pos, i) {
            Some(j) => CoReadV::NotAscii(j - pos),
            None => CoReadV::Value(b.subrange(pos, i), i + 1),
        },
        None => if pos + max <= end {
            CoReadV::TooLong
        } else {
            CoReadV::DoesNotEndWithNul
        },
    }
}

/// A series of ASCII characters terminated with the NUL character,
/// SMPP v3.4 specification, section 3.1.  The stored value excludes the terminator.
#[derive(Debug, PartialEq, Clone)]
pub struct COctetString {
    pub value: Vec<u8>,
}

impl View for COctetString {
    type V = Seq<u8>;

    open spec fn view(&self) -> Seq<u8> {
        self.value@
    }
}

/// The bytes a C-octet string value occupies on the wire.
pub open spec fn coctet_wire(v: Seq<u8>) -> Seq<u8> {
    v.push(0)
}

/// A byte a C-octet string may hold: ASCII and not the terminator.
pub open spec fn coctet_byte_ok(b: u8) -> bool {
    b != 0 && b < 0x80
}

/// All bytes of a sequence are ones a C-octet string may hold.
pub open spec fn coctet_bytes_ok(v: Seq<u8>) -> bool {
    forall|i: int| 0 <= i < v.len() ==> coctet_byte_ok(#[trigger] v[i])
}

impl COctetString {
    /// All stored bytes are ASCII and none is a NUL.
    pub open spec fn wf(self) -> bool {
        coctet_bytes_ok(self@)
    }

    /// Well-formed and short enough for a field whose maximum length,
    /// terminator included, is `max`.
    pub open spec fn wf_max(self, max: int) -> bool {
        self.wf() && self@.len() + 1 <= max
    }

    /// Build from a string slice known to fit the field.
    pub fn new(value: &str, max_len: usize) -> (r: COctetString)
        requires
            coctet_bytes_ok(value.spec_bytes()),
            value.spec_bytes().len() + 1 <= max_len,
        ensures
            r@ == value.spec_bytes(),
            r.wf_max(max_len as int),
    {
        COctetString { value: value.as_bytes_vec() }
    }

    /// Build from a string slice, rejecting what could not appear in
    /// the field: a byte outside ASCII or a NUL (reported with the
    /// count of acceptable leading bytes), or a value too long for the
    /// field's maximum length `max_len`, terminator included.
    pub fn from_str(value: &str, max_len: usize) -> (r: Result<COctetString, PduParseError>)
        ensures
            match r {
                Ok(v) => v@ == value.spec_bytes() && coctet_bytes_ok(value.spec_bytes())
                    && value.spec_bytes().len() + 1 <= max_len && v.wf_max(max_len as int),
                Err(e) => match find_bad_coctet_byte(value.spec_bytes(), 0) {
                    Some(j) => e@ == ErrV::plain(ErrBodyV::COctetStringNotAscii(#[verifier::truncate] (j as u32))),
                    None => value.spec_bytes().len() + 1 > max_len && e@ == ErrV::plain(
                        ErrBodyV::COctetStringTooLong(max_len as nat),
                    ),
                },
            },
    {
        let bytes = value.as_bytes_vec();
        let n = bytes.len();
        let mut i: usize = 0;
        while i < n
            invariant
                bytes@ == value.spec_bytes(),
                n == bytes@.len(),
                0 <= i <= n,
                forall|j: int| 0 <= j < i ==> coctet_byte_ok(#[trigger] bytes@[j]),
            decreases n - i,
        {
            let b = bytes[i];
            if b == 0 || b >= 0x80 {
                proof {
                    lemma_find_bad_coctet_byte_skip(bytes@, 0, i as int);
                }
                return Err(PduParseError::new(PduParseErrorBody::COctetStringNotAscii(
                    #[verifier::truncate] (i as u32),
                )));
            }
            i += 1;
        }
        proof {
            lemma_find_bad_coctet_byte_skip(bytes@, 0, n as int);
        }
        if n >= max_len {
            return Err(PduParseError::new(PduParseErrorBody::COctetStringTooLong(max_len)));
        }
        Ok(COctetString { value: bytes })
    }

    /// Read a C-octet string whose maximum length, terminator
    /// included, is `max_len`.
    pub fn read(bytes: &[u8], pos: usize, end: usize, max_len: usize) -> (r: Result<
        (COctetString, usize),
        PduParseError,
    >)
        requires
            pos <= end <= bytes@.len(),
        ensures
            ({
                let sr = spec_read_coctet(bytes@, pos as int, end as int, max_len as int);
                match r {
                    Ok((v, n)) => sr matches CoReadV::Value(s, n2) && v@ == s && n == n2
                        && v.wf_max(max_len as int) && pos <= n <= end,
                    Err(e) => match sr {
                        CoReadV::TooLong => e@ == ErrV::plain(
                            ErrBodyV::COctetStringTooLong(max_len as nat),
                        ),
                        CoReadV::DoesNotEndWithNul => e@ == ErrV::plain(
                            ErrBodyV::COctetStringDoesNotEndWithNul,
                        ),
                        CoReadV::NotAscii(j) => e@ == ErrV::plain(
                            ErrBodyV::COctetStringNotAscii(#[verifier::truncate] (j as u32)),
                        ),
                        CoReadV::Value(_, _) => false,
                    },
                }
            }),
    {
        let wend: usize = if end - pos >= max_len {
            pos + max_len
        } else {
            end
        };
        let mut i: usize = pos;
        while i < wend && *slice_index_get(bytes, i) != 0
            invariant
                pos <= i <= wend <= end <= bytes@.len(),
                forall|j: int| pos <= j < i ==> bytes@[j] != 0,
            decreases wend - i,
        {
            i += 1;
        }
        proof {
            lemma_find_nul_skip(bytes@, pos as int, i as int, wend as int);
        }
        if i >= wend {
            // No NUL inside the window.
            if end - pos >= max_len {
                return Err(PduParseError::new(PduParseErrorBody::COctetStringTooLong(max_len)));
            } else {
                return Err(PduParseError::new(PduParseErrorBody::COctetStringDoesNotEndWithNul));
            }
        }
        // bytes[i] is the NUL; check that the value before it is ASCII.
        let mut k: usize = pos;
        while k < i && *slice_index_get(bytes, k) < 0x80
            invariant
                pos <= k <= i,
                i < wend <= end <= bytes@.len(),
                forall|j: int| pos <= j < k ==> bytes@[j] < 0x80,
            decreases i - k,
        {
            k += 1;
        }
        proof {
            lemma_find_nonascii_skip(bytes@, pos as int, k as int, i as int);
        }
        if k < i {
            // Non-ASCII byte at offset k - pos from the value's start.
            let off = k - pos;
            return Err(PduParseError::new(PduParseErrorBody::COctetStringNotAscii(
                #[verifier::truncate] (off as u32),
            )));
        }
        let value = vstd::slice::slice_to_vec(vstd::slice::slice_subrange(bytes, pos, i));
        Ok((COctetString { value }, i + 1))
    }

    /// Append the value's bytes and the NUL terminator.
    pub fn write(&self, buf: &mut Vec<u8>)
        ensures
            final(buf)@ == old(buf)@ + coctet_wire(self@),
    {
        buf.extend_from_slice(self.value.as_slice());
        buf.push(0);
        assert(buf@ =~= old(buf)@ + coctet_wire(self@));
    }

    /// The stored length, without the NUL terminator.
    pub fn len(&self) -> (r: usize)
        ensures
            r == self@.len(),
    {
        self.value.len()
    }
}

/// The first position at or after `pos` whose byte a C-octet string
/// could not hold.
pub open spec fn find_bad_coctet_byte(b: Seq<u8>, pos: int) -> Option<int>
    decreases b.len() - pos,
{
    if pos < 0 || pos >= b.len() {
        None
    } else if !coctet_byte_ok(b[pos]) {
        Some(pos)
    } else {
        find_bad_coctet_byte(b, pos + 1)
    }
}

/// Scanning may start after any prefix of acceptable bytes.
pub proof fn lemma_find_bad_coctet_byte_skip(b: Seq<u8>, pos: int, mid: int)
    requires
        0 <= pos <= mid <= b.len(),
        forall|j: int| pos <= j < mid ==> coctet_byte_ok(#[trigger] b[j]),
    ensures
        find_bad_coctet_byte(b, pos) == find_bad_coctet_byte(b, mid),
    decreases mid - pos,
{
    if pos < mid {
        lemma_find_bad_coctet_byte_skip(b, pos + 1, mid);
    }
}

/// Read a named C-octet string field: the primitive read with the
/// field's name attached to any failure.
pub open spec fn spec_read_co_field(b: Seq<u8>, pos: int, end: int, max: int, field: Seq<char>) -> Result<
    (Seq<u8>, int),
    ErrV,
> {
    match spec_read_coctet(b, pos, end, max) {
        CoReadV::Value(s, n) => Ok((s, n)),
        CoReadV::TooLong => Err(
            ErrV::plain(ErrBodyV::COctetStringTooLong(max as nat)).with_field(field),
        ),
        CoReadV::DoesNotEndWithNul => Err(
            ErrV::plain(ErrBodyV::COctetStringDoesNotEndWithNul).with_field(field),
        ),
        CoReadV::NotAscii(j) => Err(
            ErrV::plain(
                ErrBodyV::COctetStringNotAscii(#[verifier::truncate] (j as u32)),
            ).with_field(field),
        ),
    }
}

/// Read a named one-octet integer field.
pub open spec fn spec_read_u8_field(b: Seq<u8>, pos: int, end: int, field: Seq<char>) -> Result<
    (u8, int),
    ErrV,
> {
    if pos + 1 <= end {
        Ok((b[pos], pos + 1))
    } else {
        Err(ErrV::plain(ErrBodyV::NotEnoughBytes).with_field(field))
    }
}

/// Read a named four-octet big-endian integer field.
pub open spec fn spec_read_u32_field(b: Seq<u8>, pos: int, end: int, field: Seq<char>) -> Result<
    (u32, int),
    ErrV,
> {
    if pos + 4 <= end {
        Ok((spec_be32(b[pos], b[pos + 1], b[pos + 2], b[pos + 3]), pos + 4))
    } else {
        Err(ErrV::plain(ErrBodyV::NotEnoughBytes).with_field(field))
    }
}

/// Build a C-octet string value from a string slice's bytes: reject a
/// byte no C-octet string may hold, then a value too long for `max`.
pub open spec fn spec_co_from_str(s: Seq<u8>, max: int, field: Seq<char>) -> Result<Seq<u8>, ErrV> {
    match find_bad_coctet_byte(s, 0) {
        Some(j) => Err(
            ErrV::plain(
                ErrBodyV::COctetStringNotAscii(#[verifier::truncate] (j as u32)),
            ).with_field(field),
        ),
        None => if s.len() + 1 > max {
            Err(ErrV::plain(ErrBodyV::COctetStringTooLong(max as nat)).with_field(field))
        } else {
            Ok(s)
        },
    }
}

/// Finding the first non-ASCII byte inside a window of `b` is finding
/// it inside the equal standalone sequence, shifted.
pub proof fn lemma_find_nonascii_shift(b: Seq<u8>, pos: int, v: Seq<u8>, k: int)
    requires
        0 <= pos,
        pos + v.len() <= b.len(),
        b.subrange(pos, pos + v.len()) == v,
        0 <= k <= v.len(),
    ensures
        find_nonascii(b, pos + k, pos + v.len()) == match find_nonascii(v, k, v.len() as int) {
            Some(j) => Some(j + pos),
            None => None::<int>,
        },
    decreases v.len() - k,
{
    if k < v.len() {
        assert(b[pos + k] == v[k]);
        lemma_find_nonascii_shift(b, pos, v, k + 1);
    }
}

/// Reading a well-formed C-octet string's wire bytes yields the value
/// back and stops just past its NUL terminator.
pub proof fn lemma_read_coctet_wire(b: Seq<u8>, pos: int, end: int, max: int, v: Seq<u8>)
    requires
        coctet_bytes_ok(v),
        v.len() + 1 <= max,
        0 <= pos,
        pos + v.len() + 1 <= end <= b.len(),
        b.subrange(pos, pos + v.len() + 1) == coctet_wire(v),
    ensures
        spec_read_coctet(b, pos, end, max) == CoReadV::Value(v, pos + v.len() + 1),
{
    let vlen = v.len() as int;
    let wend = if pos + max <= end {
        pos + max
    } else {
        end
    };
    assert forall|j: int| pos <= j < pos + vlen implies b[j] != 0 by {
        assert(b[j] == coctet_wire(v)[j - pos]);
    }
    assert(b[pos + vlen] == coctet_wire(v)[vlen]);
    assert(pos + vlen < wend);
    lemma_find_nul_skip(b, pos, pos + vlen, wend);
    assert(find_nul(b, pos, wend) == Some(pos + vlen));
    assert forall|j: int| pos <= j < pos + vlen implies b[j] < 0x80 by {
        assert(b[j] == coctet_wire(v)[j - pos]);
    }
    lemma_find_nonascii_skip(b, pos, pos + vlen, pos + vlen);
    assert(find_nonascii(b, pos, pos + vlen) is None);
    assert(b.subrange(pos, pos + vlen) =~= v);
}

/// A window of `max` bytes holding no NUL reads as `TooLong`.
pub proof fn lemma_read_coctet_too_long(b: Seq<u8>, pos: int, end: int, max: int)
    requires
        0 <= pos,
        0 <= max,
        pos + max <= end <= b.len(),
        forall|j: int| pos <= j < pos + max ==> b[j] != 0,
    ensures
        spec_read_coctet(b, pos, end, max) == CoReadV::TooLong,
{
    lemma_find_nul_skip(b, pos, pos + max, pos + max);
}

/// The wire bytes of a NUL-free value holding a non-ASCII byte read as
/// `NotAscii`, reporting how many leading bytes were acceptable.
pub proof fn lemma_read_coctet_not_ascii(b: Seq<u8>, pos: int, end: int, max: int, v: Seq<u8>, j: int)
    requires
        forall|i: int| 0 <= i < v.len() ==> v[i] != 0,
        find_nonascii(v, 0, v.len() as int) == Some(j),
        v.len() + 1 <= max,
        0 <= pos,
        pos + v.len() + 1 <= end <= b.len(),
        b.subrange(pos, pos + v.len() + 1) == coctet_wire(v),
    ensures
        spec_read_coctet(b, pos, end, max) == CoReadV::NotAscii(j),
{
    let vlen = v.len() as int;
    let wend = if pos + max <= end {
        pos + max
    } else {
        end
    };
    assert forall|i: int| pos <= i < pos + vlen implies b[i] != 0 by {
        assert(b[i] == coctet_wire(v)[i - pos]);
    }
    assert(b[pos + vlen] == coctet_wire(v)[vlen]);
    assert(pos + vlen < wend);
    lemma_find_nul_skip(b, pos, pos + vlen, wend);
    assert(find_nul(b, pos, wend) == Some(pos + vlen));
    assert(b.subrange(pos, pos + vlen) =~= v);
    lemma_find_nonascii_shift(b, pos, v, 0);
    assert(find_nonascii(b, pos, pos + vlen) == Some(j + pos));
}

/// Where the NUL scan stops, when it finds one.
pub proof fn lemma_find_nul_bounds(b: Seq<u8>, pos: int, end: int)
    ensures
        find_nul(b, pos, end) matches Some(i) ==> pos <= i < end <= b.len(),
    decreases end - pos,
{
    if 0 <= pos && pos < end && end <= b.len() && b[pos] != 0 {
        lemma_find_nul_bounds(b, pos + 1, end);
    }
}

/// The NUL scan reads only the window: equal windows scan equally.
pub proof fn lemma_find_nul_congruent(b1: Seq<u8>, b2: Seq<u8>, pos: int, end: int)
    requires
        end <= b1.len(),
        end <= b2.len(),
        forall|i: int| pos <= i < end ==> b1[i] == b2[i],
    ensures
        find_nul(b1, pos, end) == find_nul(b2, pos, end),
    decreases end - pos,
{
    if 0 <= pos && pos < end {
        lemma_find_nul_congruent(b1, b2, pos + 1, end);
    }
}

/// The ASCII scan reads only the window: equal windows scan equally.
pub proof fn lemma_find_nonascii_congruent(b1: Seq<u8>, b2: Seq<u8>, pos: int, end: int)
    requires
        end <= b1.len(),
        end <= b2.len(),
        forall|i: int| pos <= i < end ==> b1[i] == b2[i],
    ensures
        find_nonascii(b1, pos, end) == find_nonascii(b2, pos, end),
    decreases end - pos,
{
    if 0 <= pos && pos < end {
        lemma_find_nonascii_congruent(b1, b2, pos + 1, end);
    }
}

/// Where a successful C-octet string read stops.
pub proof fn lemma_read_coctet_bounds(b: Seq<u8>, pos: int, end: int, max: int)
    requires
        0 <= pos <= end <= b.len(),
    ensures
        spec_read_coctet(b, pos, end, max) matches CoReadV::Value(s, n) ==> pos < n <= end && s
            == b.subrange(pos, n - 1),
{
    let wend = if pos + max <= end {
        pos + max
    } else {
        end
    };
    lemma_find_nul_bounds(b, pos, wend);
}

/// A C-octet string read touches only its window: reading from two
/// buffers that agree on `[pos, end)` yields the same outcome.
pub proof fn lemma_read_coctet_congruent(b1: Seq<u8>, b2: Seq<u8>, pos: int, end: int, max: int)
    requires
        0 <= pos <= end,
        end <= b1.len(),
        end <= b2.len(),
        forall|i: int| pos <= i < end ==> b1[i] == b2[i],
    ensures
        spec_read_coctet(b1, pos, end, max) == spec_read_coctet(b2, pos, end, max),
{
    let wend = if pos + max <= end {
        pos + max
    } else {
        end
    };
    if pos <= wend {
        lemma_find_nul_congruent(b1, b2, pos, wend);
        lemma_find_nul_bounds(b1, pos, wend);
        match find_nul(b1, pos, wend) {
            Some(i) => {
                lemma_find_nonascii_congruent(b1, b2, pos, i);
                assert(b1.subrange(pos, i) =~= b2.subrange(pos, i));
            },
            None => {
            },
        }
    }
}

/// No bad byte is found from `pos` on exactly when every byte from
/// `pos` on is acceptable.
pub proof fn lemma_find_bad_none(b: Seq<u8>, pos: int)
    requires
        0 <= pos <= b.len(),
    ensures
        (find_bad_coctet_byte(b, pos) is None) <==> (forall|j: int|
            pos <= j < b.len() ==> coctet_byte_ok(#[trigger] b[j])),
    decreases b.len() - pos,
{
    if pos < b.len() {
        lemma_find_bad_none(b, pos + 1);
    }
}

/// A raw octet string: bytes preceded elsewhere by an explicit length,
/// with no terminator, SMPP v3.4 specification, section 3.1.
#[derive(Debug, PartialEq, Clone)]
pub struct OctetString {
    pub value: Vec<u8>,
}

impl View for OctetString {
    type V = Seq<u8>;

    open spec fn view(&self) -> Seq<u8> {
        self.value@
    }
}

impl OctetString {
    /// Build from bytes, rejecting a value longer than `max_len`.
    pub fn from_bytes(value: &[u8], max_len: usize) -> (r: Result<OctetString, PduParseError>)
        ensures
            match r {
                Ok(v) => v@ == value@ && value@.len() <= max_len,
                Err(e) => value@.len() > max_len && e@ == ErrV::plain(
                    ErrBodyV::COctetStringTooLong(max_len as nat),
                ),
            },
    {
        if value.len() > max_len {
            Err(PduParseError::new(PduParseErrorBody::COctetStringTooLong(max_len)))
        } else {
            Ok(OctetString { value: vstd::slice::slice_to_vec(value) })
        }
    }

    /// Read exactly `declared_len` bytes; `declared_len` must not
    /// exceed `max_len`, and the window must hold that many bytes.
    pub fn read(bytes: &[u8], pos: usize, end: usize, declared_len: usize, max_len: usize) -> (r:
        Result<(OctetString, usize), PduParseError>)
        requires
            pos <= end <= bytes@.len(),
        ensures
            match r {
                Ok((v, n)) => declared_len <= max_len && pos + declared_len <= end && n == pos
                    + declared_len && v@ == bytes@.subrange(pos as int, pos + declared_len),
                Err(e) => if declared_len > max_len {
                    e@ == ErrV::plain(ErrBodyV::COctetStringTooLong(max_len as nat))
                } else {
                    pos + declared_len > end && e@ == ErrV::plain(ErrBodyV::NotEnoughBytes)
                },
            },
    {
        if declared_len > max_len {
            Err(PduParseError::new(PduParseErrorBody::COctetStringTooLong(max_len)))
        } else if end - pos < declared_len {
            Err(PduParseError::new(PduParseErrorBody::NotEnoughBytes))
        } else {
            let value = vstd::slice::slice_to_vec(
                vstd::slice::slice_subrange(bytes, pos, pos + declared_len),
            );
            Ok((OctetString { value }, pos + declared_len))
        }
    }

    /// Append the value's bytes, with no terminator.
    pub fn write(&self, buf: &mut Vec<u8>)
        ensures
            final(buf)@ == old(buf)@ + self@,
    {
        buf.extend_from_slice(self.value.as_slice());
    }

    /// The stored length.
    pub fn len(&self) -> (r: usize)
        ensures
            r == self@.len(),
    {
        self.value.len()
    }
}

} // verus!
