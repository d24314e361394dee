//! Strings: length-prefixed text in the encoding a file declares,
//! NUL-terminated names in a string pool, and fixed-width name fields.
//!
//! Malformed text never fails a decode. It is decoded with replacement
//! characters, and the caller is told that a substitution took place.

use vstd::prelude::*;
use vstd::slice::slice_subrange;
use vstd::utf8::{decode_utf8, valid_utf8};
use crate::error::DecodeError;
use crate::primitives::{le_u16_at, le_u32_at, ByteOrder, Cursor};

verus! {

/// The text encoding of a file's strings.
#[derive(Clone, Copy, Debug, PartialEq, Eq, Structural)]
pub enum Encoding {
    Utf16Le,
    Utf8,
}

/// The code unit that stands for the replacement character U+FFFD.
pub const REPLACEMENT_UNIT: u16 = 0xFFFD;

// ---------------------------------------------------------------------
// The standard library's lossy decoders
// ---------------------------------------------------------------------

/// The text that `String::from_utf8_lossy` makes of `bytes`.
pub uninterp spec fn lossy_utf8(bytes: Seq<u8>) -> Seq<char>;

/// Calls `String::from_utf8_lossy`. The result depends on the bytes alone;
/// for well-formed UTF-8 it is the text that the bytes encode.
#[verifier::external_body]
fn utf8_lossy(bytes: &[u8]) -> (r: String)
    ensures
        r@ == lossy_utf8(bytes@),
        valid_utf8(bytes@) ==> r@ == decode_utf8(bytes@),
{
    String::from_utf8_lossy(bytes).into_owned()
}

/// Calls `std::str::from_utf8`, which succeeds exactly on well-formed
/// UTF-8.
#[verifier::external_body]
fn utf8_valid(bytes: &[u8]) -> (r: bool)
    ensures
        r == valid_utf8(bytes@),
{
    std::str::from_utf8(bytes).is_ok()
}

/// Calls `String::from_utf16_lossy`, which decodes surrogate pairs, takes
/// every other unit that is no surrogate for the character of that number,
/// and puts the replacement character in place of every surrogate that is
/// not half of a pair.
#[verifier::external_body]
fn utf16_lossy(units: &[u16]) -> (r: String)
    ensures
        r@ == utf16_text(units@),
{
    String::from_utf16_lossy(units)
}

/// Calls `nom::bytes::complete::take_until` with the pattern `"\0"`. That
/// parser returns the input up to the first NUL byte, and fails where the
/// input holds none.
#[verifier::external_body]
fn nom_take_until_nul<'a>(input: &'a [u8]) -> (r: Option<&'a [u8]>)
    ensures
        match r {
            Some(head) => head@.len() < input@.len() && head@ == input@.subrange(
                0,
                head@.len() as int,
            ) && input@[head@.len() as int] == 0 && !head@.contains(0u8),
            None => !input@.contains(0u8),
        },
{
    match nom::bytes::complete::take_until::<&str, &[u8], nom::error::Error<&[u8]>>("\0")(input) {
        Ok((_, head)) => Some(head),
        Err(_) => None,
    }
}

// ---------------------------------------------------------------------
// UTF-16
// ---------------------------------------------------------------------

/// Whether `unit` is the first half of a surrogate pair.
pub open spec fn is_high_surrogate(unit: u16) -> bool {
    0xD800 <= unit <= 0xDBFF
}

/// Whether `unit` is the second half of a surrogate pair.
pub open spec fn is_low_surrogate(unit: u16) -> bool {
    0xDC00 <= unit <= 0xDFFF
}

/// The character that a surrogate pair stands for.
pub open spec fn paired(high: u16, low: u16) -> char {
    (0x1_0000 + (high - 0xD800) * 0x400 + (low - 0xDC00)) as char
}

/// The text that `units` stand for: a surrogate pair is the character
/// beyond the basic plane that it encodes, a surrogate without its partner
/// is the replacement character, and every other unit is the character of
/// its number.
pub open spec fn utf16_text(units: Seq<u16>) -> Seq<char>
    decreases units.len(),
{
    if units.len() == 0 {
        Seq::empty()
    } else if is_high_surrogate(units[0]) && units.len() >= 2 && is_low_surrogate(units[1]) {
        seq![paired(units[0], units[1])] + utf16_text(units.skip(2))
    } else if is_high_surrogate(units[0]) || is_low_surrogate(units[0]) {
        seq![REPLACEMENT_UNIT as char] + utf16_text(units.skip(1))
    } else {
        seq![units[0] as char] + utf16_text(units.skip(1))
    }
}

/// Whether every surrogate in `units` is half of a pair: a high surrogate
/// followed at once by a low one.
pub open spec fn well_formed_utf16(units: Seq<u16>) -> bool
    decreases units.len(),
{
    if units.len() == 0 {
        true
    } else if is_high_surrogate(units[0]) {
        units.len() >= 2 && is_low_surrogate(units[1]) && well_formed_utf16(units.skip(2))
    } else if is_low_surrogate(units[0]) {
        false
    } else {
        well_formed_utf16(units.skip(1))
    }
}

/// The UTF-16 code units that `bytes` hold in little-endian order. A last
/// byte without a partner stands for a replacement character.
pub open spec fn utf16_units(bytes: Seq<u8>) -> Seq<u16> {
    Seq::new(
        ((bytes.len() + 1) / 2) as nat,
        |i: int|
            if 2 * i + 1 < bytes.len() {
                le_u16_at(bytes, 2 * i)
            } else {
                REPLACEMENT_UNIT
            },
    )
}

/// Checks that no surrogate in `units` is unpaired.
pub fn is_well_formed_utf16(units: &[u16]) -> (r: bool)
    ensures
        r == well_formed_utf16(units@),
{
    let mut i: usize = 0;
    assert(units@.skip(0) =~= units@);
    while i < units.len()
        invariant
            i <= units@.len(),
            well_formed_utf16(units@) == well_formed_utf16(units@.skip(i as int)),
        decreases units@.len() - i,
    {
        let ghost rest = units@.skip(i as int);
        let unit = units[i];
        if 0xD800 <= unit && unit <= 0xDBFF {
            if i + 1 < units.len() {
                let next = units[i + 1];
                if 0xDC00 <= next && next <= 0xDFFF {
                    assert(rest.skip(2) =~= units@.skip(i + 2));
                    i = i + 2;
                } else {
                    return false;
                }
            } else {
                return false;
            }
        } else if 0xDC00 <= unit && unit <= 0xDFFF {
            return false;
        } else {
            assert(rest.skip(1) =~= units@.skip(i + 1));
            i = i + 1;
        }
    }
    true
}

/// Collects the UTF-16 code units of `bytes`.
pub fn collect_utf16_units(bytes: &[u8]) -> (units: Vec<u16>)
    ensures
        units@ == utf16_units(bytes@),
{
    let mut units: Vec<u16> = Vec::new();
    let pairs = bytes.len() / 2;
    let mut k: usize = 0;
    while k < pairs
        invariant
            k <= pairs,
            pairs == bytes@.len() / 2,
            bytes@.len() <= usize::MAX,
            units@.len() == k,
            forall|j: int| 0 <= j < k ==> units@[j] == le_u16_at(bytes@, 2 * j),
        decreases pairs - k,
    {
        let unit: u16 = bytes[2 * k] as u16 + 0x100 * (bytes[2 * k + 1] as u16);
        units.push(unit);
        k = k + 1;
    }
    if bytes.len() % 2 == 1 {
        units.push(REPLACEMENT_UNIT);
    }
    assert(units@ =~= utf16_units(bytes@));
    units
}

// ---------------------------------------------------------------------
// Decoding text
// ---------------------------------------------------------------------

/// The text that `bytes` hold in the given encoding, malformed parts
/// replaced.
pub open spec fn text_of(bytes: Seq<u8>, encoding: Encoding) -> Seq<char> {
    match encoding {
        Encoding::Utf8 => lossy_utf8(bytes),
        Encoding::Utf16Le => utf16_text(utf16_units(bytes)),
    }
}

/// Whether `bytes` are well-formed text in the given encoding.
pub open spec fn well_formed_text(bytes: Seq<u8>, encoding: Encoding) -> bool {
    match encoding {
        Encoding::Utf8 => valid_utf8(bytes),
        Encoding::Utf16Le => bytes.len() % 2 == 0 && well_formed_utf16(utf16_units(bytes)),
    }
}

/// Decoded text, whether a replacement character had to stand in for
/// malformed input, and where in the buffer the text was found.
#[derive(Clone, Debug, PartialEq, Eq)]
pub struct Text {
    pub value: String,
    pub substituted: bool,
    pub offset: u64,
}

/// What a `Text` stands for.
pub struct TextView {
    pub value: Seq<char>,
    pub substituted: bool,
    pub offset: u64,
}

impl View for Text {
    type V = TextView;

    open spec fn view(&self) -> TextView {
        TextView { value: self.value@, substituted: self.substituted, offset: self.offset }
    }
}

/// What decoding the `bytes` found at `offset` gives in `encoding`.
pub open spec fn decoded(bytes: Seq<u8>, encoding: Encoding, offset: u64) -> TextView {
    TextView {
        value: text_of(bytes, encoding),
        substituted: !well_formed_text(bytes, encoding),
        offset,
    }
}

impl Text {
    /// Whether this is what decoding `bytes` in `encoding` gives.
    pub open spec fn decodes(&self, bytes: Seq<u8>, encoding: Encoding) -> bool {
        &&& self.value@ == text_of(bytes, encoding)
        &&& self.substituted == !well_formed_text(bytes, encoding)
        &&& encoding == Encoding::Utf8 && !self.substituted ==> self.value@ == decode_utf8(bytes)
    }
}

/// Decodes `bytes`, which were found at `offset`, as text in the given
/// encoding. Malformed input is replaced, never refused.
pub fn decode_text(bytes: &[u8], encoding: Encoding, offset: u64) -> (text: Text)
    ensures
        text@ == decoded(bytes@, encoding, offset),
        text.decodes(bytes@, encoding),
{
    match encoding {
        Encoding::Utf8 => {
            let ok = utf8_valid(bytes);
            Text { value: utf8_lossy(bytes), substituted: !ok, offset }
        },
        Encoding::Utf16Le => {
            let units = collect_utf16_units(bytes);
            let ok = bytes.len() % 2 == 0 && is_well_formed_utf16(units.as_slice());
            Text { value: utf16_lossy(units.as_slice()), substituted: !ok, offset }
        },
    }
}

/// Whether a string with a 32-bit length prefix can be read from `s` at
/// `at`.
pub open spec fn has_string_at(s: Seq<u8>, at: int) -> bool {
    at + 4 <= s.len() && at + 4 + le_u32_at(s, at) <= s.len()
}

/// The bytes of the length-prefixed string in `s` at `at`.
pub open spec fn string_bytes_at(s: Seq<u8>, at: int) -> Seq<u8> {
    s.subrange(at + 4, at + 4 + le_u32_at(s, at))
}

/// Reads a string that is stored as a 32-bit little-endian byte count
/// followed by that many bytes of text in the given encoding.
///
/// The read fails with `UnexpectedEof`, and leaves the cursor where it
/// was, when the count or the announced bytes are not all there.
pub fn read_string(cur: &mut Cursor, encoding: Encoding) -> (r: Result<Text, DecodeError>)
    ensures
        final(cur).buf == old(cur).buf,
        match r {
            Ok(text) => has_string_at(old(cur).buf@, old(cur).pos as int) && text.decodes(
                string_bytes_at(old(cur).buf@, old(cur).pos as int),
                encoding,
            ) && text@ == decoded(
                string_bytes_at(old(cur).buf@, old(cur).pos as int),
                encoding,
                old(cur).pos as u64,
            ) && final(cur).pos == old(cur).pos + 4 + le_u32_at(
                old(cur).buf@,
                old(cur).pos as int,
            ),
            Err(e) => e == DecodeError::UnexpectedEof && !has_string_at(
                old(cur).buf@,
                old(cur).pos as int,
            ) && final(cur).pos == old(cur).pos,
        },
{
    let start = cur.position();
    let count = cur.read_u32(ByteOrder::Little)?;
    if !cur.has(count as usize) {
        cur.seek(start);
        return Err(DecodeError::UnexpectedEof);
    }
    let begin = cur.position();
    let bytes = slice_subrange(cur.buf, begin, begin + count as usize);
    cur.seek(begin + count as usize);
    Ok(decode_text(bytes, encoding, start as u64))
}

/// Reads the bytes of a NUL-terminated string. The cursor stops at the
/// terminating NUL, which is not part of the result.
///
/// The read fails with `UnexpectedEof`, and leaves the cursor where it
/// was, when no NUL byte follows.
pub fn zstr<'a>(cur: &mut Cursor<'a>) -> (r: Result<&'a [u8], DecodeError>)
    ensures
        final(cur).buf == old(cur).buf,
        match r {
            Ok(name) => {
                let end = old(cur).pos + name@.len();
                &&& end < old(cur).buf@.len()
                &&& name@ == old(cur).buf@.subrange(old(cur).pos as int, end)
                &&& !name@.contains(0u8)
                &&& old(cur).buf@[end] == 0
                &&& final(cur).pos == end
            },
            Err(e) => {
                &&& e == DecodeError::UnexpectedEof
                &&& final(cur).pos == old(cur).pos
                &&& forall|i: int|
                    old(cur).pos <= i < old(cur).buf@.len() ==> old(cur).buf@[i] != 0
            },
        },
{
    let rest = cur.rest();
    match nom_take_until_nul(rest) {
        Some(name) => {
            proof {
                let p = cur.pos as int;
                assert(name@ =~= cur.buf@.subrange(p, p + name@.len()));
            }
            cur.seek(cur.position() + name.len());
            Ok(name)
        },
        None => {
            proof {
                let p = cur.pos as int;
                assert forall|i: int| p <= i < cur.buf@.len() implies cur.buf@[i] != 0 by {
                    if cur.buf@[i] == 0 {
                        assert(rest@[i - p] == 0u8);
                        assert(rest@.contains(0u8));
                    }
                }
            }
            Err(DecodeError::UnexpectedEof)
        },
    }
}

/// Whether the NUL-terminated string that starts at `at` in `s` ends
/// before `end`, where its NUL stands.
pub open spec fn zstr_ends_at(s: Seq<u8>, at: int, end: int) -> bool {
    0 <= at <= end < s.len() && s[end] == 0 && !s.subrange(at, end).contains(0u8)
}

/// Whether a NUL-terminated string starts at `at` in `s`: that is, whether
/// a NUL byte stands at or after `at`.
pub open spec fn has_zstr_at(s: Seq<u8>, at: int) -> bool {
    exists|end: int| zstr_ends_at(s, at, end)
}

/// The position of the NUL that ends the string starting at `at` in `s`.
pub open spec fn zstr_end(s: Seq<u8>, at: int) -> int {
    choose|end: int| zstr_ends_at(s, at, end)
}

/// A NUL-terminated string ends in one place only.
pub proof fn lemma_zstr_end_unique(s: Seq<u8>, at: int, end: int)
    requires
        zstr_ends_at(s, at, end),
    ensures
        has_zstr_at(s, at),
        zstr_end(s, at) == end,
{
    let other = zstr_end(s, at);
    assert(zstr_ends_at(s, at, other));
    if other < end {
        assert(s.subrange(at, end)[other - at] == 0u8);
    }
    if end < other {
        assert(s.subrange(at, other)[end - at] == 0u8);
    }
}

/// Resolves a string by its offset into a string pool that starts at
/// `pool_base`: the NUL-terminated bytes found there, decoded as UTF-8.
/// The cursor is moved to the string and moved back, so the caller's
/// position is the same before and after.
///
/// An offset that lies at or beyond the end of the buffer is refused with
/// `ReferenceOutOfBounds`; a string without its NUL with `UnexpectedEof`.
pub fn pool_string(cur: &mut Cursor, pool_base: u32, offset: u32) -> (r: Result<
    Text,
    DecodeError,
>)
    ensures
        *final(cur) == *old(cur),
        match r {
            Ok(text) => {
                let at = pool_base + offset;
                &&& at < old(cur).buf@.len()
                &&& has_zstr_at(old(cur).buf@, at)
                &&& text.decodes(
                    old(cur).buf@.subrange(at, zstr_end(old(cur).buf@, at)),
                    Encoding::Utf8,
                )
                &&& text.offset == at
            },
            Err(e) => {
                let at = pool_base + offset;
                if at >= old(cur).buf@.len() {
                    e == (DecodeError::ReferenceOutOfBounds {
                        offset: at as u64,
                        length: old(cur).buf@.len() as u64,
                    })
                } else {
                    e == DecodeError::UnexpectedEof && !has_zstr_at(old(cur).buf@, at)
                }
            },
        },
{
    let saved = cur.position();
    let at: u64 = pool_base as u64 + offset as u64;
    let length = cur.buf.len();
    if at >= length as u64 {
        return Err(DecodeError::ReferenceOutOfBounds { offset: at, length: length as u64 });
    }
    cur.seek(at as usize);
    let found = zstr(cur);
    cur.seek(saved);
    match found {
        Ok(name) => {
            proof {
                lemma_zstr_end_unique(old(cur).buf@, at as int, at as int + name@.len());
            }
            Ok(decode_text(name, Encoding::Utf8, at))
        },
        Err(e) => {
            proof {
                let data = old(cur).buf@;
                if has_zstr_at(data, at as int) {
                    let end = zstr_end(data, at as int);
                    assert(zstr_ends_at(data, at as int, end));
                }
            }
            Err(e)
        },
    }
}

/// Resolves a string by its offset into a string pool that starts at
/// `pool_base`, where the pool stores its strings behind a 32-bit byte
/// count in the given encoding. The cursor is moved to the string and
/// moved back.
///
/// An offset that lies beyond the end of the buffer is refused with
/// `ReferenceOutOfBounds`; a string that the buffer does not hold in full
/// with `UnexpectedEof`.
pub fn pool_text(cur: &mut Cursor, pool_base: u32, offset: u32, encoding: Encoding) -> (r: Result<
    Text,
    DecodeError,
>)
    ensures
        *final(cur) == *old(cur),
        match r {
            Ok(text) => {
                let at = pool_base + offset;
                &&& at <= old(cur).buf@.len()
                &&& has_string_at(old(cur).buf@, at)
                &&& text@ == decoded(string_bytes_at(old(cur).buf@, at), encoding, at as u64)
            },
            Err(e) => {
                let at = pool_base + offset;
                if at > old(cur).buf@.len() {
                    e == (DecodeError::ReferenceOutOfBounds {
                        offset: at as u64,
                        length: old(cur).buf@.len() as u64,
                    })
                } else {
                    e == DecodeError::UnexpectedEof && !has_string_at(old(cur).buf@, at)
                }
            },
        },
{
    let saved = cur.position();
    let at: u64 = pool_base as u64 + offset as u64;
    let length = cur.buf.len();
    if at > length as u64 {
        return Err(DecodeError::ReferenceOutOfBounds { offset: at, length: length as u64 });
    }
    cur.seek(at as usize);
    let found = read_string(cur, encoding);
    cur.seek(saved);
    found
}

// ---------------------------------------------------------------------
// Fixed-width name fields
// ---------------------------------------------------------------------

/// The length of `s` without its trailing NUL bytes.
pub open spec fn unpadded_len(s: Seq<u8>) -> nat
    decreases s.len(),
{
    if s.len() > 0 && s.last() == 0 {
        unpadded_len(s.drop_last())
    } else {
        s.len()
    }
}

/// The bytes of a name field of at most `budget` bytes: `s` cut to the
/// budget, without the NUL bytes that pad its end.
pub open spec fn field_bytes(s: Seq<u8>, budget: nat) -> Seq<u8> {
    let cut = if s.len() <= budget {
        s
    } else {
        s.take(budget as int)
    };
    cut.take(unpadded_len(cut) as int)
}

/// The part of `s` that a name field of `budget` bytes keeps.
pub fn trim_field<'a>(s: &'a [u8], budget: usize) -> (r: &'a [u8])
    ensures
        r@ == field_bytes(s@, budget as nat),
{
    let limit = if s.len() <= budget {
        s.len()
    } else {
        budget
    };
    let ghost cut = s@.take(limit as int);
    assert(s@.len() <= budget ==> cut =~= s@);
    let mut n = limit;
    while n > 0 && s[n - 1] == 0
        invariant
            n <= limit <= s@.len(),
            cut == s@.take(limit as int),
            unpadded_len(cut) == unpadded_len(s@.take(n as int)),
        decreases n,
    {
        assert(s@.take(n as int).drop_last() =~= s@.take(n - 1));
        n = n - 1;
    }
    assert(cut.take(n as int) =~= s@.subrange(0, n as int));
    slice_subrange(s, 0, n)
}

/// Decodes a name field of at most `budget` bytes that was found at
/// `offset`: the field is cut to the budget, the NUL bytes that pad its
/// end are dropped, and what is left is read as UTF-8.
pub fn field_text(s: &[u8], budget: usize, offset: u64) -> (text: Text)
    ensures
        text@ == decoded(field_bytes(s@, budget as nat), Encoding::Utf8, offset),
        text.decodes(field_bytes(s@, budget as nat), Encoding::Utf8),
{
    decode_text(trim_field(s, budget), Encoding::Utf8, offset)
}

/// The text of a name field of 80 bytes, trailing padding discarded.
pub fn string80(s: &[u8]) -> (r: String)
    ensures
        r@ == lossy_utf8(field_bytes(s@, 80)),
        valid_utf8(field_bytes(s@, 80)) ==> r@ == decode_utf8(field_bytes(s@, 80)),
{
    field_text(s, 80, 0).value
}

/// The text of a path field of 260 bytes, trailing padding discarded.
pub fn string260(s: &[u8]) -> (r: String)
    ensures
        r@ == lossy_utf8(field_bytes(s@, 260)),
        valid_utf8(field_bytes(s@, 260)) ==> r@ == decode_utf8(field_bytes(s@, 260)),
{
    field_text(s, 260, 0).value
}

/// The number of units of `s` without its trailing zero units.
pub open spec fn unpadded_units(s: Seq<u16>) -> nat
    decreases s.len(),
{
    if s.len() > 0 && s.last() == 0 {
        unpadded_units(s.drop_last())
    } else {
        s.len()
    }
}

/// What a field of UTF-16 text holds that was found at `offset`: the text
/// of its units without the zero units that pad its end.
pub open spec fn field_text16(bytes: Seq<u8>, offset: u64) -> TextView {
    let units = utf16_units(bytes);
    let kept = units.take(unpadded_units(units) as int);
    TextView {
        value: utf16_text(kept),
        substituted: bytes.len() % 2 == 1 || !well_formed_utf16(kept),
        offset,
    }
}

/// Decodes a field of fixed width that holds UTF-16 text in little-endian
/// order, padded with zero units.
pub fn fixed_utf16(bytes: &[u8], offset: u64) -> (text: Text)
    ensures
        text@ == field_text16(bytes@, offset),
{
    let units = collect_utf16_units(bytes);
    let mut n = units.len();
    assert(units@.take(n as int) =~= units@);
    while n > 0 && units[n - 1] == 0
        invariant
            n <= units@.len(),
            unpadded_units(units@) == unpadded_units(units@.take(n as int)),
        decreases n,
    {
        assert(units@.take(n as int).drop_last() =~= units@.take(n - 1));
        n = n - 1;
    }
    let kept = slice_subrange(units.as_slice(), 0, n);
    assert(kept@ =~= units@.take(n as int));
    let ok = bytes.len() % 2 == 0 && is_well_formed_utf16(kept);
    Text { value: utf16_lossy(kept), substituted: !ok, offset }
}

} // verus!
