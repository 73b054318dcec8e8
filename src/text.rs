use vstd::prelude::*;
use vstd::utf8::*;

use crate::error::MemError;

verus! {

/// Relies on std's `String::from_utf8`: it accepts exactly the byte
/// sequences that are valid UTF-8, and the string it returns holds the text
/// that those bytes encode.
#[verifier::external_body]
fn utf8_to_string(b: Vec<u8>) -> (r: Option<String>)
    ensures
        r is Some <==> valid_utf8(b@),
        r is Some ==> r->Some_0@ == decode_utf8(b@),
{
    String::from_utf8(b).ok()
}

/// The text of an ASCII byte sequence, one character per byte.
pub open spec fn spec_ascii_text(b: Seq<u8>) -> Seq<char> {
    b.map_values(|x: u8| x as char)
}

/// Whether every byte is below 0x80.
pub open spec fn spec_is_ascii_bytes(b: Seq<u8>) -> bool {
    forall|i: int| 0 <= i < b.len() ==> #[trigger] b[i] < 0x80
}

/// An ASCII byte sequence is valid UTF-8 and decodes one character per byte.
proof fn lemma_ascii_decode(b: Seq<u8>)
    requires
        spec_is_ascii_bytes(b),
    ensures
        valid_utf8(b),
        decode_utf8(b) == spec_ascii_text(b),
{
    let chars = spec_ascii_text(b);
    assert forall|i: int| 0 <= i < chars.len() implies '\0' <= #[trigger] chars[i] <= '\u{7f}' by {
        assert(b[i] < 0x80);
    }
    assert(is_ascii_chars(chars));
    is_ascii_chars_encode_utf8(chars);
    assert forall|i: int| 0 <= i < b.len() implies #[trigger] encode_utf8(chars)[i] == b[i] by {
        assert(chars[i] as u8 == encode_utf8(chars)[i]);
        assert(chars[i] == b[i] as char);
    }
    assert(encode_utf8(chars) =~= b);
    encode_utf8_valid_utf8(chars);
    encode_utf8_decode_utf8(chars);
}

/// Converts ASCII bytes into a string.
fn ascii_to_string(b: Vec<u8>) -> (r: String)
    requires
        spec_is_ascii_bytes(b@),
    ensures
        r@ == spec_ascii_text(b@),
{
    proof {
        lemma_ascii_decode(b@);
    }
    let r = utf8_to_string(b);
    match r {
        Some(s) => s,
        None => String::new(),
    }
}

/// Upper-case hex digit of a value below 16, as an ASCII byte.
pub open spec fn spec_hex_digit(n: u8) -> u8 {
    if n < 10 {
        (0x30 + n) as u8
    } else {
        (0x41 + n - 10) as u8
    }
}

/// The two upper-case hex digits of a byte.
pub open spec fn spec_hex_pair(x: u8) -> Seq<u8> {
    seq![spec_hex_digit(x / 16), spec_hex_digit(x % 16)]
}

/// Hex listing of bytes as ASCII: upper-case digit pairs separated by
/// single spaces.
pub open spec fn spec_hex_listing(b: Seq<u8>) -> Seq<u8>
    decreases b.len(),
{
    if b.len() == 0 {
        seq![]
    } else if b.len() == 1 {
        spec_hex_pair(b[0])
    } else {
        spec_hex_listing(b.drop_last()) + seq![0x20u8] + spec_hex_pair(b.last())
    }
}

fn hex_digit(n: u8) -> (r: u8)
    requires
        n < 16,
    ensures
        r == spec_hex_digit(n),
        r < 0x80,
{
    if n < 10 {
        0x30 + n
    } else {
        0x41 + n - 10
    }
}

/// Readable hex text of bytes, such as `"48 8B 05"`: upper-case digit pairs
/// separated by single spaces, empty for no bytes.
pub fn format_hex(bytes: &Vec<u8>) -> (r: String)
    ensures
        r@ == spec_ascii_text(spec_hex_listing(bytes@)),
{
    let mut out: Vec<u8> = Vec::new();
    let n = bytes.len();
    let mut i: usize = 0;
    while i < n
        invariant
            n == bytes@.len(),
            i <= n,
            out@ == spec_hex_listing(bytes@.subrange(0, i as int)),
            spec_is_ascii_bytes(out@),
        decreases n - i,
    {
        let x = bytes[i];
        proof {
            let prefix = bytes@.subrange(0, i as int + 1);
            assert(prefix.drop_last() =~= bytes@.subrange(0, i as int));
            assert(prefix.last() == x);
        }
        if i > 0 {
            out.push(0x20u8);
        }
        out.push(hex_digit(x / 16));
        out.push(hex_digit(x % 16));
        proof {
            let prefix = bytes@.subrange(0, i as int + 1);
            if i == 0 {
                assert(out@ =~= spec_hex_pair(x));
            } else {
                assert(out@ =~= spec_hex_listing(bytes@.subrange(0, i as int)) + seq![0x20u8]
                    + spec_hex_pair(x));
            }
            assert(out@ == spec_hex_listing(prefix));
        }
        i = i + 1;
    }
    assert(bytes@.subrange(0, n as int) =~= bytes@);
    ascii_to_string(out)
}

/// Whether a character is a hex digit, in either case.
pub open spec fn spec_is_hex_char(c: char) -> bool {
    ('0' <= c <= '9') || ('a' <= c <= 'f') || ('A' <= c <= 'F')
}

/// The value of a hex digit.
pub open spec fn spec_hex_value(c: char) -> u8 {
    if '0' <= c <= '9' {
        (c as u32 - 0x30) as u8
    } else if 'a' <= c <= 'f' {
        (c as u32 - 0x61 + 10) as u8
    } else {
        (c as u32 - 0x41 + 10) as u8
    }
}

/// Values of the hex digits of a text, in order; every other character is
/// skipped.
pub open spec fn spec_hex_digits(s: Seq<char>) -> Seq<u8>
    decreases s.len(),
{
    if s.len() == 0 {
        seq![]
    } else {
        let rest = spec_hex_digits(s.drop_last());
        if spec_is_hex_char(s.last()) {
            rest.push(spec_hex_value(s.last()))
        } else {
            rest
        }
    }
}

/// Bytes made of consecutive pairs of digit values, high digit first.
pub open spec fn spec_pack_pairs(d: Seq<u8>) -> Seq<u8> {
    Seq::new(d.len() / 2, |i: int| (d[2 * i] * 16 + d[2 * i + 1]) as u8)
}

/// The bytes of a hex patch text: its hex digits, read in pairs; an odd
/// number of digits is rejected.
pub open spec fn spec_parse_hex_patch(s: Seq<char>) -> Result<Seq<u8>, MemError> {
    let d = spec_hex_digits(s);
    if d.len() % 2 != 0 {
        Err(MemError::InvalidHexPatch)
    } else {
        Ok(spec_pack_pairs(d))
    }
}

fn hex_value(c: char) -> (r: u8)
    requires
        spec_is_hex_char(c),
    ensures
        r == spec_hex_value(c),
        r < 16,
{
    let v = c as u32;
    if '0' <= c && c <= '9' {
        (v - 0x30) as u8
    } else if 'a' <= c && c <= 'f' {
        (v - 0x61 + 10) as u8
    } else {
        (v - 0x41 + 10) as u8
    }
}

/// Decodes a hex patch such as `"90 90 90"` or `"909090"`: the hex digits
/// are taken in pairs and everything else is skipped. An odd number of
/// digits gives `InvalidHexPatch`.
pub fn parse_hex_patch(text: &str) -> (r: Result<Vec<u8>, MemError>)
    ensures
        match spec_parse_hex_patch(text@) {
            Ok(b) => r is Ok && r->Ok_0@ == b,
            Err(e) => r == Err::<Vec<u8>, MemError>(e),
        },
{
    let len = text.unicode_len();
    let mut digits: Vec<u8> = Vec::new();
    let mut i: usize = 0;
    while i < len
        invariant
            len == text@.len(),
            i <= len,
            digits@ == spec_hex_digits(text@.subrange(0, i as int)),
            forall|k: int| 0 <= k < digits@.len() ==> #[trigger] digits@[k] < 16,
        decreases len - i,
    {
        let c = text.get_char(i);
        proof {
            let prefix = text@.subrange(0, i as int + 1);
            assert(prefix.drop_last() =~= text@.subrange(0, i as int));
            assert(prefix.last() == c);
        }
        if ('0' <= c && c <= '9') || ('a' <= c && c <= 'f') || ('A' <= c && c <= 'F') {
            digits.push(hex_value(c));
        }
        i = i + 1;
    }
    assert(text@.subrange(0, len as int) =~= text@);
    let n = digits.len();
    if n % 2 != 0 {
        return Err(MemError::InvalidHexPatch);
    }
    let half = n / 2;
    let mut out: Vec<u8> = Vec::new();
    let mut j: usize = 0;
    while j < half
        invariant
            n == digits@.len(),
            half == n / 2,
            n % 2 == 0,
            j <= half,
            forall|k: int| 0 <= k < digits@.len() ==> #[trigger] digits@[k] < 16,
            out@.len() == j,
            forall|k: int| 0 <= k < j ==> #[trigger] out@[k] == spec_pack_pairs(digits@)[k],
        decreases half - j,
    {
        let hi = digits[2 * j];
        let lo = digits[2 * j + 1];
        out.push(hi * 16 + lo);
        j = j + 1;
    }
    assert(out@ =~= spec_pack_pairs(digits@));
    Ok(out)
}

/// Whether `end` is where a NUL-terminated string in `b` ends: at the first
/// zero byte, or at the end of `b` when it holds none.
pub open spec fn spec_is_string_end(b: Seq<u8>, end: int) -> bool {
    &&& 0 <= end <= b.len()
    &&& forall|i: int| 0 <= i < end ==> #[trigger] b[i] != 0
    &&& end == b.len() || b[end] == 0
}

/// Position of the first zero byte, or the length when there is none.
pub fn find_string_end(b: &Vec<u8>) -> (r: usize)
    ensures
        spec_is_string_end(b@, r as int),
{
    let n = b.len();
    let mut i: usize = 0;
    while i < n
        invariant
            n == b@.len(),
            i <= n,
            forall|k: int| 0 <= k < i ==> #[trigger] b@[k] != 0,
        decreases n - i,
    {
        if b[i] == 0 {
            return i;
        }
        i = i + 1;
    }
    n
}

/// The string held by a buffer read from the target: the bytes before the
/// first zero (all of them when there is none), decoded as UTF-8.
/// `DecodeError` when those bytes are not valid UTF-8.
pub fn decode_c_string(bytes: Vec<u8>) -> (r: Result<String, MemError>)
    ensures
        forall|end: int|
            #![trigger spec_is_string_end(bytes@, end)]
            spec_is_string_end(bytes@, end) ==> {
                &&& r is Ok <==> valid_utf8(bytes@.take(end))
                &&& r is Ok ==> r->Ok_0@ == decode_utf8(bytes@.take(end))
                &&& r is Err ==> r == Err::<String, MemError>(MemError::DecodeError)
            },
        (forall|i: int| 0 <= i < bytes@.len() ==> #[trigger] bytes@[i] != 0) ==> {
            &&& r is Ok <==> valid_utf8(bytes@)
            &&& r is Ok ==> r->Ok_0@ == decode_utf8(bytes@)
        },
{
    let end = find_string_end(&bytes);
    let ghost whole = bytes@;
    let mut prefix = bytes;
    prefix.truncate(end);
    assert(prefix@ =~= whole.take(end as int));
    proof {
        assert forall|e: int| spec_is_string_end(whole, e) implies e == end as int by {
            if e < end {
                assert(whole[e] != 0);
            } else if e > end {
                assert(whole[end as int] != 0);
            }
        }
        if forall|i: int| 0 <= i < whole.len() ==> #[trigger] whole[i] != 0 {
            assert(spec_is_string_end(whole, whole.len() as int));
            assert(whole.take(whole.len() as int) =~= whole);
        }
    }
    match utf8_to_string(prefix) {
        Some(s) => Ok(s),
        None => Err(MemError::DecodeError),
    }
}

/// Name for the text that std's lossy UTF-8 decoding gives for bytes.
pub uninterp spec fn lossy_text(b: Seq<u8>) -> Seq<char>;

/// Relies on std's `String::from_utf8_lossy`: its text depends on the bytes
/// alone, and valid UTF-8 is decoded unchanged.
#[verifier::external_body]
fn utf8_lossy_to_string(b: &Vec<u8>) -> (r: String)
    ensures
        r@ == lossy_text(b@),
        valid_utf8(b@) ==> r@ == decode_utf8(b@),
{
    String::from_utf8_lossy(b.as_slice()).into_owned()
}

/// The bytes of a C character array up to its first zero (all of them when
/// there is none), each `i8` taken as the byte of the same bits.
pub open spec fn spec_c_chars_bytes(arr: Seq<i8>, end: int) -> Seq<u8> {
    arr.take(end).map_values(|c: i8| c as u8)
}

/// Whether `end` is where a NUL-terminated C character array ends.
pub open spec fn spec_is_c_chars_end(arr: Seq<i8>, end: int) -> bool {
    &&& 0 <= end <= arr.len()
    &&& forall|i: int| 0 <= i < end ==> #[trigger] arr[i] != 0
    &&& end == arr.len() || arr[end] == 0
}

/// Text of a NUL-terminated C character array as system snapshots return
/// names: the characters before the first zero, decoded as UTF-8 with
/// invalid sequences replaced.
pub fn i8_to_string(arr: &Vec<i8>) -> (r: String)
    ensures
        forall|end: int|
            #![trigger spec_is_c_chars_end(arr@, end)]
            spec_is_c_chars_end(arr@, end) ==> {
                &&& r@ == lossy_text(spec_c_chars_bytes(arr@, end))
                &&& valid_utf8(spec_c_chars_bytes(arr@, end)) ==> r@ == decode_utf8(
                    spec_c_chars_bytes(arr@, end),
                )
            },
{
    let n = arr.len();
    let mut bytes: Vec<u8> = Vec::new();
    let mut i: usize = 0;
    while i < n && arr[i] != 0
        invariant
            n == arr@.len(),
            i <= n,
            forall|k: int| 0 <= k < i ==> #[trigger] arr@[k] != 0,
            bytes@ == spec_c_chars_bytes(arr@, i as int),
        decreases n - i,
    {
        bytes.push(arr[i] as u8);
        proof {
            assert(bytes@ =~= spec_c_chars_bytes(arr@, i as int + 1));
        }
        i = i + 1;
    }
    proof {
        assert(spec_is_c_chars_end(arr@, i as int));
        assert forall|e: int| spec_is_c_chars_end(arr@, e) implies e == i as int by {
            if e < i {
                assert(arr@[e] != 0);
            } else if e > i {
                assert(arr@[i as int] != 0);
            }
        }
    }
    utf8_lossy_to_string(&bytes)
}

/// Length bound of a string read when the caller gives none.
pub const DEFAULT_STRING_LENGTH: u32 = 256;

/// Number of instruction bytes read when the caller gives none.
pub const DEFAULT_INSTRUCTION_LENGTH: u32 = 16;

/// No-operation instruction byte of the x86 family.
pub const NOP: u8 = 0x90;

/// `length` no-operation bytes, to overwrite code with.
pub fn nop_fill(length: u32) -> (r: Vec<u8>)
    ensures
        r@ == Seq::new(length as nat, |i: int| NOP),
{
    let r = vec![NOP; length as usize];
    assert(r@ =~= Seq::new(length as nat, |i: int| NOP));
    r
}

} // verus!
