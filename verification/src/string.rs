//! Conversion between natural strings and the host's length-prefixed UTF-16
//! representation.
//!
//! The host names devices with a header of two byte lengths over a UTF-16
//! buffer. [`create_unicode_string`] builds the header over existing units,
//! [`create_unicode_from_str`] encodes a string first, and
//! [`from_unicode_string`] decodes a header's buffer back into a string.

use vstd::prelude::*;

verus! {

/// The host's length-prefixed UTF-16 string: a buffer of 16-bit units under
/// a header of two byte counts — the bytes in use and the bytes available.
#[derive(Debug, PartialEq, Eq)]
pub struct UnicodeString {
    pub length: u16,
    pub maximum_length: u16,
    pub buffer: Vec<u16>,
}

/// No character of the string is a nul.
pub open spec fn has_no_nul(s: Seq<char>) -> bool {
    forall|i: int| 0 <= i < s.len() ==> s[i] != '\0'
}

/// No character of the string but possibly the final one is a nul.
pub open spec fn has_no_interior_nul(s: Seq<char>) -> bool {
    forall|i: int| 0 <= i < s.len() - 1 ==> s[i] != '\0'
}

/// The UTF-16 encoding of a string: one or two 16-bit units per character.
pub uninterp spec fn utf16_of(s: Seq<char>) -> Seq<u16>;

/// The lossy UTF-16 decoding of a buffer: invalid sequences come out as the
/// replacement character.
pub uninterp spec fn lossy_utf16_of(units: Seq<u16>) -> Seq<char>;

/// Relies on `widestring::U16CString::from_str`: encodes a string as UTF-16,
/// rejecting exactly a nul anywhere but the final position. The returned
/// units carry no nul and no terminator, and each character takes one or two
/// units.
#[verifier::external_body]
fn encode_utf16(s: &str) -> (r: Option<Vec<u16>>)
    ensures
        r is Some <==> has_no_interior_nul(s@),
        r matches Some(v) ==> (has_no_nul(s@) ==> v@ == utf16_of(s@)),
        r matches Some(v) ==> v@.len() <= 2 * s@.len() && (forall|i: int|
            0 <= i < v@.len() ==> v@[i] != 0),
{
    match widestring::U16CString::from_str(s) {
        Ok(c) => Some(c.into_vec()),
        Err(_) => None,
    }
}

/// Relies on `widestring::U16String::to_string_lossy`: decodes a buffer as
/// UTF-16, replacing invalid sequences; the result depends on the units
/// alone.
#[verifier::external_body]
fn decode_utf16_lossy(units: &Vec<u16>) -> (r: String)
    ensures
        r@ == lossy_utf16_of(units@),
{
    widestring::U16String::from_vec(units.clone()).to_string_lossy()
}

/// Builds the host string header over existing 16-bit units: the available
/// bytes count every unit, the bytes in use leave a single trailing nul
/// terminator out.
pub fn create_unicode_string(s: &[u16]) -> (r: UnicodeString)
    requires
        s@.len() <= 0x7FFF,
    ensures
        r.buffer@ == s@,
        r.maximum_length == 2 * s@.len(),
        r.length == (if s@.len() > 0 && s@[s@.len() - 1] == 0 {
            2 * (s@.len() - 1)
        } else {
            2 * s@.len() as int
        }),
{
    let len = s.len();
    let n = if len > 0 && s[len - 1] == 0 {
        len - 1
    } else {
        len
    };
    UnicodeString {
        length: (n * 2) as u16,
        maximum_length: (len * 2) as u16,
        buffer: vstd::slice::slice_to_vec(s),
    }
}

/// Encodes a string and builds the host string header over it. `None` when
/// the string holds an interior nul or its encoding outgrows the 16-bit byte
/// counts; every nul-free string of at most `0x3FFF` characters is accepted.
pub fn create_unicode_from_str(name: &str) -> (r: Option<UnicodeString>)
    ensures
        r is Some ==> has_no_interior_nul(name@),
        r matches Some(u) ==> (has_no_nul(name@) ==> u.buffer@ == utf16_of(name@)),
        r matches Some(u) ==> u.buffer@.len() <= 0x7FFF && u.maximum_length == 2 * u.buffer@.len()
            && u.length == 2 * u.buffer@.len(),
        has_no_nul(name@) && name@.len() <= 0x3FFF ==> r is Some,
{
    match encode_utf16(name) {
        Some(v) => {
            if v.len() <= 0x7FFF {
                Some(create_unicode_string(v.as_slice()))
            } else {
                None
            }
        },
        None => None,
    }
}

/// Decodes a host string's buffer back into a natural string, lossily.
pub fn from_unicode_string(s: &UnicodeString) -> (r: String)
    ensures
        r@ == lossy_utf16_of(s.buffer@),
{
    decode_utf16_lossy(&s.buffer)
}

} // verus!
