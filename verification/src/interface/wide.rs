//! UTF-16 text: the encoding, stated as spec functions and proved of the encoder, and
//! the wide strings of the `widestring` crate behind contracts that are believed, not
//! proved.

use vstd::prelude::*;
use widestring::U16CStr;
use widestring::U16CString;

verus! {

/// `widestring::U16CString`, an owned wide string, as a value that is carried through.
#[verifier::external_type_specification]
#[verifier::external_body]
pub struct ExU16CString(U16CString);

/// `widestring::U16CStr`, a borrowed wide string, as a value that is carried through.
#[verifier::external_type_specification]
#[verifier::external_body]
pub struct ExU16CStr(U16CStr);

/// The code units that an owned wide string holds, without its terminating nul.
pub uninterp spec fn wide_units(s: U16CString) -> Seq<u16>;

/// The code units that a borrowed wide string holds, without its terminating nul.
pub uninterp spec fn wide_str_units(s: &U16CStr) -> Seq<u16>;

/// The text that std's lossy UTF-16 decoding gives for a sequence of code units.
pub uninterp spec fn utf16_lossy(units: Seq<u16>) -> Seq<char>;

/// No code unit of `units` is the nul value.
pub open spec fn nul_free(units: Seq<u16>) -> bool {
    forall|i: int| 0 <= i < units.len() ==> units[i] != 0
}

/// The UTF-16 code units of one character: itself below U+10000, a surrogate pair above.
pub open spec fn utf16_of_char(c: char) -> Seq<u16> {
    let v = c as int;
    if v < 0x10000 {
        seq![v as u16]
    } else {
        seq![(0xD800 + (v - 0x10000) / 0x400) as u16, (0xDC00 + (v - 0x10000) % 0x400) as u16]
    }
}

/// The UTF-16 encoding of a text: the code units of its characters, one character
/// after the other.
pub open spec fn encode_utf16(text: Seq<char>) -> Seq<u16>
    decreases text.len(),
{
    if text.len() == 0 {
        Seq::empty()
    } else {
        encode_utf16(text.drop_last()) + utf16_of_char(text.last())
    }
}

/// Appends the UTF-16 code units of one character.
pub fn push_utf16(units: &mut Vec<u16>, c: char)
    ensures
        final(units)@ == old(units)@ + utf16_of_char(c),
{
    let v: u32 = c as u32;
    if v < 0x10000 {
        units.push(v as u16);
    } else {
        let w: u32 = v - 0x10000;
        units.push((0xD800 + w / 0x400) as u16);
        units.push((0xDC00 + w % 0x400) as u16);
    }
    proof {
        assert(units@ =~= old(units)@ + utf16_of_char(c));
    }
}

/// Encodes a text as UTF-16.
pub fn utf16_units(text: &str) -> (r: Vec<u16>)
    ensures
        r@ == encode_utf16(text@),
{
    let mut units: Vec<u16> = Vec::new();
    let chars = text.chars();
    for c in it: chars
        invariant
            it.seq() == text@,
            units@ == encode_utf16(it.seq().take(it.index() as int)),
    {
        proof {
            let done = it.seq().take(it.index() as int);
            let next = it.seq().take(it.index() + 1);
            assert(next.drop_last() =~= done);
            assert(next.last() == c);
        }
        push_utf16(&mut units, c);
    }
    proof {
        assert(text@.take(text@.len() as int) =~= text@);
    }
    units
}

/// The number of code units of `units` that stand before its first nul.
pub open spec fn len_before_nul(units: Seq<u16>) -> nat
    decreases units.len(),
{
    if units.len() == 0 || units[0] == 0 {
        0
    } else {
        1 + len_before_nul(units.drop_first())
    }
}

/// The code units of `units` up to its first nul, which is left out.
pub open spec fn truncate_at_nul(units: Seq<u16>) -> Seq<u16> {
    units.take(len_before_nul(units) as int)
}

/// `len_before_nul` stays within the sequence, and what `truncate_at_nul` keeps is free of nul.
pub proof fn lemma_truncate_at_nul(units: Seq<u16>)
    ensures
        len_before_nul(units) <= units.len(),
        nul_free(truncate_at_nul(units)),
        len_before_nul(units) < units.len() ==> units[len_before_nul(units) as int] == 0,
    decreases units.len(),
{
    if units.len() == 0 || units[0] == 0 {
    } else {
        let rest = units.drop_first();
        lemma_truncate_at_nul(rest);
        let n = len_before_nul(rest);
        assert forall|i: int| 0 <= i < truncate_at_nul(units).len() implies truncate_at_nul(
            units,
        )[i] != 0 by {
            if i > 0 {
                assert(truncate_at_nul(units)[i] == truncate_at_nul(rest)[i - 1]);
            }
        }
        if n < rest.len() {
            assert(units[n as int + 1] == rest[n as int]);
        }
    }
}

/// Truncating a sequence that holds no nul keeps all of it.
pub proof fn lemma_truncate_nul_free(units: Seq<u16>)
    requires
        nul_free(units),
    ensures
        len_before_nul(units) == units.len(),
        truncate_at_nul(units) == units,
    decreases units.len(),
{
    if units.len() == 0 {
        assert(truncate_at_nul(units) =~= units);
    } else {
        let rest = units.drop_first();
        assert(units[0] != 0);
        assert forall|i: int| 0 <= i < rest.len() implies rest[i] != 0 by {
            assert(rest[i] == units[i + 1]);
        }
        lemma_truncate_nul_free(rest);
        assert(truncate_at_nul(units) =~= units);
    }
}

/// `<U16CString as Clone>::clone`: the copy holds the same code units.
pub assume_specification[ <U16CString as Clone>::clone ](s: &U16CString) -> (r: U16CString)
    ensures
        wide_units(r) == wide_units(*s),
;

/// `U16CString::from_vec_truncate`: the string holds the given code units up to the first nul.
#[verifier::external_body]
pub(crate) fn wide_from_vec_truncate(units: Vec<u16>) -> (r: U16CString)
    ensures
        wide_units(r) == truncate_at_nul(units@),
{
    U16CString::from_vec_truncate(units)
}

/// `U16CString::as_ucstr`: the borrowed string holds the code units of the owned one.
#[verifier::external_body]
pub(crate) fn wide_as_ucstr(s: &U16CString) -> (r: &U16CStr)
    ensures
        wide_str_units(r) == wide_units(*s),
{
    s.as_ucstr()
}

/// `U16CStr::as_slice`: the code units of the string without the terminating nul, none
/// of which is nul.
#[verifier::external_body]
pub(crate) fn wide_str_as_slice(s: &U16CStr) -> (r: &[u16])
    ensures
        r@ == wide_str_units(s),
        nul_free(r@),
{
    s.as_slice()
}

/// `U16CStr::to_string_lossy`: std's lossy decoding of the code units of the string.
#[verifier::external_body]
pub(crate) fn wide_str_to_string_lossy(s: &U16CStr) -> (r: String)
    ensures
        r@ == utf16_lossy(wide_str_units(s)),
{
    s.to_string_lossy()
}

/// The code units of an owned string without the terminating nul, none of which is nul.
pub(crate) fn wide_as_slice(s: &U16CString) -> (r: &[u16])
    ensures
        r@ == wide_units(*s),
        nul_free(r@),
{
    wide_str_as_slice(wide_as_ucstr(s))
}

/// The lossy decoding of the code units of an owned string.
pub(crate) fn wide_to_string_lossy(s: &U16CString) -> (r: String)
    ensures
        r@ == utf16_lossy(wide_units(*s)),
{
    wide_str_to_string_lossy(wide_as_ucstr(s))
}

/// `<U16CString as PartialEq>::eq`: two strings are equal when they hold the same code units.
#[verifier::external_body]
pub(crate) fn wide_eq(a: &U16CString, b: &U16CString) -> (r: bool)
    ensures
        r == (wide_units(*a) == wide_units(*b)),
{
    a == b
}

} // verus!
