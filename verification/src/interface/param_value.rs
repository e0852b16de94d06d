//! The owned, tagged values that plugin logic reads and produces.

use vstd::prelude::*;
use widestring::U16CString;
use crate::ffi::provided_types::Tm;
use crate::interface::param_type::ParamType;
use crate::interface::wide::encode_utf16;
use crate::interface::wide::truncate_at_nul;
use crate::interface::wide::utf16_lossy;
use crate::interface::wide::utf16_units;
use crate::interface::wide::wide_eq;
use crate::interface::wide::wide_from_vec_truncate;
use crate::interface::wide::wide_to_string_lossy;
use crate::interface::wide::wide_units;

verus! {

/// A value of the host's variant type, owned by the plugin.
///
/// A float is held as the bit pattern of its IEEE 754 binary64 encoding.
#[derive(Debug)]
pub enum ParamValue {
    /// Empty value
    Empty,
    /// Boolean value
    Bool(bool),
    /// Integer value
    I32(i32),
    /// Float value, as its bit pattern
    F64(u64),
    /// Date-time value
    Date(Tm),
    /// UTF-16 string value
    String(U16CString),
    /// Blob value
    Blob(Vec<u8>),
}

/// What a `ParamValue` holds.
pub enum ParamValueView {
    Empty,
    Bool(bool),
    I32(i32),
    F64(u64),
    Date(Tm),
    String(Seq<u16>),
    Blob(Seq<u8>),
}

impl View for ParamValue {
    type V = ParamValueView;

    open spec fn view(&self) -> ParamValueView {
        match self {
            ParamValue::Empty => ParamValueView::Empty,
            ParamValue::Bool(v) => ParamValueView::Bool(*v),
            ParamValue::I32(v) => ParamValueView::I32(*v),
            ParamValue::F64(v) => ParamValueView::F64(*v),
            ParamValue::Date(v) => ParamValueView::Date(*v),
            ParamValue::String(v) => ParamValueView::String(wide_units(*v)),
            ParamValue::Blob(v) => ParamValueView::Blob(v@),
        }
    }
}

/// The magnitude bits of a binary64 bit pattern: the pattern without its sign bit.
pub open spec fn f64_magnitude(bits: u64) -> int {
    bits as int % 0x8000_0000_0000_0000
}

/// The bit pattern encodes a NaN: all exponent bits set and a mantissa that is not zero.
pub open spec fn f64_is_nan(bits: u64) -> bool {
    f64_magnitude(bits) > 0x7ff0_0000_0000_0000
}

/// Equality of two floats given by their bit patterns: a NaN equals nothing,
/// the two zeros are equal, and any other two floats are equal when their bits are.
pub open spec fn f64_equal(a: u64, b: u64) -> bool {
    &&& !f64_is_nan(a)
    &&& !f64_is_nan(b)
    &&& (a == b || (f64_magnitude(a) == 0 && f64_magnitude(b) == 0))
}

/// Equality of values: values of different variants are never equal, and two values of
/// one variant are equal when their payloads are.
pub open spec fn values_equal(a: ParamValueView, b: ParamValueView) -> bool {
    match (a, b) {
        (ParamValueView::Empty, ParamValueView::Empty) => true,
        (ParamValueView::Bool(x), ParamValueView::Bool(y)) => x == y,
        (ParamValueView::I32(x), ParamValueView::I32(y)) => x == y,
        (ParamValueView::F64(x), ParamValueView::F64(y)) => f64_equal(x, y),
        (ParamValueView::Date(x), ParamValueView::Date(y)) => x == y,
        (ParamValueView::String(x), ParamValueView::String(y)) => x == y,
        (ParamValueView::Blob(x), ParamValueView::Blob(y)) => x == y,
        _ => false,
    }
}

/// The value is the sentinel: the two are equal, or they hold the same thing. The
/// second adds a float that is not a number, which equals nothing but is the sentinel
/// where the sentinel has its bit pattern. So every value is the sentinel against
/// itself.
pub open spec fn is_sentinel(value: ParamValueView, sentinel: ParamValueView) -> bool {
    values_equal(value, sentinel) || value == sentinel
}

/// The typed reading of an optional parameter: absent where the value is the
/// sentinel, else the typed conversion `typed` of the value where it has one.
pub open spec fn read_optional<T>(
    value: ParamValueView,
    sentinel: ParamValueView,
    typed: Option<T>,
) -> Option<Option<T>> {
    if is_sentinel(value, sentinel) {
        Some(None)
    } else {
        match typed {
            Some(v) => Some(Some(v)),
            None => None,
        }
    }
}

/// A value equals itself unless it is a float that is not a number.
pub proof fn law_equal_to_itself(value: ParamValueView)
    ensures
        values_equal(value, value) <==> !(value matches ParamValueView::F64(bits) && f64_is_nan(
            bits,
        )),
{
}

/// The optional reading of a parameter: every sentinel reads as absent against
/// itself; a value that is not the sentinel reads as its typed conversion where it has
/// one, and as not applicable where it has none.
pub proof fn law_optional_sentinel<T>(
    value: ParamValueView,
    sentinel: ParamValueView,
    typed: Option<T>,
)
    ensures
        read_optional(sentinel, sentinel, typed) == Some(None::<T>),
        !is_sentinel(value, sentinel) && typed is Some ==> read_optional(value, sentinel, typed)
            == Some(typed),
        !is_sentinel(value, sentinel) && typed is None ==> read_optional(value, sentinel, typed)
            == None::<Option<T>>,
{
}

/// A value of another kind than the sentinel is not the sentinel: where the sentinel
/// has the typed conversion that is asked for and the value has not, the reading is
/// not applicable.
pub proof fn law_other_kind_is_not_applicable(value: ParamValueView, sentinel: ParamValueView)
    ensures
        value.as_bool() is None && sentinel.as_bool() is Some ==> read_optional(
            value,
            sentinel,
            value.as_bool(),
        ) is None,
        value.as_i32() is None && sentinel.as_i32() is Some ==> read_optional(
            value,
            sentinel,
            value.as_i32(),
        ) is None,
        value.as_f64() is None && sentinel.as_f64() is Some ==> read_optional(
            value,
            sentinel,
            value.as_f64(),
        ) is None,
        value.as_date() is None && sentinel.as_date() is Some ==> read_optional(
            value,
            sentinel,
            value.as_date(),
        ) is None,
        value.as_str() is None && sentinel.as_str() is Some ==> read_optional(
            value,
            sentinel,
            value.as_str(),
        ) is None,
        value.as_blob() is None && sentinel.as_blob() is Some ==> read_optional(
            value,
            sentinel,
            value.as_blob(),
        ) is None,
{
}

impl ParamValueView {
    /// The payload of a boolean value.
    pub open spec fn as_bool(self) -> Option<bool> {
        match self {
            ParamValueView::Bool(v) => Some(v),
            _ => None,
        }
    }

    /// The payload of an integer value.
    pub open spec fn as_i32(self) -> Option<i32> {
        match self {
            ParamValueView::I32(v) => Some(v),
            _ => None,
        }
    }

    /// The bit pattern of a float value.
    pub open spec fn as_f64(self) -> Option<u64> {
        match self {
            ParamValueView::F64(v) => Some(v),
            _ => None,
        }
    }

    /// The payload of a date-time value.
    pub open spec fn as_date(self) -> Option<Tm> {
        match self {
            ParamValueView::Date(v) => Some(v),
            _ => None,
        }
    }

    /// The text of a string value, decoded lossily.
    pub open spec fn as_str(self) -> Option<Seq<char>> {
        match self {
            ParamValueView::String(v) => Some(utf16_lossy(v)),
            _ => None,
        }
    }

    /// The bytes of a blob value.
    pub open spec fn as_blob(self) -> Option<Seq<u8>> {
        match self {
            ParamValueView::Blob(v) => Some(v),
            _ => None,
        }
    }
}

/// Whether two floats, given by their bit patterns, are equal.
pub fn f64_bits_equal(a: u64, b: u64) -> (r: bool)
    ensures
        r == f64_equal(a, b),
{
    let ma: u64 = a % 0x8000_0000_0000_0000;
    let mb: u64 = b % 0x8000_0000_0000_0000;
    if ma > 0x7ff0_0000_0000_0000 || mb > 0x7ff0_0000_0000_0000 {
        false
    } else {
        a == b || (ma == 0 && mb == 0)
    }
}

/// Whether two byte sequences hold the same bytes.
pub fn bytes_equal(a: &[u8], b: &[u8]) -> (r: bool)
    ensures
        r == (a@ == b@),
{
    if a.len() != b.len() {
        return false;
    }
    let mut i: usize = 0;
    while i < a.len()
        invariant
            i <= a.len(),
            a.len() == b.len(),
            forall|j: int| 0 <= j < i ==> a@[j] == b@[j],
        decreases a.len() - i,
    {
        if a[i] != b[i] {
            return false;
        }
        i += 1;
    }
    assert(a@ =~= b@);
    true
}

impl ParamValue {
    /// The empty value.
    pub fn new_empty() -> (r: Self)
        ensures
            r == ParamValue::Empty,
    {
        Self::Empty
    }

    /// A boolean value.
    pub fn from_bool(val: bool) -> (r: Self)
        ensures
            r == ParamValue::Bool(val),
    {
        Self::Bool(val)
    }

    /// An integer value.
    pub fn from_i32(val: i32) -> (r: Self)
        ensures
            r == ParamValue::I32(val),
    {
        Self::I32(val)
    }

    /// A float value from the bit pattern of its binary64 encoding.
    pub fn from_f64(val: u64) -> (r: Self)
        ensures
            r == ParamValue::F64(val),
    {
        Self::F64(val)
    }

    /// A date-time value.
    pub fn from_date(val: Tm) -> (r: Self)
        ensures
            r == ParamValue::Date(val),
    {
        Self::Date(val)
    }

    /// A string value that holds the UTF-16 encoding of `val` up to its first nul.
    pub fn from_str(val: &str) -> (r: Self)
        ensures
            r@ == ParamValueView::String(truncate_at_nul(encode_utf16(val@))),
    {
        Self::String(wide_from_vec_truncate(utf16_units(val)))
    }

    /// A blob value that holds the given bytes.
    pub fn from_blob(val: Vec<u8>) -> (r: Self)
        ensures
            r == ParamValue::Blob(val),
    {
        Self::Blob(val)
    }

    /// The payload of a boolean value; none for a value of another kind.
    pub fn into_bool(self) -> (r: Option<bool>)
        ensures
            r == self@.as_bool(),
    {
        match self {
            ParamValue::Bool(v) => Some(v),
            _ => None,
        }
    }

    /// The payload of an integer value; none for a value of another kind.
    pub fn into_i32(self) -> (r: Option<i32>)
        ensures
            r == self@.as_i32(),
    {
        match self {
            ParamValue::I32(v) => Some(v),
            _ => None,
        }
    }

    /// The bit pattern of a float value.
    pub fn into_f64(self) -> (r: Option<u64>)
        ensures
            r == self@.as_f64(),
    {
        match self {
            ParamValue::F64(v) => Some(v),
            _ => None,
        }
    }

    /// The payload of a date-time value; none for a value of another kind.
    pub fn into_date(self) -> (r: Option<Tm>)
        ensures
            r == self@.as_date(),
    {
        match self {
            ParamValue::Date(v) => Some(v),
            _ => None,
        }
    }

    /// The text of a string value, decoded lossily.
    pub fn into_str(self) -> (r: Option<String>)
        ensures
            r is Some == self@.as_str() is Some,
            r matches Some(s) ==> Some(s@) == self@.as_str(),
    {
        match self {
            ParamValue::String(v) => Some(wide_to_string_lossy(&v)),
            _ => None,
        }
    }

    /// The bytes of a blob value; none for a value of another kind.
    pub fn into_blob(self) -> (r: Option<Vec<u8>>)
        ensures
            r is Some == self@.as_blob() is Some,
            r matches Some(b) ==> self == ParamValue::Blob(b),
    {
        match self {
            ParamValue::Blob(v) => Some(v),
            _ => None,
        }
    }

    /// The payload of a boolean value; none for a value of another kind.
    pub fn to_bool(&self) -> (r: Option<bool>)
        ensures
            r == self@.as_bool(),
    {
        match self {
            ParamValue::Bool(v) => Some(*v),
            _ => None,
        }
    }

    /// The payload of an integer value; none for a value of another kind.
    pub fn to_i32(&self) -> (r: Option<i32>)
        ensures
            r == self@.as_i32(),
    {
        match self {
            ParamValue::I32(v) => Some(*v),
            _ => None,
        }
    }

    /// The bit pattern of a float value.
    pub fn to_f64(&self) -> (r: Option<u64>)
        ensures
            r == self@.as_f64(),
    {
        match self {
            ParamValue::F64(v) => Some(*v),
            _ => None,
        }
    }

    /// The payload of a date-time value; none for a value of another kind.
    pub fn to_date(&self) -> (r: Option<Tm>)
        ensures
            r == self@.as_date(),
    {
        match self {
            ParamValue::Date(v) => Some(*v),
            _ => None,
        }
    }

    /// The text of a string value, decoded lossily.
    pub fn to_str(&self) -> (r: Option<String>)
        ensures
            r is Some == self@.as_str() is Some,
            r matches Some(s) ==> Some(s@) == self@.as_str(),
    {
        match self {
            ParamValue::String(v) => Some(wide_to_string_lossy(v)),
            _ => None,
        }
    }

    /// A copy of the bytes of a blob value; none for a value of another kind.
    pub fn to_blob(&self) -> (r: Option<Vec<u8>>)
        ensures
            r is Some == self@.as_blob() is Some,
            r matches Some(b) ==> Some(b@) == self@.as_blob(),
    {
        match self {
            ParamValue::Blob(v) => Some(v.clone()),
            _ => None,
        }
    }

    /// Whether the value is the sentinel `none_value`: the two are equal, or both are
    /// floats of one bit pattern.
    pub fn is_sentinel(&self, none_value: &ParamValue) -> (r: bool)
        ensures
            r == is_sentinel(self@, none_value@),
    {
        if self.eq(none_value) {
            true
        } else {
            match self {
                ParamValue::F64(a) => match none_value {
                    ParamValue::F64(b) => *a == *b,
                    _ => false,
                },
                _ => false,
            }
        }
    }

    /// The optional reading of a boolean parameter, with `none_value` as the sentinel
    /// that stands for an omitted value.
    pub fn to_optional_bool(&self, none_value: &ParamValue) -> (r: Option<Option<bool>>)
        ensures
            r == read_optional(self@, none_value@, self@.as_bool()),
    {
        if self.is_sentinel(none_value) {
            Some(None)
        } else {
            match self.to_bool() {
                Some(value) => Some(Some(value)),
                None => None,
            }
        }
    }

    /// The optional reading of an integer parameter, with `none_value` as the sentinel
    /// that stands for an omitted value.
    pub fn to_optional_i32(&self, none_value: &ParamValue) -> (r: Option<Option<i32>>)
        ensures
            r == read_optional(self@, none_value@, self@.as_i32()),
    {
        if self.is_sentinel(none_value) {
            Some(None)
        } else {
            match self.to_i32() {
                Some(value) => Some(Some(value)),
                None => None,
            }
        }
    }

    /// The optional reading of a float value, as its bit pattern.
    pub fn to_optional_f64(&self, none_value: &ParamValue) -> (r: Option<Option<u64>>)
        ensures
            r == read_optional(self@, none_value@, self@.as_f64()),
    {
        if self.is_sentinel(none_value) {
            Some(None)
        } else {
            match self.to_f64() {
                Some(value) => Some(Some(value)),
                None => None,
            }
        }
    }

    /// The optional reading of a date-time parameter, with `none_value` as the
    /// sentinel that stands for an omitted value.
    pub fn to_optional_date(&self, none_value: &ParamValue) -> (r: Option<Option<Tm>>)
        ensures
            r == read_optional(self@, none_value@, self@.as_date()),
    {
        if self.is_sentinel(none_value) {
            Some(None)
        } else {
            match self.to_date() {
                Some(value) => Some(Some(value)),
                None => None,
            }
        }
    }

    /// The optional reading of a string parameter, with `none_value` as the sentinel
    /// that stands for an omitted value.
    pub fn to_optional_str(&self, none_value: &ParamValue) -> (r: Option<Option<String>>)
        ensures
            match read_optional(self@, none_value@, self@.as_str()) {
                Some(Some(text)) => r matches Some(Some(s)) && s@ == text,
                Some(None) => r == Some(None::<String>),
                None => r is None,
            },
    {
        if self.is_sentinel(none_value) {
            Some(None)
        } else {
            match self.to_str() {
                Some(value) => Some(Some(value)),
                None => None,
            }
        }
    }

    /// The optional reading of a blob parameter, with `none_value` as the sentinel
    /// that stands for an omitted value.
    pub fn to_optional_blob(&self, none_value: &ParamValue) -> (r: Option<Option<Vec<u8>>>)
        ensures
            match read_optional(self@, none_value@, self@.as_blob()) {
                Some(Some(bytes)) => r matches Some(Some(b)) && b@ == bytes,
                Some(None) => r == Some(None::<Vec<u8>>),
                None => r is None,
            },
    {
        if self.is_sentinel(none_value) {
            Some(None)
        } else {
            match self.to_blob() {
                Some(value) => Some(Some(value)),
                None => None,
            }
        }
    }

    /// Replaces the value by a boolean.
    pub fn set_bool(&mut self, val: bool)
        ensures
            *final(self) == ParamValue::Bool(val),
    {
        *self = Self::Bool(val);
    }

    /// Replaces the value by an integer.
    pub fn set_i32(&mut self, val: i32)
        ensures
            *final(self) == ParamValue::I32(val),
    {
        *self = Self::I32(val);
    }

    /// Replaces the value by a float, given as its bit pattern.
    pub fn set_f64(&mut self, val: u64)
        ensures
            *final(self) == ParamValue::F64(val),
    {
        *self = Self::F64(val);
    }

    /// Replaces the value by a date-time.
    pub fn set_date(&mut self, val: Tm)
        ensures
            *final(self) == ParamValue::Date(val),
    {
        *self = Self::Date(val);
    }

    /// Replaces the value by a string that holds the UTF-16 encoding of `val`
    /// up to its first nul.
    pub fn set_str(&mut self, val: &str)
        ensures
            final(self)@ == ParamValueView::String(truncate_at_nul(encode_utf16(val@))),
    {
        *self = Self::String(wide_from_vec_truncate(utf16_units(val)));
    }

    /// Replaces the value by a blob that holds the given bytes.
    pub fn set_blob(&mut self, val: Vec<u8>)
        ensures
            *final(self) == ParamValue::Blob(val),
    {
        *self = Self::Blob(val);
    }
}

impl ParamValue {
    /// The name of the constructor for values of kind `ty`.
    pub fn from_type_fn_name(ty: ParamType) -> (r: &'static str)
        ensures
            r@ == match ty {
                ParamType::Bool => "from_bool"@,
                ParamType::I32 => "from_i32"@,
                ParamType::F64 => "from_f64"@,
                ParamType::Date => "from_date"@,
                ParamType::String => "from_str"@,
                ParamType::Blob => "from_blob"@,
            },
    {
        match ty {
            ParamType::Bool => "from_bool",
            ParamType::I32 => "from_i32",
            ParamType::F64 => "from_f64",
            ParamType::Date => "from_date",
            ParamType::String => "from_str",
            ParamType::Blob => "from_blob",
        }
    }

    /// The name of the consuming accessor for values of kind `ty`.
    pub fn into_type_fn_name(ty: ParamType) -> (r: &'static str)
        ensures
            r@ == match ty {
                ParamType::Bool => "into_bool"@,
                ParamType::I32 => "into_i32"@,
                ParamType::F64 => "into_f64"@,
                ParamType::Date => "into_date"@,
                ParamType::String => "into_str"@,
                ParamType::Blob => "into_blob"@,
            },
    {
        match ty {
            ParamType::Bool => "into_bool",
            ParamType::I32 => "into_i32",
            ParamType::F64 => "into_f64",
            ParamType::Date => "into_date",
            ParamType::String => "into_str",
            ParamType::Blob => "into_blob",
        }
    }

    /// The name of the borrowing accessor for values of kind `ty`.
    pub fn to_type_fn_name(ty: ParamType) -> (r: &'static str)
        ensures
            r@ == match ty {
                ParamType::Bool => "to_bool"@,
                ParamType::I32 => "to_i32"@,
                ParamType::F64 => "to_f64"@,
                ParamType::Date => "to_date"@,
                ParamType::String => "to_str"@,
                ParamType::Blob => "to_blob"@,
            },
    {
        match ty {
            ParamType::Bool => "to_bool",
            ParamType::I32 => "to_i32",
            ParamType::F64 => "to_f64",
            ParamType::Date => "to_date",
            ParamType::String => "to_str",
            ParamType::Blob => "to_blob",
        }
    }

    /// The name of the optional accessor for values of kind `ty`.
    pub fn to_optional_type_fn_name(ty: ParamType) -> (r: &'static str)
        ensures
            r@ == match ty {
                ParamType::Bool => "to_optional_bool"@,
                ParamType::I32 => "to_optional_i32"@,
                ParamType::F64 => "to_optional_f64"@,
                ParamType::Date => "to_optional_date"@,
                ParamType::String => "to_optional_str"@,
                ParamType::Blob => "to_optional_blob"@,
            },
    {
        match ty {
            ParamType::Bool => "to_optional_bool",
            ParamType::I32 => "to_optional_i32",
            ParamType::F64 => "to_optional_f64",
            ParamType::Date => "to_optional_date",
            ParamType::String => "to_optional_str",
            ParamType::Blob => "to_optional_blob",
        }
    }

    /// The name of the setter for values of kind `ty`.
    pub fn set_type_fn_name(ty: ParamType) -> (r: &'static str)
        ensures
            r@ == match ty {
                ParamType::Bool => "set_bool"@,
                ParamType::I32 => "set_i32"@,
                ParamType::F64 => "set_f64"@,
                ParamType::Date => "set_date"@,
                ParamType::String => "set_str"@,
                ParamType::Blob => "set_blob"@,
            },
    {
        match ty {
            ParamType::Bool => "set_bool",
            ParamType::I32 => "set_i32",
            ParamType::F64 => "set_f64",
            ParamType::Date => "set_date",
            ParamType::String => "set_str",
            ParamType::Blob => "set_blob",
        }
    }
}

impl PartialEq for ParamValue {
    /// Whether two values are of one variant and hold equal payloads.
    fn eq(&self, other: &Self) -> (r: bool) {
        match self {
            ParamValue::Empty => match other {
                ParamValue::Empty => true,
                _ => false,
            },
            ParamValue::Bool(a) => match other {
                ParamValue::Bool(b) => *a == *b,
                _ => false,
            },
            ParamValue::I32(a) => match other {
                ParamValue::I32(b) => *a == *b,
                _ => false,
            },
            ParamValue::F64(a) => match other {
                ParamValue::F64(b) => f64_bits_equal(*a, *b),
                _ => false,
            },
            ParamValue::Date(a) => match other {
                ParamValue::Date(b) => *a == *b,
                _ => false,
            },
            ParamValue::String(a) => match other {
                ParamValue::String(b) => wide_eq(a, b),
                _ => false,
            },
            ParamValue::Blob(a) => match other {
                ParamValue::Blob(b) => bytes_equal(a.as_slice(), b.as_slice()),
                _ => false,
            },
        }
    }
}

impl vstd::std_specs::cmp::PartialEqSpecImpl for ParamValue {
    open spec fn obeys_eq_spec() -> bool {
        true
    }

    open spec fn eq_spec(&self, other: &Self) -> bool {
        values_equal(self@, other@)
    }
}

impl Clone for ParamValue {
    fn clone(&self) -> (r: Self)
        ensures
            r@ == self@,
    {
        match self {
            ParamValue::Empty => ParamValue::Empty,
            ParamValue::Bool(v) => ParamValue::Bool(*v),
            ParamValue::I32(v) => ParamValue::I32(*v),
            ParamValue::F64(v) => ParamValue::F64(*v),
            ParamValue::Date(v) => ParamValue::Date(*v),
            ParamValue::String(v) => ParamValue::String(v.clone()),
            ParamValue::Blob(v) => ParamValue::Blob(v.clone()),
        }
    }
}

/// What each value of a sequence holds.
pub open spec fn views_of(values: Seq<ParamValue>) -> Seq<ParamValueView> {
    values.map_values(|v: ParamValue| v@)
}

/// The values of one call, in the order of the parameters. Their number is set when
/// the sequence is made and never changes.
pub struct ParamValues {
    values: Vec<ParamValue>,
}

impl View for ParamValues {
    type V = Seq<ParamValueView>;

    closed spec fn view(&self) -> Seq<ParamValueView> {
        views_of(self.values@)
    }
}

impl ParamValues {
    /// The sequence of the given values.
    pub fn new(values: Vec<ParamValue>) -> (r: Self)
        ensures
            r@ == views_of(values@),
    {
        Self { values }
    }

    /// The number of values.
    pub fn len(&self) -> (r: usize)
        ensures
            r == self@.len(),
    {
        self.values.len()
    }

    /// Whether there is no value.
    pub fn is_empty(&self) -> (r: bool)
        ensures
            r == (self@.len() == 0),
    {
        self.values.len() == 0
    }

    /// An iterator over the values, first to last.
    pub fn iter(&self) -> (r: std::slice::Iter<'_, ParamValue>)
        ensures
            views_of(vstd::std_specs::slice::into_iter_elts(r)) == self@,
    {
        let r = self.values.iter();
        proof {
            broadcast use vstd::std_specs::slice::axiom_spec_slice_iter;
            assert(vstd::std_specs::slice::into_iter_elts(r) =~= self.values@);
        }
        r
    }
}

impl Clone for ParamValues {
    fn clone(&self) -> (r: Self)
        ensures
            r@ == self@,
    {
        let mut values: Vec<ParamValue> = Vec::new();
        let mut i: usize = 0;
        while i < self.values.len()
            invariant
                i <= self.values.len(),
                values.len() == i,
                forall|j: int| 0 <= j < i ==> (#[trigger] values@[j])@ == self.values@[j]@,
            decreases self.values.len() - i,
        {
            values.push(self.values[i].clone());
            i += 1;
        }
        let r = ParamValues { values };
        proof {
            assert(r@ =~= self@);
        }
        r
    }
}

impl std::ops::Index<usize> for ParamValues {
    type Output = ParamValue;

    /// The value at `index`.
    fn index(&self, index: usize) -> (r: &ParamValue)
        ensures
            r@ == self@[index as int],
    {
        &self.values[index]
    }
}

impl vstd::std_specs::core::IndexSpecImpl<usize> for ParamValues {
    open spec fn index_req(&self, index: &usize) -> bool {
        *index < self@.len()
    }
}

impl ParamValues {
    /// The value at `index`, to be changed in place.
    pub fn index_mut(&mut self, index: usize) -> (r: &mut ParamValue)
        requires
            index < old(self)@.len(),
        ensures
            r@ == old(self)@[index as int],
            final(self)@ == old(self)@.update(index as int, final(r)@),
    {
        &mut self.values[index]
    }
}

} // verus!
