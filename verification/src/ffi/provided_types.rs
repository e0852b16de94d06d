//! The values that cross the boundary in the host's own representation, and the
//! marshalling between them and the owned values of plugin logic.
//!
//! A raw variant is modelled by what its fields hold: the tag, and the member of the
//! payload that was last written. A string or blob member holds the address of its
//! buffer in host memory together with the contents of that buffer.

use vstd::prelude::*;
use crate::ffi::memory_manager::MemoryManager;
use crate::interface::param_value::ParamValue;
use crate::interface::param_value::ParamValues;
use crate::interface::param_value::ParamValueView;
use crate::interface::wide::lemma_truncate_nul_free;
use crate::interface::wide::nul_free;
use crate::interface::wide::truncate_at_nul;
use crate::interface::wide::wide_as_slice;
use crate::interface::wide::wide_from_vec_truncate;

verus! {

/// A date and time as a broken-down calendar value.
#[derive(Clone, Copy, Debug, PartialEq, Eq, Structural)]
pub struct Tm {
    pub year: i32,
    pub month: i32,
    pub day: i32,
    pub hour: i32,
    pub minute: i32,
    pub second: i32,
    pub millisecond: i32,
}

/// The tag of a raw variant: the kinds of value that the host's variant type knows.
#[derive(Clone, Copy, Debug, PartialEq, Eq, Structural)]
pub enum VariantType {
    Empty,
    Null,
    Int16,
    Int32,
    Float,
    Double,
    Date,
    Time,
    PStr,
    Interface,
    Error,
    Bool,
    Variant,
    Int8,
    UInt8,
    UInt16,
    UInt32,
    Int64,
    UInt64,
    Int,
    UInt,
    HResult,
    WStr,
    Blob,
    ClsID,
    Undefined,
}

/// The members of the payload of a raw variant.
#[derive(Clone, Copy, Debug, PartialEq, Eq, Structural)]
pub enum PayloadKind {
    /// No member: the tag stands alone or is of a kind that the bridge does not convert.
    Absent,
    Bool,
    I32,
    F64,
    Tm,
    DataStr,
    DataBlob,
}

impl VariantType {
    /// The number that stands for the tag in a raw variant.
    pub open spec fn spec_code(self) -> u16 {
        match self {
            VariantType::Empty => 0,
            VariantType::Null => 1,
            VariantType::Int16 => 2,
            VariantType::Int32 => 3,
            VariantType::Float => 4,
            VariantType::Double => 5,
            VariantType::Date => 6,
            VariantType::Time => 7,
            VariantType::PStr => 8,
            VariantType::Interface => 9,
            VariantType::Error => 10,
            VariantType::Bool => 11,
            VariantType::Variant => 12,
            VariantType::Int8 => 13,
            VariantType::UInt8 => 14,
            VariantType::UInt16 => 15,
            VariantType::UInt32 => 16,
            VariantType::Int64 => 17,
            VariantType::UInt64 => 18,
            VariantType::Int => 19,
            VariantType::UInt => 20,
            VariantType::HResult => 21,
            VariantType::WStr => 22,
            VariantType::Blob => 23,
            VariantType::ClsID => 24,
            VariantType::Undefined => 0xffff,
        }
    }

    /// The tag that a number stands for; a number that stands for no tag is read as
    /// the undefined tag.
    pub open spec fn spec_from_code(code: u16) -> VariantType {
        if code == 0 {
            VariantType::Empty
        } else if code == 1 {
            VariantType::Null
        } else if code == 2 {
            VariantType::Int16
        } else if code == 3 {
            VariantType::Int32
        } else if code == 4 {
            VariantType::Float
        } else if code == 5 {
            VariantType::Double
        } else if code == 6 {
            VariantType::Date
        } else if code == 7 {
            VariantType::Time
        } else if code == 8 {
            VariantType::PStr
        } else if code == 9 {
            VariantType::Interface
        } else if code == 10 {
            VariantType::Error
        } else if code == 11 {
            VariantType::Bool
        } else if code == 12 {
            VariantType::Variant
        } else if code == 13 {
            VariantType::Int8
        } else if code == 14 {
            VariantType::UInt8
        } else if code == 15 {
            VariantType::UInt16
        } else if code == 16 {
            VariantType::UInt32
        } else if code == 17 {
            VariantType::Int64
        } else if code == 18 {
            VariantType::UInt64
        } else if code == 19 {
            VariantType::Int
        } else if code == 20 {
            VariantType::UInt
        } else if code == 21 {
            VariantType::HResult
        } else if code == 22 {
            VariantType::WStr
        } else if code == 23 {
            VariantType::Blob
        } else if code == 24 {
            VariantType::ClsID
        } else {
            VariantType::Undefined
        }
    }

    /// The member of the payload that the tag calls for.
    pub open spec fn spec_payload_kind(self) -> PayloadKind {
        match self {
            VariantType::Bool => PayloadKind::Bool,
            VariantType::Int32 => PayloadKind::I32,
            VariantType::Double => PayloadKind::F64,
            VariantType::Time => PayloadKind::Tm,
            VariantType::WStr => PayloadKind::DataStr,
            VariantType::Blob => PayloadKind::DataBlob,
            _ => PayloadKind::Absent,
        }
    }

    /// The number that stands for the tag in a raw variant.
    #[verifier::when_used_as_spec(spec_code)]
    pub fn code(self) -> (r: u16)
        ensures
            r == self.spec_code(),
    {
        match self {
            VariantType::Empty => 0,
            VariantType::Null => 1,
            VariantType::Int16 => 2,
            VariantType::Int32 => 3,
            VariantType::Float => 4,
            VariantType::Double => 5,
            VariantType::Date => 6,
            VariantType::Time => 7,
            VariantType::PStr => 8,
            VariantType::Interface => 9,
            VariantType::Error => 10,
            VariantType::Bool => 11,
            VariantType::Variant => 12,
            VariantType::Int8 => 13,
            VariantType::UInt8 => 14,
            VariantType::UInt16 => 15,
            VariantType::UInt32 => 16,
            VariantType::Int64 => 17,
            VariantType::UInt64 => 18,
            VariantType::Int => 19,
            VariantType::UInt => 20,
            VariantType::HResult => 21,
            VariantType::WStr => 22,
            VariantType::Blob => 23,
            VariantType::ClsID => 24,
            VariantType::Undefined => 0xffff,
        }
    }

    /// The tag that a number stands for.
    #[verifier::when_used_as_spec(spec_from_code)]
    pub fn from_code(code: u16) -> (r: VariantType)
        ensures
            r == VariantType::spec_from_code(code),
    {
        match code {
            0 => VariantType::Empty,
            1 => VariantType::Null,
            2 => VariantType::Int16,
            3 => VariantType::Int32,
            4 => VariantType::Float,
            5 => VariantType::Double,
            6 => VariantType::Date,
            7 => VariantType::Time,
            8 => VariantType::PStr,
            9 => VariantType::Interface,
            10 => VariantType::Error,
            11 => VariantType::Bool,
            12 => VariantType::Variant,
            13 => VariantType::Int8,
            14 => VariantType::UInt8,
            15 => VariantType::UInt16,
            16 => VariantType::UInt32,
            17 => VariantType::Int64,
            18 => VariantType::UInt64,
            19 => VariantType::Int,
            20 => VariantType::UInt,
            21 => VariantType::HResult,
            22 => VariantType::WStr,
            23 => VariantType::Blob,
            24 => VariantType::ClsID,
            _ => VariantType::Undefined,
        }
    }

    /// The member of the payload that the tag calls for.
    #[verifier::when_used_as_spec(spec_payload_kind)]
    pub fn payload_kind(self) -> (r: PayloadKind)
        ensures
            r == self.spec_payload_kind(),
    {
        match self {
            VariantType::Bool => PayloadKind::Bool,
            VariantType::Int32 => PayloadKind::I32,
            VariantType::Double => PayloadKind::F64,
            VariantType::Time => PayloadKind::Tm,
            VariantType::WStr => PayloadKind::DataStr,
            VariantType::Blob => PayloadKind::DataBlob,
            _ => PayloadKind::Absent,
        }
    }
}

/// Every tag is read back from its number, and every number that stands for a tag is
/// the number of the tag read from it.
pub proof fn law_codes_round_trip(vt: VariantType, code: u16)
    ensures
        VariantType::spec_from_code(vt.spec_code()) == vt,
        code <= 24 || code == 0xffff ==> VariantType::spec_from_code(code).spec_code() == code,
{
}

/// A string payload: the address of a buffer in host memory and the code units in it.
/// The raw length field is the number of code units.
#[derive(Debug, PartialEq, Eq)]
pub struct DataStr {
    pub ptr: usize,
    pub units: Vec<u16>,
}

/// A blob payload: the address of a buffer in host memory and the bytes in it.
/// The raw length field is the number of bytes.
#[derive(Debug, PartialEq, Eq)]
pub struct DataBlob {
    pub ptr: usize,
    pub bytes: Vec<u8>,
}

/// The payload of a raw variant: the member that was last written.
#[derive(Debug, PartialEq, Eq)]
pub enum VariantValue {
    Bool(bool),
    I32(i32),
    /// A float, as the bit pattern of its binary64 encoding.
    F64(u64),
    Tm(Tm),
    DataStr(DataStr),
    DataBlob(DataBlob),
}

/// A raw variant: the tag, and the payload that stands beside it.
#[derive(Debug, PartialEq, Eq)]
pub struct TVariant {
    pub vt: VariantType,
    pub value: VariantValue,
}

/// What a payload holds.
pub enum VariantValueView {
    Bool(bool),
    I32(i32),
    F64(u64),
    Tm(Tm),
    DataStr { ptr: usize, units: Seq<u16> },
    DataBlob { ptr: usize, bytes: Seq<u8> },
}

/// What a raw variant holds.
pub struct TVariantView {
    pub vt: VariantType,
    pub value: VariantValueView,
}

impl View for VariantValue {
    type V = VariantValueView;

    open spec fn view(&self) -> VariantValueView {
        match self {
            VariantValue::Bool(v) => VariantValueView::Bool(*v),
            VariantValue::I32(v) => VariantValueView::I32(*v),
            VariantValue::F64(v) => VariantValueView::F64(*v),
            VariantValue::Tm(v) => VariantValueView::Tm(*v),
            VariantValue::DataStr(s) => VariantValueView::DataStr { ptr: s.ptr, units: s.units@ },
            VariantValue::DataBlob(b) => VariantValueView::DataBlob { ptr: b.ptr, bytes: b.bytes@ },
        }
    }
}

impl View for TVariant {
    type V = TVariantView;

    open spec fn view(&self) -> TVariantView {
        TVariantView { vt: self.vt, value: self.value@ }
    }
}

impl Clone for DataStr {
    fn clone(&self) -> (r: Self)
        ensures
            r.ptr == self.ptr,
            r.units@ == self.units@,
    {
        DataStr { ptr: self.ptr, units: copy_units(self.units.as_slice()) }
    }
}

impl Clone for DataBlob {
    fn clone(&self) -> (r: Self)
        ensures
            r.ptr == self.ptr,
            r.bytes@ == self.bytes@,
    {
        DataBlob { ptr: self.ptr, bytes: copy_bytes(self.bytes.as_slice()) }
    }
}

impl Clone for VariantValue {
    fn clone(&self) -> (r: Self)
        ensures
            r@ == self@,
    {
        match self {
            VariantValue::Bool(v) => VariantValue::Bool(*v),
            VariantValue::I32(v) => VariantValue::I32(*v),
            VariantValue::F64(v) => VariantValue::F64(*v),
            VariantValue::Tm(v) => VariantValue::Tm(*v),
            VariantValue::DataStr(s) => VariantValue::DataStr(s.clone()),
            VariantValue::DataBlob(b) => VariantValue::DataBlob(b.clone()),
        }
    }
}

impl Clone for TVariant {
    fn clone(&self) -> (r: Self)
        ensures
            r@ == self@,
    {
        TVariant { vt: self.vt, value: self.value.clone() }
    }
}

/// What each raw variant of a sequence holds.
pub open spec fn raw_views_of(slots: Seq<TVariant>) -> Seq<TVariantView> {
    slots.map_values(|t: TVariant| t@)
}

/// The largest payload length that the raw length field can hold.
pub open spec fn max_payload_len() -> nat {
    0xffff_ffff
}

impl VariantValueView {
    /// Which member the payload is.
    pub open spec fn kind(self) -> PayloadKind {
        match self {
            VariantValueView::Bool(_) => PayloadKind::Bool,
            VariantValueView::I32(_) => PayloadKind::I32,
            VariantValueView::F64(_) => PayloadKind::F64,
            VariantValueView::Tm(_) => PayloadKind::Tm,
            VariantValueView::DataStr { .. } => PayloadKind::DataStr,
            VariantValueView::DataBlob { .. } => PayloadKind::DataBlob,
        }
    }

    /// The payload with the address of its buffer replaced by `ptr`; a payload
    /// without a buffer is left as it is.
    pub open spec fn at(self, ptr: usize) -> VariantValueView {
        match self {
            VariantValueView::DataStr { ptr: _, units } => VariantValueView::DataStr { ptr, units },
            VariantValueView::DataBlob { ptr: _, bytes } => VariantValueView::DataBlob {
                ptr,
                bytes,
            },
            other => other,
        }
    }
}

impl TVariantView {
    /// The raw variant with the address of its buffer replaced by `ptr`; one whose tag
    /// calls for no buffer is left as it is.
    pub open spec fn at(self, ptr: usize) -> TVariantView {
        match self.vt {
            VariantType::WStr | VariantType::Blob => TVariantView {
                vt: self.vt,
                value: self.value.at(ptr),
            },
            _ => self,
        }
    }

    /// The tag is one of the kinds that the bridge converts.
    pub open spec fn supported(self) -> bool {
        match self.vt {
            VariantType::Empty
            | VariantType::Bool
            | VariantType::Int32
            | VariantType::Double
            | VariantType::Time
            | VariantType::WStr
            | VariantType::Blob => true,
            _ => false,
        }
    }

    /// The payload is the member that the tag calls for. An empty variant has no
    /// payload, so any member may stand beside its tag.
    pub open spec fn well_formed(self) -> bool {
        self.vt.spec_payload_kind() != PayloadKind::Absent ==> self.value.kind()
            == self.vt.spec_payload_kind()
    }

    /// The raw variant can be handed to the host: the payload is the member that the
    /// tag calls for, and a string or a blob lies in a buffer whose address is not null
    /// and whose length the raw length field can hold.
    pub open spec fn complete(self) -> bool {
        &&& self.well_formed()
        &&& self.vt == VariantType::WStr ==> (self.value matches VariantValueView::DataStr {
            ptr,
            units,
        } ==> ptr != 0 && units.len() <= max_payload_len())
        &&& self.vt == VariantType::Blob ==> (self.value matches VariantValueView::DataBlob {
            ptr,
            bytes,
        } ==> ptr != 0 && bytes.len() <= max_payload_len())
    }

    /// The owned value that reading the raw variant gives: the payload under a tag of a
    /// supported kind, a string cut at its first nul, and the empty value under
    /// any other tag or beside a payload that the tag does not call for.
    pub open spec fn tagged(self) -> ParamValueView {
        match (self.vt, self.value) {
            (VariantType::Bool, VariantValueView::Bool(v)) => ParamValueView::Bool(v),
            (VariantType::Int32, VariantValueView::I32(v)) => ParamValueView::I32(v),
            (VariantType::Double, VariantValueView::F64(v)) => ParamValueView::F64(v),
            (VariantType::Time, VariantValueView::Tm(v)) => ParamValueView::Date(v),
            (VariantType::WStr, VariantValueView::DataStr { ptr, units }) => ParamValueView::String(
                truncate_at_nul(units),
            ),
            (VariantType::Blob, VariantValueView::DataBlob { ptr, bytes }) => ParamValueView::Blob(
                bytes,
            ),
            _ => ParamValueView::Empty,
        }
    }

    /// The slot after `value` has been written to it, with its payload, where it has
    /// one, in the buffer at `ptr`. Writing the empty value sets the tag alone.
    pub open spec fn written(self, value: ParamValueView, ptr: usize) -> TVariantView {
        match value {
            ParamValueView::Empty => TVariantView { vt: VariantType::Empty, value: self.value },
            ParamValueView::Bool(v) => TVariantView {
                vt: VariantType::Bool,
                value: VariantValueView::Bool(v),
            },
            ParamValueView::I32(v) => TVariantView {
                vt: VariantType::Int32,
                value: VariantValueView::I32(v),
            },
            ParamValueView::F64(v) => TVariantView {
                vt: VariantType::Double,
                value: VariantValueView::F64(v),
            },
            ParamValueView::Date(v) => TVariantView {
                vt: VariantType::Time,
                value: VariantValueView::Tm(v),
            },
            ParamValueView::String(units) => TVariantView {
                vt: VariantType::WStr,
                value: VariantValueView::DataStr { ptr, units },
            },
            ParamValueView::Blob(bytes) => TVariantView {
                vt: VariantType::Blob,
                value: VariantValueView::DataBlob { ptr, bytes },
            },
        }
    }

    /// The slot after an attempt to write `value` to it, for which the allocator
    /// answered `answer`: written where the value was stored, else as it was.
    pub open spec fn after_write(self, value: ParamValueView, answer: Option<usize>) -> TVariantView {
        if stored(value, answer) {
            self.written(
                value,
                match answer {
                    Some(ptr) => ptr,
                    None => 0,
                },
            )
        } else {
            self
        }
    }
}

/// The length of the payload that a value needs a host buffer for, if it needs one.
pub open spec fn payload_len(value: ParamValueView) -> Option<nat> {
    match value {
        ParamValueView::String(units) => Some(units.len()),
        ParamValueView::Blob(bytes) => Some(bytes.len()),
        _ => None,
    }
}

/// `answer` is what the allocator said when asked for the buffer that `value` needs.
/// Nothing is asked for a value without a payload, nor for a payload whose length the
/// raw length field cannot hold: there the answer is `None`.
pub open spec fn allocation_answer<M: MemoryManager>(
    mem: &M,
    value: ParamValueView,
    answer: Option<usize>,
) -> bool {
    match value {
        ParamValueView::String(units) => if units.len() <= max_payload_len() {
            call_ensures(M::alloc_str, (mem, units.len() as usize), answer)
        } else {
            answer is None
        },
        ParamValueView::Blob(bytes) => if bytes.len() <= max_payload_len() {
            call_ensures(M::alloc_blob, (mem, bytes.len() as usize), answer)
        } else {
            answer is None
        },
        _ => answer is None,
    }
}

/// Whether `value` can be stored given the allocator's answer: always where it has no
/// payload, else where the raw length field can hold the length of the payload and the
/// answer is the address of a buffer, which is not null.
pub open spec fn stored(value: ParamValueView, answer: Option<usize>) -> bool {
    match payload_len(value) {
        None => true,
        Some(len) => len <= max_payload_len() && (answer matches Some(ptr) && ptr != 0),
    }
}

/// Copies a run of code units.
pub fn copy_units(units: &[u16]) -> (r: Vec<u16>)
    ensures
        r@ == units@,
{
    let mut r: Vec<u16> = Vec::new();
    let mut i: usize = 0;
    while i < units.len()
        invariant
            i <= units.len(),
            r@ == units@.take(i as int),
        decreases units.len() - i,
    {
        r.push(units[i]);
        proof {
            assert(units@.take(i + 1) =~= units@.take(i as int).push(units@[i as int]));
        }
        i += 1;
    }
    proof {
        assert(units@.take(units.len() as int) =~= units@);
    }
    r
}

/// Copies a run of bytes.
pub fn copy_bytes(bytes: &[u8]) -> (r: Vec<u8>)
    ensures
        r@ == bytes@,
{
    let mut r: Vec<u8> = Vec::new();
    let mut i: usize = 0;
    while i < bytes.len()
        invariant
            i <= bytes.len(),
            r@ == bytes@.take(i as int),
        decreases bytes.len() - i,
    {
        r.push(bytes[i]);
        proof {
            assert(bytes@.take(i + 1) =~= bytes@.take(i as int).push(bytes@[i as int]));
        }
        i += 1;
    }
    proof {
        assert(bytes@.take(bytes.len() as int) =~= bytes@);
    }
    r
}

impl ParamValue {
    /// Reads a raw variant into an owned value. The payload is copied: the value keeps
    /// no address of the raw variant.
    pub fn from_variant(raw: &TVariant) -> (r: ParamValue)
        ensures
            r@ == raw@.tagged(),
    {
        match raw.vt {
            VariantType::Bool => match &raw.value {
                VariantValue::Bool(v) => ParamValue::Bool(*v),
                _ => ParamValue::Empty,
            },
            VariantType::Int32 => match &raw.value {
                VariantValue::I32(v) => ParamValue::I32(*v),
                _ => ParamValue::Empty,
            },
            VariantType::Double => match &raw.value {
                VariantValue::F64(v) => ParamValue::F64(*v),
                _ => ParamValue::Empty,
            },
            VariantType::Time => match &raw.value {
                VariantValue::Tm(v) => ParamValue::Date(*v),
                _ => ParamValue::Empty,
            },
            VariantType::WStr => match &raw.value {
                VariantValue::DataStr(s) => ParamValue::String(
                    wide_from_vec_truncate(copy_units(s.units.as_slice())),
                ),
                _ => ParamValue::Empty,
            },
            VariantType::Blob => match &raw.value {
                VariantValue::DataBlob(b) => ParamValue::Blob(copy_bytes(b.bytes.as_slice())),
                _ => ParamValue::Empty,
            },
            _ => ParamValue::Empty,
        }
    }
}

impl From<&TVariant> for ParamValue {
    /// Reads a raw variant into an owned value, as `from_variant` does.
    fn from(raw: &TVariant) -> (r: ParamValue)
        ensures
            r@ == raw@.tagged(),
    {
        ParamValue::from_variant(raw)
    }
}

/// What `from` gives is stated by what the value holds, as the contract of `from`
/// does: two strings that hold the same code units need not be one value, so no spec
/// function can name the value itself.
impl vstd::std_specs::convert::FromSpecImpl<&TVariant> for ParamValue {
    open spec fn obeys_from_spec() -> bool {
        false
    }

    open spec fn from_spec(raw: &TVariant) -> ParamValue {
        arbitrary()
    }
}

impl TVariant {
    /// A raw variant with the empty tag.
    pub fn new_empty() -> (r: TVariant)
        ensures
            r@ == (TVariantView { vt: VariantType::Empty, value: VariantValueView::I32(0) }),
    {
        TVariant { vt: VariantType::Empty, value: VariantValue::I32(0) }
    }

    /// Writes `value` to the slot given the allocator's answer to the request for its
    /// buffer: the tag, the payload, and for a string or a blob the address and the
    /// contents of the buffer. Where the value needs a buffer and the answer is not
    /// the address of one, the slot is left as it was.
    pub fn store(&mut self, value: &ParamValue, answer: Option<usize>) -> (ok: bool)
        ensures
            ok == stored(value@, answer),
            final(self)@ == old(self)@.after_write(value@, answer),
            !ok ==> *final(self) == *old(self),
    {
        match value {
            ParamValue::Empty => {
                self.vt = VariantType::Empty;
                true
            },
            ParamValue::Bool(v) => {
                self.value = VariantValue::Bool(*v);
                self.vt = VariantType::Bool;
                true
            },
            ParamValue::I32(v) => {
                self.value = VariantValue::I32(*v);
                self.vt = VariantType::Int32;
                true
            },
            ParamValue::F64(v) => {
                self.value = VariantValue::F64(*v);
                self.vt = VariantType::Double;
                true
            },
            ParamValue::Date(v) => {
                self.value = VariantValue::Tm(*v);
                self.vt = VariantType::Time;
                true
            },
            ParamValue::String(s) => match answer {
                Some(ptr) => {
                    if ptr == 0 || wide_as_slice(s).len() as u64 > 0xffff_ffff {
                        false
                    } else {
                        let units = copy_units(wide_as_slice(s));
                        self.value = VariantValue::DataStr(DataStr { ptr, units });
                        self.vt = VariantType::WStr;
                        true
                    }
                },
                None => false,
            },
            ParamValue::Blob(b) => match answer {
                Some(ptr) => {
                    if ptr == 0 || b.len() as u64 > 0xffff_ffff {
                        false
                    } else {
                        let bytes = copy_bytes(b.as_slice());
                        self.value = VariantValue::DataBlob(DataBlob { ptr, bytes });
                        self.vt = VariantType::Blob;
                        true
                    }
                },
                None => false,
            },
        }
    }
}

/// Asks the allocator for the buffer that `value` needs, if it needs one of a length
/// that the raw length field can hold.
pub fn allocate_for<M: MemoryManager>(mem: &M, value: &ParamValue) -> (answer: Option<usize>)
    ensures
        allocation_answer(mem, value@, answer),
{
    match value {
        ParamValue::String(s) => {
            let len = wide_as_slice(s).len();
            if len as u64 <= 0xffff_ffff {
                mem.alloc_str(len)
            } else {
                None
            }
        },
        ParamValue::Blob(b) => {
            let len = b.len();
            if len as u64 <= 0xffff_ffff {
                mem.alloc_blob(len)
            } else {
                None
            }
        },
        _ => None,
    }
}

/// The outcome of converting a value into a slot: the allocator was asked for the
/// buffer that the value needs, the slot is written where the value was stored, and
/// is as it was where it was not.
pub open spec fn updated_from_return<M: MemoryManager>(
    mem: &M,
    value: ParamValueView,
    before: TVariant,
    after: TVariant,
    ok: bool,
) -> bool {
    exists|answer: Option<usize>|
        {
            &&& #[trigger] allocation_answer(mem, value, answer)
            &&& ok == stored(value, answer)
            &&& after@ == before@.after_write(value, answer)
            &&& !ok ==> after == before
        }
}

impl TVariant {
    /// Converts `value` into the slot: asks the allocator for a buffer where the value
    /// has a payload, and writes tag, address, length and contents. The result says
    /// whether the value was stored; where it was not, the slot is as it was.
    pub fn update_from_return<M: MemoryManager>(&mut self, mem: &M, value: &ParamValue) -> (ok:
        bool)
        ensures
            updated_from_return(mem, value@, *old(self), *final(self), ok),
    {
        let answer = allocate_for(mem, value);
        let ok = self.store(value, answer);
        proof {
            assert(allocation_answer(mem, value@, answer));
        }
        ok
    }
}

/// Whether `value` can be stored given the allocator's answer.
pub fn can_store(value: &ParamValue, answer: Option<usize>) -> (r: bool)
    ensures
        r == stored(value@, answer),
{
    let fits = match value {
        ParamValue::String(s) => wide_as_slice(s).len() as u64 <= 0xffff_ffff,
        ParamValue::Blob(b) => b.len() as u64 <= 0xffff_ffff,
        _ => return true,
    };
    match answer {
        Some(ptr) => fits && ptr != 0,
        None => false,
    }
}

/// The owned values that reading each raw variant of a sequence gives.
pub open spec fn tagged_all(slots: Seq<TVariantView>) -> Seq<ParamValueView> {
    slots.map_values(|t: TVariantView| t.tagged())
}

/// `answers` holds, for each value, what the allocator said when asked for its buffer.
pub open spec fn answers_for<M: MemoryManager>(
    mem: &M,
    values: Seq<ParamValueView>,
    answers: Seq<Option<usize>>,
) -> bool {
    &&& answers.len() == values.len()
    &&& forall|i: int|
        0 <= i < values.len() ==> allocation_answer(mem, #[trigger] values[i], answers[i])
}

/// Every value can be stored given the answer that stands at its place.
pub open spec fn all_stored(values: Seq<ParamValueView>, answers: Seq<Option<usize>>) -> bool {
    &&& answers.len() == values.len()
    &&& forall|i: int| 0 <= i < values.len() ==> stored(#[trigger] values[i], answers[i])
}

/// The allocator gave, for one of the values, an answer with which it cannot be stored.
pub open spec fn refused<M: MemoryManager>(mem: &M, values: Seq<ParamValueView>) -> bool {
    exists|i: int, answer: Option<usize>|
        0 <= i < values.len() && allocation_answer(mem, values[i], answer) && !#[trigger] stored(
            values[i],
            answer,
        )
}

/// The slots after each value has been written to the slot at its place.
pub open spec fn written_back(
    slots: Seq<TVariantView>,
    values: Seq<ParamValueView>,
    answers: Seq<Option<usize>>,
) -> Seq<TVariantView> {
    Seq::new(slots.len(), |i: int| slots[i].after_write(values[i], answers[i]))
}

/// The outcome of writing `values` back to the slots `before`: on success there is one
/// value for each slot, the allocator gave for each value an answer with which it can
/// be stored, and each slot holds its value; on failure the slots are as they were, and
/// the number of values is not the number of slots or the allocator refused a buffer.
pub open spec fn write_back_result<M: MemoryManager>(
    mem: &M,
    before: Seq<TVariantView>,
    values: Seq<ParamValueView>,
    ok: bool,
    after: Seq<TVariantView>,
) -> bool {
    if ok {
        &&& values.len() == before.len()
        &&& exists|answers: Seq<Option<usize>>|
            {
                &&& #[trigger] answers_for(mem, values, answers)
                &&& all_stored(values, answers)
                &&& after == written_back(before, values, answers)
            }
    } else {
        &&& after == before
        &&& (values.len() != before.len() || refused(mem, values))
    }
}

/// Reads every raw variant of a run into an owned value.
pub fn to_values(slots: &[TVariant]) -> (r: ParamValues)
    ensures
        r@ == tagged_all(raw_views_of(slots@)),
{
    let mut values: Vec<ParamValue> = Vec::new();
    let mut i: usize = 0;
    while i < slots.len()
        invariant
            i <= slots.len(),
            values.len() == i,
            forall|j: int| 0 <= j < i ==> (#[trigger] values@[j])@ == slots@[j]@.tagged(),
        decreases slots.len() - i,
    {
        let value = ParamValue::from_variant(&slots[i]);
        values.push(value);
        i += 1;
    }
    let r = ParamValues::new(values);
    proof {
        assert(r@ =~= tagged_all(raw_views_of(slots@)));
    }
    r
}

/// Asks the allocator for the buffer of each value in turn, up to the first answer
/// with which a value cannot be stored.
pub fn allocate_all<M: MemoryManager>(mem: &M, values: &ParamValues) -> (r: Option<
    Vec<Option<usize>>,
>)
    ensures
        match r {
            Some(answers) => answers_for(mem, values@, answers@) && all_stored(
                values@,
                answers@,
            ),
            None => refused(mem, values@),
        },
{
    let mut answers: Vec<Option<usize>> = Vec::new();
    let mut i: usize = 0;
    while i < values.len()
        invariant
            i <= values@.len(),
            answers.len() == i,
            forall|j: int|
                0 <= j < i ==> allocation_answer(mem, #[trigger] values@[j], answers@[j]),
            forall|j: int| 0 <= j < i ==> stored(#[trigger] values@[j], answers@[j]),
        decreases values@.len() - i,
    {
        let value = &values[i];
        let answer = allocate_for(mem, value);
        if !can_store(value, answer) {
            return None;
        }
        answers.push(answer);
        i += 1;
    }
    Some(answers)
}

/// Writes each value to the slot at its place, given the allocator's answers: all of
/// them where there is one value and one answer for each slot and every value can be
/// stored, none of them otherwise.
pub fn write_back_with(
    slots: &mut [TVariant],
    values: &ParamValues,
    answers: &Vec<Option<usize>>,
) -> (ok: bool)
    ensures
        ok == (values@.len() == old(slots)@.len() && all_stored(values@, answers@)),
        ok ==> raw_views_of(final(slots)@) == written_back(
            raw_views_of(old(slots)@),
            values@,
            answers@,
        ),
        !ok ==> final(slots)@ == old(slots)@,
        final(slots)@.len() == old(slots)@.len(),
{
    let n = slots.len();
    if values.len() != n || answers.len() != n {
        return false;
    }
    let mut i: usize = 0;
    while i < n
        invariant
            i <= n,
            n == values@.len(),
            n == answers@.len(),
            forall|j: int| 0 <= j < i ==> stored(#[trigger] values@[j], answers@[j]),
        decreases n - i,
    {
        if !can_store(&values[i], answers[i]) {
            return false;
        }
        i += 1;
    }
    let ghost before = slots@;
    let mut k: usize = 0;
    while k < n
        invariant
            k <= n,
            n == values@.len(),
            n == answers@.len(),
            n == slots@.len(),
            n == before.len(),
            forall|j: int|
                0 <= j < k ==> (#[trigger] slots@[j])@ == before[j]@.after_write(
                    values@[j],
                    answers@[j],
                ),
            forall|j: int| k <= j < n ==> #[trigger] slots@[j] == before[j],
        decreases n - k,
    {
        let _ = slots[k].store(&values[k], answers[k]);
        k += 1;
    }
    proof {
        assert(raw_views_of(slots@) =~= written_back(raw_views_of(before), values@, answers@));
    }
    true
}

/// Writes each value back to the slot at its place. The buffers are asked of the
/// allocator first, so that the slots are written all together or not at all.
pub fn write_back<M: MemoryManager>(slots: &mut [TVariant], mem: &M, values: &ParamValues) -> (ok:
    bool)
    ensures
        write_back_result(
            mem,
            raw_views_of(old(slots)@),
            values@,
            ok,
            raw_views_of(final(slots)@),
        ),
        !ok ==> final(slots)@ == old(slots)@,
        final(slots)@.len() == old(slots)@.len(),
        values@.len() == old(slots)@.len() && (forall|i: int|
            0 <= i < values@.len() ==> payload_len(#[trigger] values@[i]) is None) ==> ok,
{
    if values.len() != slots.len() {
        return false;
    }
    match allocate_all(mem, values) {
        Some(answers) => {
            let ok = write_back_with(slots, values, &answers);
            ok
        },
        None => false,
    }
}

/// Round trip from an owned value: reading a slot to which a value was written gives
/// that value back, whatever the slot held before and wherever the buffer lies.
pub proof fn law_round_trip_from_tagged(slot: TVariantView, value: ParamValueView, ptr: usize)
    requires
        value matches ParamValueView::String(units) ==> nul_free(units),
    ensures
        slot.written(value, ptr).tagged() == value,
{
    if let ParamValueView::String(units) = value {
        lemma_truncate_nul_free(units);
    }
}

/// Round trip from a raw variant: writing the value read from a raw variant of a
/// supported kind gives its tag and its payload back, in the buffer at `ptr`. A string
/// payload that holds a nul is left out, since reading cuts it there.
pub proof fn law_round_trip_from_raw(raw: TVariantView, ptr: usize)
    requires
        raw.supported(),
        raw.well_formed(),
        raw.vt == VariantType::WStr ==> (raw.value matches VariantValueView::DataStr {
            ptr: _,
            units,
        } ==> nul_free(units)),
    ensures
        raw.written(raw.tagged(), ptr) == raw.at(ptr),
{
    if raw.vt == VariantType::WStr {
        if let VariantValueView::DataStr { ptr: _, units } = raw.value {
            lemma_truncate_nul_free(units);
        }
    }
}

/// Reading does not depend on where a buffer lies: the value read keeps nothing of
/// the address.
pub proof fn law_reading_ignores_address(raw: TVariantView, ptr: usize)
    ensures
        raw.at(ptr).tagged() == raw.tagged(),
{
}

/// A value that was stored leaves a slot that can be handed to the host: no slot is
/// left with the tag of a string or a blob beside a null address.
pub proof fn law_stored_is_complete(slot: TVariantView, value: ParamValueView, answer: Option<usize>)
    ensures
        stored(value, answer) ==> slot.after_write(value, answer).complete(),
        !stored(value, answer) ==> slot.after_write(value, answer) == slot,
{
}

/// What is read from a raw variant is a value that a round trip keeps: a string read
/// from it holds no nul.
pub proof fn law_tagged_nul_free(raw: TVariantView)
    ensures
        raw.tagged() matches ParamValueView::String(units) ==> nul_free(units),
{
    if raw.vt == VariantType::WStr {
        if let VariantValueView::DataStr { ptr: _, units } = raw.value {
            crate::interface::wide::lemma_truncate_at_nul(units);
        }
    }
}

/// Writeback after a call that changed one argument: where the plugin left every
/// value but the one at `k` as it was read, the slot at `k` reads as the changed value
/// after the writeback, and every other slot reads as it did before.
pub proof fn law_write_back_changes_one(
    before: Seq<TVariantView>,
    values: Seq<ParamValueView>,
    answers: Seq<Option<usize>>,
    k: int,
)
    requires
        values.len() == before.len(),
        0 <= k < values.len(),
        all_stored(values, answers),
        forall|i: int| 0 <= i < values.len() && i != k ==> values[i] == before[i].tagged(),
        values[k] matches ParamValueView::String(units) ==> nul_free(units),
    ensures
        written_back(before, values, answers).len() == before.len(),
        written_back(before, values, answers)[k].tagged() == values[k],
        forall|i: int|
            0 <= i < values.len() && i != k ==> (#[trigger] written_back(
                before,
                values,
                answers,
            )[i]).tagged() == before[i].tagged(),
{
    let after = written_back(before, values, answers);
    assert forall|i: int| 0 <= i < values.len() implies (#[trigger] after[i]).tagged()
        == values[i] by {
        assert(stored(values[i], answers[i]));
        if i != k {
            law_tagged_nul_free(before[i]);
        }
        law_round_trip_from_tagged(
            before[i],
            values[i],
            match answers[i] {
                Some(ptr) => ptr,
                None => 0,
            },
        );
    }
}

} // verus!
