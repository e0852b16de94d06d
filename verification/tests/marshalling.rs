use native_api_1c_core::ffi::memory_manager::MemoryManager;
use native_api_1c_core::ffi::provided_types::allocate_all;
use native_api_1c_core::ffi::provided_types::allocate_for;
use native_api_1c_core::ffi::provided_types::can_store;
use native_api_1c_core::ffi::provided_types::copy_bytes;
use native_api_1c_core::ffi::provided_types::copy_units;
use native_api_1c_core::ffi::provided_types::to_values;
use native_api_1c_core::ffi::provided_types::write_back;
use native_api_1c_core::ffi::provided_types::write_back_with;
use native_api_1c_core::ffi::provided_types::DataBlob;
use native_api_1c_core::ffi::provided_types::DataStr;
use native_api_1c_core::ffi::provided_types::PayloadKind;
use native_api_1c_core::ffi::provided_types::TVariant;
use native_api_1c_core::ffi::provided_types::Tm;
use native_api_1c_core::ffi::provided_types::VariantType;
use native_api_1c_core::ffi::provided_types::VariantValue;
use native_api_1c_core::interface::param_value::ParamValue;
use native_api_1c_core::interface::param_value::ParamValues;
use std::cell::Cell;
use std::cell::RefCell;

/// Hands out addresses 0x1000, 0x2000, ... and keeps what it was asked for; gives no
/// buffer from the request numbered `fail_at` on.
struct Arena {
    asked: RefCell<Vec<(char, usize)>>,
    fail_at: Cell<usize>,
}

impl Arena {
    fn new() -> Arena {
        Arena { asked: RefCell::new(vec![]), fail_at: Cell::new(usize::MAX) }
    }

    fn failing_at(n: usize) -> Arena {
        Arena { asked: RefCell::new(vec![]), fail_at: Cell::new(n) }
    }

    fn answer(&self, kind: char, len: usize) -> Option<usize> {
        let n = self.asked.borrow().len();
        self.asked.borrow_mut().push((kind, len));
        if n >= self.fail_at.get() {
            None
        } else {
            Some(0x1000 * (n + 1))
        }
    }
}

impl MemoryManager for Arena {
    fn alloc_str(&self, len: usize) -> Option<usize> {
        self.answer('s', len)
    }

    fn alloc_blob(&self, len: usize) -> Option<usize> {
        self.answer('b', len)
    }
}

/// Answers every request with the null address.
struct NullArena;

impl MemoryManager for NullArena {
    fn alloc_str(&self, _len: usize) -> Option<usize> {
        Some(0)
    }

    fn alloc_blob(&self, _len: usize) -> Option<usize> {
        Some(0)
    }
}

fn date() -> Tm {
    Tm { year: 1999, month: 12, day: 31, hour: 1, minute: 2, second: 3, millisecond: 4 }
}

fn raw(vt: VariantType, value: VariantValue) -> TVariant {
    TVariant { vt, value }
}

fn raw_str(ptr: usize, units: Vec<u16>) -> TVariant {
    raw(VariantType::WStr, VariantValue::DataStr(DataStr { ptr, units }))
}

fn raw_blob(ptr: usize, bytes: Vec<u8>) -> TVariant {
    raw(VariantType::Blob, VariantValue::DataBlob(DataBlob { ptr, bytes }))
}

fn each_kind() -> Vec<ParamValue> {
    vec![
        ParamValue::new_empty(),
        ParamValue::from_bool(true),
        ParamValue::from_i32(-5),
        ParamValue::from_f64(2.5f64.to_bits()),
        ParamValue::from_date(date()),
        ParamValue::from_str("text"),
        ParamValue::from_blob(vec![1, 2, 3]),
    ]
}

#[test]
fn reading_gives_the_payload_under_each_supported_tag() {
    assert_eq!(
        ParamValue::from_variant(&raw(VariantType::Empty, VariantValue::I32(77))),
        ParamValue::Empty
    );
    assert_eq!(
        ParamValue::from_variant(&raw(VariantType::Bool, VariantValue::Bool(true))),
        ParamValue::Bool(true)
    );
    assert_eq!(
        ParamValue::from_variant(&raw(VariantType::Int32, VariantValue::I32(-9))),
        ParamValue::I32(-9)
    );
    assert_eq!(
        ParamValue::from_variant(&raw(VariantType::Double, VariantValue::F64(0.25f64.to_bits()))),
        ParamValue::F64(0.25f64.to_bits())
    );
    assert_eq!(
        ParamValue::from_variant(&raw(VariantType::Time, VariantValue::Tm(date()))),
        ParamValue::Date(date())
    );
    assert_eq!(
        ParamValue::from_variant(&raw_str(0x10, vec![0x68, 0x69])),
        ParamValue::from_str("hi")
    );
    assert_eq!(
        ParamValue::from_variant(&raw_blob(0x20, vec![0, 1, 0])),
        ParamValue::Blob(vec![0, 1, 0])
    );
}

#[test]
fn reading_gives_the_empty_value_under_any_other_tag() {
    let others = [
        VariantType::Null,
        VariantType::Int16,
        VariantType::Float,
        VariantType::Date,
        VariantType::PStr,
        VariantType::Interface,
        VariantType::Error,
        VariantType::Variant,
        VariantType::Int8,
        VariantType::UInt8,
        VariantType::UInt16,
        VariantType::UInt32,
        VariantType::Int64,
        VariantType::UInt64,
        VariantType::Int,
        VariantType::UInt,
        VariantType::HResult,
        VariantType::ClsID,
        VariantType::Undefined,
    ];
    for vt in others {
        assert_eq!(ParamValue::from_variant(&raw(vt, VariantValue::I32(5))), ParamValue::Empty);
    }
}

#[test]
fn reading_gives_the_empty_value_beside_a_payload_of_another_kind() {
    assert_eq!(
        ParamValue::from_variant(&raw(VariantType::Bool, VariantValue::I32(1))),
        ParamValue::Empty
    );
    assert_eq!(
        ParamValue::from_variant(&raw(VariantType::Int32, VariantValue::Bool(true))),
        ParamValue::Empty
    );
    assert_eq!(
        ParamValue::from_variant(&raw(VariantType::Double, VariantValue::Tm(date()))),
        ParamValue::Empty
    );
    assert_eq!(
        ParamValue::from_variant(&raw(VariantType::Time, VariantValue::F64(0))),
        ParamValue::Empty
    );
    assert_eq!(
        ParamValue::from_variant(&raw(
            VariantType::WStr,
            VariantValue::DataBlob(DataBlob { ptr: 1, bytes: vec![1] })
        )),
        ParamValue::Empty
    );
    assert_eq!(
        ParamValue::from_variant(&raw(
            VariantType::Blob,
            VariantValue::DataStr(DataStr { ptr: 1, units: vec![1] })
        )),
        ParamValue::Empty
    );
}

#[test]
fn reading_a_string_cuts_it_at_the_first_nul() {
    let value = ParamValue::from_variant(&raw_str(0x10, vec![0x61, 0x62, 0, 0x63]));
    assert_eq!(value, ParamValue::from_str("ab"));
    let empty = ParamValue::from_variant(&raw_str(0, vec![]));
    assert_eq!(empty, ParamValue::from_str(""));
}

#[test]
fn from_and_into_read_as_from_variant_does() {
    let slots = vec![
        raw(VariantType::Int32, VariantValue::I32(4)),
        raw_str(0x10, vec![0x61, 0, 0x62]),
        raw_blob(0x20, vec![1, 2]),
        raw(VariantType::Int64, VariantValue::I32(4)),
    ];
    for slot in slots.iter() {
        assert_eq!(ParamValue::from(slot), ParamValue::from_variant(slot));
        let value: ParamValue = slot.into();
        assert_eq!(value, ParamValue::from_variant(slot));
    }
}

#[test]
fn reading_copies_the_payload() {
    let slot = raw_blob(0x20, vec![5, 6]);
    let value = ParamValue::from_variant(&slot);
    drop(slot);
    assert_eq!(value, ParamValue::Blob(vec![5, 6]));
}

#[test]
fn tags_have_the_numbers_of_the_host() {
    let tags = [
        (VariantType::Empty, 0u16),
        (VariantType::Null, 1),
        (VariantType::Int16, 2),
        (VariantType::Int32, 3),
        (VariantType::Float, 4),
        (VariantType::Double, 5),
        (VariantType::Date, 6),
        (VariantType::Time, 7),
        (VariantType::PStr, 8),
        (VariantType::Interface, 9),
        (VariantType::Error, 10),
        (VariantType::Bool, 11),
        (VariantType::Variant, 12),
        (VariantType::Int8, 13),
        (VariantType::UInt8, 14),
        (VariantType::UInt16, 15),
        (VariantType::UInt32, 16),
        (VariantType::Int64, 17),
        (VariantType::UInt64, 18),
        (VariantType::Int, 19),
        (VariantType::UInt, 20),
        (VariantType::HResult, 21),
        (VariantType::WStr, 22),
        (VariantType::Blob, 23),
        (VariantType::ClsID, 24),
        (VariantType::Undefined, 0xffff),
    ];
    for (vt, code) in tags {
        assert_eq!(vt.code(), code);
        assert_eq!(VariantType::from_code(code), vt);
    }
    for code in [25u16, 26, 100, 0x4000, 0xfffe] {
        assert_eq!(VariantType::from_code(code), VariantType::Undefined);
    }
}

#[test]
fn tags_call_for_the_member_of_their_kind() {
    assert_eq!(VariantType::Bool.payload_kind(), PayloadKind::Bool);
    assert_eq!(VariantType::Int32.payload_kind(), PayloadKind::I32);
    assert_eq!(VariantType::Double.payload_kind(), PayloadKind::F64);
    assert_eq!(VariantType::Time.payload_kind(), PayloadKind::Tm);
    assert_eq!(VariantType::WStr.payload_kind(), PayloadKind::DataStr);
    assert_eq!(VariantType::Blob.payload_kind(), PayloadKind::DataBlob);
    for vt in [
        VariantType::Empty,
        VariantType::Null,
        VariantType::Int16,
        VariantType::Float,
        VariantType::Date,
        VariantType::PStr,
        VariantType::Int64,
        VariantType::ClsID,
        VariantType::Undefined,
    ] {
        assert_eq!(vt.payload_kind(), PayloadKind::Absent);
    }
}

#[test]
fn copies_hold_what_the_source_holds() {
    assert_eq!(copy_units(&[1, 2, 65535]), vec![1, 2, 65535]);
    assert_eq!(copy_units(&[]), Vec::<u16>::new());
    assert_eq!(copy_bytes(&[0, 255]), vec![0, 255]);
    assert_eq!(copy_bytes(&[]), Vec::<u8>::new());
}

#[test]
fn new_empty_has_the_empty_tag() {
    let slot = TVariant::new_empty();
    assert_eq!(slot.vt, VariantType::Empty);
    assert_eq!(ParamValue::from_variant(&slot), ParamValue::Empty);
}

#[test]
fn writing_a_scalar_sets_tag_and_payload_and_asks_for_no_buffer() {
    let mem = Arena::new();
    let mut slot = raw_str(0x10, vec![1, 2]);
    assert!(slot.update_from_return(&mem, &ParamValue::from_bool(true)));
    assert_eq!(slot, raw(VariantType::Bool, VariantValue::Bool(true)));
    assert!(slot.update_from_return(&mem, &ParamValue::from_i32(8)));
    assert_eq!(slot, raw(VariantType::Int32, VariantValue::I32(8)));
    assert!(slot.update_from_return(&mem, &ParamValue::from_f64(1.25f64.to_bits())));
    assert_eq!(slot, raw(VariantType::Double, VariantValue::F64(1.25f64.to_bits())));
    assert!(slot.update_from_return(&mem, &ParamValue::from_date(date())));
    assert_eq!(slot, raw(VariantType::Time, VariantValue::Tm(date())));
    assert!(mem.asked.borrow().is_empty());
}

#[test]
fn writing_the_empty_value_sets_the_tag_alone() {
    let mem = Arena::new();
    let mut slot = raw(VariantType::Int32, VariantValue::I32(8));
    assert!(slot.update_from_return(&mem, &ParamValue::new_empty()));
    assert_eq!(slot, raw(VariantType::Empty, VariantValue::I32(8)));
    assert!(mem.asked.borrow().is_empty());
}

#[test]
fn writing_a_string_asks_for_its_code_units_and_fills_the_buffer() {
    let mem = Arena::new();
    let mut slot = TVariant::new_empty();
    assert!(slot.update_from_return(&mem, &ParamValue::from_str("h\u{1d11e}")));
    assert_eq!(slot, raw_str(0x1000, vec![0x68, 0xd834, 0xdd1e]));
    assert_eq!(*mem.asked.borrow(), vec![('s', 3)]);
}

#[test]
fn writing_a_blob_asks_for_its_bytes_and_fills_the_buffer() {
    let mem = Arena::new();
    let mut slot = TVariant::new_empty();
    assert!(slot.update_from_return(&mem, &ParamValue::from_blob(vec![9, 0, 9, 0])));
    assert_eq!(slot, raw_blob(0x1000, vec![9, 0, 9, 0]));
    assert_eq!(*mem.asked.borrow(), vec![('b', 4)]);
}

#[test]
fn writing_fails_and_leaves_the_slot_where_the_allocator_gives_no_buffer() {
    let mem = Arena::failing_at(0);
    let mut slot = raw(VariantType::Int32, VariantValue::I32(8));
    assert!(!slot.update_from_return(&mem, &ParamValue::from_str("text")));
    assert_eq!(slot, raw(VariantType::Int32, VariantValue::I32(8)));
    assert!(!slot.update_from_return(&mem, &ParamValue::from_blob(vec![1])));
    assert_eq!(slot, raw(VariantType::Int32, VariantValue::I32(8)));
    assert!(slot.update_from_return(&mem, &ParamValue::from_i32(9)));
    assert_eq!(slot, raw(VariantType::Int32, VariantValue::I32(9)));
}

#[test]
fn writing_fails_and_leaves_the_slot_where_the_buffer_is_null() {
    let mut slot = raw(VariantType::Bool, VariantValue::Bool(false));
    assert!(!slot.update_from_return(&NullArena, &ParamValue::from_str("text")));
    assert_eq!(slot, raw(VariantType::Bool, VariantValue::Bool(false)));
    assert!(!slot.update_from_return(&NullArena, &ParamValue::from_blob(vec![])));
    assert_eq!(slot, raw(VariantType::Bool, VariantValue::Bool(false)));
}

#[test]
fn update_from_return_writes_or_leaves_the_slot() {
    let mem = Arena::failing_at(1);
    let mut slot = raw(VariantType::Int32, VariantValue::I32(4));
    assert!(slot.update_from_return(&mem, &ParamValue::from_str("ok")));
    assert_eq!(slot, raw_str(0x1000, vec![0x6f, 0x6b]));
    assert!(!slot.update_from_return(&mem, &ParamValue::from_str("late")));
    assert_eq!(slot, raw_str(0x1000, vec![0x6f, 0x6b]));
    assert!(slot.update_from_return(&mem, &ParamValue::from_bool(true)));
    assert_eq!(slot, raw(VariantType::Bool, VariantValue::Bool(true)));
}

#[test]
fn store_follows_the_answer_it_is_given() {
    let mut slot = TVariant::new_empty();
    assert!(slot.store(&ParamValue::from_str("ab"), Some(0x40)));
    assert_eq!(slot, raw_str(0x40, vec![0x61, 0x62]));
    assert!(!slot.store(&ParamValue::from_str("cd"), None));
    assert_eq!(slot, raw_str(0x40, vec![0x61, 0x62]));
    assert!(!slot.store(&ParamValue::from_blob(vec![1]), Some(0)));
    assert_eq!(slot, raw_str(0x40, vec![0x61, 0x62]));
    assert!(slot.store(&ParamValue::from_blob(vec![1]), Some(0x80)));
    assert_eq!(slot, raw_blob(0x80, vec![1]));
    assert!(slot.store(&ParamValue::from_i32(3), None));
    assert_eq!(slot, raw(VariantType::Int32, VariantValue::I32(3)));
}

#[test]
fn can_store_says_what_store_does() {
    assert!(can_store(&ParamValue::new_empty(), None));
    assert!(can_store(&ParamValue::from_i32(1), None));
    assert!(can_store(&ParamValue::from_i32(1), Some(0)));
    assert!(can_store(&ParamValue::from_str("a"), Some(8)));
    assert!(!can_store(&ParamValue::from_str("a"), Some(0)));
    assert!(!can_store(&ParamValue::from_str("a"), None));
    assert!(can_store(&ParamValue::from_blob(vec![]), Some(8)));
    assert!(!can_store(&ParamValue::from_blob(vec![]), None));
}

#[test]
fn allocate_for_asks_only_for_payloads() {
    let mem = Arena::new();
    assert_eq!(allocate_for(&mem, &ParamValue::new_empty()), None);
    assert_eq!(allocate_for(&mem, &ParamValue::from_i32(1)), None);
    assert_eq!(allocate_for(&mem, &ParamValue::from_str("abc")), Some(0x1000));
    assert_eq!(allocate_for(&mem, &ParamValue::from_blob(vec![1, 2])), Some(0x2000));
    assert_eq!(allocate_for(&mem, &ParamValue::from_str("")), Some(0x3000));
    assert_eq!(*mem.asked.borrow(), vec![('s', 3), ('b', 2), ('s', 0)]);
}

#[test]
fn round_trip_from_an_owned_value() {
    let mem = Arena::new();
    for value in each_kind() {
        let mut slot = raw(VariantType::Int64, VariantValue::I32(0));
        assert!(slot.update_from_return(&mem, &value));
        assert_eq!(ParamValue::from_variant(&slot), value);
    }
    let nan = ParamValue::from_f64(f64::NAN.to_bits());
    let mut slot = TVariant::new_empty();
    assert!(slot.update_from_return(&mem, &nan));
    assert_eq!(ParamValue::from_variant(&slot).to_f64(), Some(f64::NAN.to_bits()));
}

#[test]
fn round_trip_from_a_raw_variant() {
    let mem = Arena::new();
    let slots = vec![
        raw(VariantType::Empty, VariantValue::I32(3)),
        raw(VariantType::Bool, VariantValue::Bool(true)),
        raw(VariantType::Int32, VariantValue::I32(i32::MAX)),
        raw(VariantType::Double, VariantValue::F64((-7.5f64).to_bits())),
        raw(VariantType::Time, VariantValue::Tm(date())),
    ];
    for slot in slots {
        let mut again = slot.clone();
        assert!(again.update_from_return(&mem, &ParamValue::from_variant(&slot)));
        assert_eq!(again, slot);
    }
    let text = raw_str(0x10, vec![0x61, 0xd800, 0x62]);
    let mut again = text.clone();
    assert!(again.update_from_return(&mem, &ParamValue::from_variant(&text)));
    assert_eq!(again, raw_str(0x1000, vec![0x61, 0xd800, 0x62]));
    let bytes = raw_blob(0x20, vec![0, 0, 7]);
    let mut again = bytes.clone();
    assert!(again.update_from_return(&mem, &ParamValue::from_variant(&bytes)));
    assert_eq!(again, raw_blob(0x2000, vec![0, 0, 7]));
}

#[test]
fn to_values_reads_every_slot_in_order() {
    let slots = vec![
        raw(VariantType::Int32, VariantValue::I32(1)),
        raw_str(0x10, vec![0x62]),
        raw(VariantType::Null, VariantValue::I32(0)),
    ];
    let values = to_values(&slots);
    assert_eq!(values.len(), 3);
    assert_eq!(values[0], ParamValue::from_i32(1));
    assert_eq!(values[1], ParamValue::from_str("b"));
    assert_eq!(values[2], ParamValue::Empty);
    assert!(to_values(&vec![]).is_empty());
}

#[test]
fn allocate_all_stops_at_the_first_refusal() {
    let values = ParamValues::new(vec![
        ParamValue::from_str("a"),
        ParamValue::from_i32(1),
        ParamValue::from_blob(vec![1, 2]),
        ParamValue::from_str("bcd"),
    ]);
    let mem = Arena::new();
    assert_eq!(
        allocate_all(&mem, &values),
        Some(vec![Some(0x1000), None, Some(0x2000), Some(0x3000)])
    );
    assert_eq!(*mem.asked.borrow(), vec![('s', 1), ('b', 2), ('s', 3)]);
    let failing = Arena::failing_at(1);
    assert_eq!(allocate_all(&failing, &values), None);
    assert_eq!(*failing.asked.borrow(), vec![('s', 1), ('b', 2)]);
    assert_eq!(allocate_all(&mem, &ParamValues::new(vec![])), Some(vec![]));
}

#[test]
fn write_back_writes_every_value_to_the_slot_at_its_place() {
    let mem = Arena::new();
    let mut slots = vec![
        raw(VariantType::Int32, VariantValue::I32(1)),
        raw_str(0x10, vec![0x62]),
        raw(VariantType::Bool, VariantValue::Bool(true)),
    ];
    let values = ParamValues::new(vec![
        ParamValue::from_str("one"),
        ParamValue::new_empty(),
        ParamValue::from_blob(vec![3]),
    ]);
    assert!(write_back(&mut slots, &mem, &values));
    assert_eq!(slots, vec![
        raw_str(0x1000, vec![0x6f, 0x6e, 0x65]),
        raw(VariantType::Empty, VariantValue::DataStr(DataStr { ptr: 0x10, units: vec![0x62] })),
        raw_blob(0x2000, vec![3]),
    ]);
}

#[test]
fn write_back_writes_nothing_where_a_buffer_is_refused() {
    let mem = Arena::failing_at(1);
    let before = vec![
        raw(VariantType::Int32, VariantValue::I32(1)),
        raw(VariantType::Int32, VariantValue::I32(2)),
        raw(VariantType::Int32, VariantValue::I32(3)),
    ];
    let mut slots = before.clone();
    let values = ParamValues::new(vec![
        ParamValue::from_str("one"),
        ParamValue::from_i32(20),
        ParamValue::from_str("three"),
    ]);
    assert!(!write_back(&mut slots, &mem, &values));
    assert_eq!(slots, before);
}

#[test]
fn write_back_writes_nothing_where_the_numbers_differ() {
    let mem = Arena::new();
    let before = vec![raw(VariantType::Int32, VariantValue::I32(1))];
    let mut slots = before.clone();
    assert!(!write_back(&mut slots, &mem, &ParamValues::new(vec![])));
    assert_eq!(slots, before);
    let two = ParamValues::new(vec![ParamValue::from_i32(1), ParamValue::from_i32(2)]);
    assert!(!write_back(&mut slots, &mem, &two));
    assert_eq!(slots, before);
    assert!(mem.asked.borrow().is_empty());
}

#[test]
fn write_back_of_nothing_succeeds() {
    let mem = Arena::failing_at(0);
    let mut slots: Vec<TVariant> = vec![];
    assert!(write_back(&mut slots, &mem, &ParamValues::new(vec![])));
    assert!(slots.is_empty());
}

#[test]
fn write_back_with_follows_the_answers_it_is_given() {
    let before = vec![
        raw(VariantType::Int32, VariantValue::I32(1)),
        raw(VariantType::Int32, VariantValue::I32(2)),
    ];
    let values = ParamValues::new(vec![ParamValue::from_str("a"), ParamValue::from_i32(5)]);
    let mut slots = before.clone();
    assert!(write_back_with(&mut slots, &values, &vec![Some(0x30), None]));
    assert_eq!(slots, vec![raw_str(0x30, vec![0x61]), raw(VariantType::Int32, VariantValue::I32(5))]);
    let mut slots = before.clone();
    assert!(!write_back_with(&mut slots, &values, &vec![None, None]));
    assert_eq!(slots, before);
    assert!(!write_back_with(&mut slots, &values, &vec![Some(0x30)]));
    assert_eq!(slots, before);
    assert!(!write_back_with(&mut slots, &values, &vec![Some(0), Some(0x30)]));
    assert_eq!(slots, before);
}
