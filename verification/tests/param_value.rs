use native_api_1c_core::ffi::provided_types::Tm;
use native_api_1c_core::interface::param_type::ParamType;
use native_api_1c_core::interface::param_value::bytes_equal;
use native_api_1c_core::interface::param_value::f64_bits_equal;
use native_api_1c_core::interface::param_value::ParamValue;
use native_api_1c_core::interface::param_value::ParamValues;
use native_api_1c_core::interface::wide::push_utf16;
use native_api_1c_core::interface::wide::utf16_units;
use widestring::U16CString;

fn date() -> Tm {
    Tm { year: 2024, month: 2, day: 29, hour: 23, minute: 59, second: 58, millisecond: 999 }
}

fn units(value: &ParamValue) -> Vec<u16> {
    match value {
        ParamValue::String(s) => s.as_slice().to_vec(),
        _ => panic!("not a string"),
    }
}

#[test]
fn constructors_build_the_variant_named() {
    assert!(matches!(ParamValue::new_empty(), ParamValue::Empty));
    assert!(matches!(ParamValue::from_bool(true), ParamValue::Bool(true)));
    assert!(matches!(ParamValue::from_i32(-7), ParamValue::I32(-7)));
    let bits = 1.5f64.to_bits();
    assert!(matches!(ParamValue::from_f64(bits), ParamValue::F64(b) if b == bits));
    assert!(matches!(ParamValue::from_date(date()), ParamValue::Date(d) if d == date()));
    assert!(matches!(ParamValue::from_blob(vec![1, 2, 3]), ParamValue::Blob(b) if b == vec![1, 2, 3]));
    assert_eq!(units(&ParamValue::from_str("abc")), vec![0x61, 0x62, 0x63]);
}

#[test]
fn from_str_cuts_at_the_first_nul() {
    let value = ParamValue::from_str("My\u{0}String");
    assert_eq!(units(&value), vec![0x4d, 0x79]);
    assert_eq!(value.to_str(), Some("My".to_string()));
    assert_eq!(units(&ParamValue::from_str("\u{0}abc")), Vec::<u16>::new());
    assert_eq!(units(&ParamValue::from_str("")), Vec::<u16>::new());
}

#[test]
fn from_str_encodes_utf16() {
    assert_eq!(units(&ParamValue::from_str("\u{ffff}")), vec![0xffff]);
    assert_eq!(units(&ParamValue::from_str("\u{10000}")), vec![0xd800, 0xdc00]);
    assert_eq!(units(&ParamValue::from_str("\u{1d11e}")), vec![0xd834, 0xdd1e]);
    assert_eq!(units(&ParamValue::from_str("\u{10ffff}")), vec![0xdbff, 0xdfff]);
    assert_eq!(units(&ParamValue::from_str("Ж\u{1d11e}z")), vec![0x0416, 0xd834, 0xdd1e, 0x7a]);
}

#[test]
fn into_accessors_give_the_payload_of_their_kind_only() {
    assert_eq!(ParamValue::from_bool(true).into_bool(), Some(true));
    assert_eq!(ParamValue::from_i32(5).into_bool(), None);
    assert_eq!(ParamValue::from_i32(5).into_i32(), Some(5));
    assert_eq!(ParamValue::new_empty().into_i32(), None);
    assert_eq!(ParamValue::from_f64(2.25f64.to_bits()).into_f64().map(f64::from_bits), Some(2.25));
    assert_eq!(ParamValue::from_i32(2).into_f64(), None);
    assert_eq!(ParamValue::from_date(date()).into_date(), Some(date()));
    assert_eq!(ParamValue::from_bool(false).into_date(), None);
    assert_eq!(ParamValue::from_str("text").into_str(), Some("text".to_string()));
    assert_eq!(ParamValue::from_blob(vec![1]).into_str(), None);
    assert_eq!(ParamValue::from_blob(vec![9, 8]).into_blob(), Some(vec![9, 8]));
    assert_eq!(ParamValue::from_str("x").into_blob(), None);
}

#[test]
fn to_accessors_give_the_payload_of_their_kind_only() {
    assert_eq!(ParamValue::from_bool(false).to_bool(), Some(false));
    assert_eq!(ParamValue::new_empty().to_bool(), None);
    assert_eq!(ParamValue::from_i32(i32::MIN).to_i32(), Some(i32::MIN));
    assert_eq!(ParamValue::from_bool(true).to_i32(), None);
    assert_eq!(ParamValue::from_f64((-0.5f64).to_bits()).to_f64().map(f64::from_bits), Some(-0.5));
    assert_eq!(ParamValue::from_str("1.0").to_f64(), None);
    assert_eq!(ParamValue::from_date(date()).to_date(), Some(date()));
    assert_eq!(ParamValue::from_i32(1).to_date(), None);
    assert_eq!(ParamValue::from_str("Привет").to_str(), Some("Привет".to_string()));
    assert_eq!(ParamValue::from_i32(1).to_str(), None);
    assert_eq!(ParamValue::from_blob(vec![0, 255]).to_blob(), Some(vec![0, 255]));
    assert_eq!(ParamValue::new_empty().to_blob(), None);
}

#[test]
fn to_str_replaces_what_is_not_utf16() {
    let lone = ParamValue::String(U16CString::from_vec_truncate(vec![0x61u16, 0xd800, 0x62]));
    assert_eq!(lone.to_str(), Some("a\u{fffd}b".to_string()));
    let pair = ParamValue::String(U16CString::from_vec_truncate(vec![0xd834u16, 0xdd1e]));
    assert_eq!(pair.into_str(), Some("\u{1d11e}".to_string()));
}

#[test]
fn setters_replace_the_value() {
    let mut value = ParamValue::new_empty();
    value.set_bool(true);
    assert_eq!(value, ParamValue::Bool(true));
    value.set_i32(12);
    assert_eq!(value, ParamValue::I32(12));
    value.set_f64(3.5f64.to_bits());
    assert_eq!(value, ParamValue::F64(3.5f64.to_bits()));
    value.set_date(date());
    assert_eq!(value, ParamValue::Date(date()));
    value.set_str("a\u{0}b");
    assert_eq!(units(&value), vec![0x61]);
    value.set_blob(vec![4, 5]);
    assert_eq!(value, ParamValue::Blob(vec![4, 5]));
}

#[test]
fn values_of_different_variants_are_never_equal() {
    let empty_like = vec![
        ParamValue::new_empty(),
        ParamValue::from_bool(false),
        ParamValue::from_i32(0),
        ParamValue::from_f64(0.0f64.to_bits()),
        ParamValue::from_date(Tm {
            year: 0,
            month: 0,
            day: 0,
            hour: 0,
            minute: 0,
            second: 0,
            millisecond: 0,
        }),
        ParamValue::from_str(""),
        ParamValue::from_blob(vec![]),
    ];
    for (i, a) in empty_like.iter().enumerate() {
        for (j, b) in empty_like.iter().enumerate() {
            assert_eq!(a == b, i == j);
        }
    }
}

#[test]
fn values_of_one_variant_are_equal_when_their_payloads_are() {
    assert_eq!(ParamValue::from_bool(true), ParamValue::from_bool(true));
    assert_ne!(ParamValue::from_bool(true), ParamValue::from_bool(false));
    assert_eq!(ParamValue::from_i32(3), ParamValue::from_i32(3));
    assert_ne!(ParamValue::from_i32(3), ParamValue::from_i32(4));
    assert_eq!(ParamValue::from_date(date()), ParamValue::from_date(date()));
    let mut other = date();
    other.millisecond = 0;
    assert_ne!(ParamValue::from_date(date()), ParamValue::from_date(other));
    assert_eq!(ParamValue::from_str("abc"), ParamValue::from_str("abc"));
    assert_ne!(ParamValue::from_str("abc"), ParamValue::from_str("abd"));
    assert_ne!(ParamValue::from_str("abc"), ParamValue::from_str("ab"));
    assert_eq!(ParamValue::from_blob(vec![1, 2]), ParamValue::from_blob(vec![1, 2]));
    assert_ne!(ParamValue::from_blob(vec![1, 2]), ParamValue::from_blob(vec![1, 3]));
    assert_ne!(ParamValue::from_blob(vec![1, 2]), ParamValue::from_blob(vec![1, 2, 3]));
}

#[test]
fn floats_are_compared_as_floats() {
    let nan = f64::NAN.to_bits();
    assert_ne!(ParamValue::from_f64(nan), ParamValue::from_f64(nan));
    assert_eq!(ParamValue::from_f64(0.0f64.to_bits()), ParamValue::from_f64((-0.0f64).to_bits()));
    assert_eq!(ParamValue::from_f64(1.5f64.to_bits()), ParamValue::from_f64(1.5f64.to_bits()));
    assert_ne!(ParamValue::from_f64(1.5f64.to_bits()), ParamValue::from_f64((-1.5f64).to_bits()));
    assert_eq!(
        ParamValue::from_f64(f64::INFINITY.to_bits()),
        ParamValue::from_f64(f64::INFINITY.to_bits())
    );
    assert_ne!(
        ParamValue::from_f64(f64::INFINITY.to_bits()),
        ParamValue::from_f64(f64::NEG_INFINITY.to_bits())
    );
}

#[test]
fn f64_bits_equal_agrees_with_float_equality() {
    let samples = [
        0.0f64,
        -0.0,
        1.0,
        -1.0,
        f64::MIN_POSITIVE,
        f64::MAX,
        f64::MIN,
        f64::INFINITY,
        f64::NEG_INFINITY,
        f64::NAN,
        -f64::NAN,
        f64::from_bits(0x7ff0_0000_0000_0001),
        f64::from_bits(0xfff0_0000_0000_0001),
        f64::from_bits(1),
    ];
    for a in samples {
        for b in samples {
            assert_eq!(f64_bits_equal(a.to_bits(), b.to_bits()), a == b);
        }
    }
}

#[test]
fn bytes_equal_compares_every_byte() {
    assert!(bytes_equal(&[], &[]));
    assert!(bytes_equal(&[1, 2, 3], &[1, 2, 3]));
    assert!(!bytes_equal(&[1, 2, 3], &[1, 2, 4]));
    assert!(!bytes_equal(&[1, 2, 3], &[1, 2]));
    assert!(!bytes_equal(&[], &[0]));
}

#[test]
fn clone_keeps_what_the_value_holds() {
    let values = vec![
        ParamValue::new_empty(),
        ParamValue::from_bool(true),
        ParamValue::from_i32(42),
        ParamValue::from_f64(6.25f64.to_bits()),
        ParamValue::from_date(date()),
        ParamValue::from_str("copy"),
        ParamValue::from_blob(vec![7, 7, 7]),
    ];
    for value in values.iter() {
        assert_eq!(&value.clone(), value);
    }
}

#[test]
fn optional_reading_of_the_sentinel_is_absent() {
    let sentinel = ParamValue::from_i32(-1);
    assert_eq!(sentinel.to_optional_i32(&sentinel), Some(None));
    assert_eq!(ParamValue::from_i32(-1).to_optional_i32(&sentinel), Some(None));
    assert_eq!(ParamValue::from_i32(-1).to_optional_bool(&sentinel), Some(None));
    assert_eq!(ParamValue::from_i32(-1).to_optional_str(&sentinel), Some(None));
    let empty = ParamValue::new_empty();
    assert_eq!(ParamValue::new_empty().to_optional_bool(&empty), Some(None));
    assert_eq!(ParamValue::new_empty().to_optional_i32(&empty), Some(None));
    assert_eq!(ParamValue::new_empty().to_optional_f64(&empty), Some(None));
    assert_eq!(ParamValue::new_empty().to_optional_date(&empty), Some(None));
    assert_eq!(ParamValue::new_empty().to_optional_str(&empty), Some(None));
    assert_eq!(ParamValue::new_empty().to_optional_blob(&empty), Some(None));
}

#[test]
fn optional_reading_of_another_value_is_its_conversion() {
    let empty = ParamValue::new_empty();
    assert_eq!(ParamValue::from_bool(true).to_optional_bool(&empty), Some(Some(true)));
    assert_eq!(ParamValue::from_i32(5).to_optional_i32(&empty), Some(Some(5)));
    assert_eq!(
        ParamValue::from_f64(0.5f64.to_bits()).to_optional_f64(&empty),
        Some(Some(0.5f64.to_bits()))
    );
    assert_eq!(ParamValue::from_date(date()).to_optional_date(&empty), Some(Some(date())));
    assert_eq!(
        ParamValue::from_str("text").to_optional_str(&empty),
        Some(Some("text".to_string()))
    );
    assert_eq!(ParamValue::from_blob(vec![1]).to_optional_blob(&empty), Some(Some(vec![1])));
    let zero = ParamValue::from_i32(0);
    assert_eq!(ParamValue::from_i32(5).to_optional_i32(&zero), Some(Some(5)));
}

#[test]
fn optional_reading_of_a_value_of_another_kind_is_not_applicable() {
    let empty = ParamValue::new_empty();
    assert_eq!(ParamValue::from_i32(1).to_optional_bool(&empty), None);
    assert_eq!(ParamValue::from_bool(true).to_optional_i32(&empty), None);
    assert_eq!(ParamValue::from_str("1.5").to_optional_f64(&empty), None);
    assert_eq!(ParamValue::from_blob(vec![]).to_optional_date(&empty), None);
    assert_eq!(ParamValue::from_i32(1).to_optional_str(&empty), None);
    assert_eq!(ParamValue::from_str("blob").to_optional_blob(&empty), None);
}

#[test]
fn a_sentinel_that_is_not_a_number_reads_as_absent_against_itself() {
    let nan = ParamValue::from_f64(f64::NAN.to_bits());
    assert_ne!(nan, nan);
    assert_eq!(nan.to_optional_f64(&nan), Some(None));
    assert_eq!(nan.to_optional_i32(&nan), Some(None));
    assert_eq!(nan.to_optional_str(&nan), Some(None));
    let same_bits = ParamValue::from_f64(f64::NAN.to_bits());
    assert_eq!(same_bits.to_optional_f64(&nan), Some(None));
    let other_nan = ParamValue::from_f64(f64::NAN.to_bits() ^ 1);
    assert_eq!(other_nan.to_optional_f64(&nan), Some(Some(f64::NAN.to_bits() ^ 1)));
    assert_eq!(
        ParamValue::from_f64(1.0f64.to_bits()).to_optional_f64(&nan),
        Some(Some(1.0f64.to_bits()))
    );
    assert_eq!(nan.to_optional_f64(&ParamValue::from_f64(1.0f64.to_bits())), Some(Some(f64::NAN.to_bits())));
}

#[test]
fn every_value_is_the_sentinel_against_itself() {
    let values = vec![
        ParamValue::new_empty(),
        ParamValue::from_bool(false),
        ParamValue::from_i32(-1),
        ParamValue::from_f64(0.0f64.to_bits()),
        ParamValue::from_f64(f64::NAN.to_bits()),
        ParamValue::from_f64((-f64::NAN).to_bits()),
        ParamValue::from_f64(f64::INFINITY.to_bits()),
        ParamValue::from_date(date()),
        ParamValue::from_str(""),
        ParamValue::from_str("none"),
        ParamValue::from_blob(vec![]),
        ParamValue::from_blob(vec![0]),
    ];
    for value in values.iter() {
        assert!(value.is_sentinel(value));
        assert!(value.clone().is_sentinel(value));
        assert_eq!(value.to_optional_bool(value), Some(None));
        assert_eq!(value.to_optional_i32(value), Some(None));
        assert_eq!(value.to_optional_f64(value), Some(None));
        assert_eq!(value.to_optional_date(value), Some(None));
        assert_eq!(value.to_optional_str(value), Some(None));
        assert_eq!(value.to_optional_blob(value), Some(None));
    }
}

#[test]
fn is_sentinel_follows_equality_and_adds_floats_of_one_bit_pattern() {
    let zero = ParamValue::from_f64(0.0f64.to_bits());
    let minus_zero = ParamValue::from_f64((-0.0f64).to_bits());
    assert!(zero.is_sentinel(&minus_zero));
    assert!(minus_zero.is_sentinel(&zero));
    let nan = ParamValue::from_f64(f64::NAN.to_bits());
    let other_nan = ParamValue::from_f64(f64::NAN.to_bits() ^ 1);
    assert!(nan.is_sentinel(&nan));
    assert!(!nan.is_sentinel(&other_nan));
    assert!(!nan.is_sentinel(&zero));
    assert!(!ParamValue::from_i32(0).is_sentinel(&zero));
    assert!(!ParamValue::new_empty().is_sentinel(&ParamValue::from_bool(false)));
    assert!(ParamValue::from_str("a").is_sentinel(&ParamValue::from_str("a")));
    assert!(!ParamValue::from_str("a").is_sentinel(&ParamValue::from_str("b")));
}

#[test]
fn type_fn_names() {
    let kinds = [
        (ParamType::Bool, "bool"),
        (ParamType::I32, "i32"),
        (ParamType::F64, "f64"),
        (ParamType::Date, "date"),
        (ParamType::String, "str"),
        (ParamType::Blob, "blob"),
    ];
    for (ty, suffix) in kinds {
        assert_eq!(ParamValue::from_type_fn_name(ty), format!("from_{}", suffix));
        assert_eq!(ParamValue::into_type_fn_name(ty), format!("into_{}", suffix));
        assert_eq!(ParamValue::to_type_fn_name(ty), format!("to_{}", suffix));
        assert_eq!(ParamValue::to_optional_type_fn_name(ty), format!("to_optional_{}", suffix));
        assert_eq!(ParamValue::set_type_fn_name(ty), format!("set_{}", suffix));
    }
    assert_eq!(ParamValue::from_type_fn_name(ParamType::String), "from_str");
    assert_eq!(ParamValue::to_optional_type_fn_name(ParamType::Blob), "to_optional_blob");
}

#[test]
fn param_values_keep_their_values_in_order() {
    let values = ParamValues::new(vec![
        ParamValue::from_i32(1),
        ParamValue::from_str("two"),
        ParamValue::from_bool(true),
    ]);
    assert_eq!(values.len(), 3);
    assert!(!values.is_empty());
    assert_eq!(values[0], ParamValue::from_i32(1));
    assert_eq!(values[1], ParamValue::from_str("two"));
    assert_eq!(values[2], ParamValue::from_bool(true));
    let seen: Vec<ParamValue> = values.iter().cloned().collect();
    assert_eq!(seen, vec![
        ParamValue::from_i32(1),
        ParamValue::from_str("two"),
        ParamValue::from_bool(true),
    ]);
}

#[test]
fn param_values_of_nothing_are_empty() {
    let values = ParamValues::new(vec![]);
    assert_eq!(values.len(), 0);
    assert!(values.is_empty());
    assert_eq!(values.iter().count(), 0);
}

#[test]
fn index_mut_changes_one_value_in_place() {
    let mut values = ParamValues::new(vec![ParamValue::from_i32(1), ParamValue::from_i32(2)]);
    values.index_mut(1).set_str("changed");
    *values.index_mut(0) = ParamValue::from_blob(vec![9]);
    assert_eq!(values.len(), 2);
    assert_eq!(values[0], ParamValue::from_blob(vec![9]));
    assert_eq!(values[1], ParamValue::from_str("changed"));
}

#[test]
fn param_values_clone_keeps_every_value() {
    let values = ParamValues::new(vec![
        ParamValue::from_str("one"),
        ParamValue::from_blob(vec![2]),
        ParamValue::new_empty(),
    ]);
    let copy = values.clone();
    assert_eq!(copy.len(), 3);
    for i in 0..3 {
        assert_eq!(copy[i], values[i]);
    }
}

#[test]
fn utf16_units_agree_with_the_encoding_of_std() {
    let texts = [
        "",
        "plain",
        "nul\u{0}inside",
        "Привет, мир",
        "\u{7ff}\u{800}\u{d7ff}\u{e000}\u{ffff}",
        "\u{10000}\u{10001}\u{103ff}\u{10400}\u{fffff}\u{100000}\u{10ffff}",
        "mixed \u{1f600} text \u{1d11e}",
    ];
    for text in texts {
        let expected: Vec<u16> = text.encode_utf16().collect();
        assert_eq!(utf16_units(text), expected);
    }
}

#[test]
fn push_utf16_appends_one_or_two_code_units() {
    let mut units = vec![7u16];
    push_utf16(&mut units, 'a');
    assert_eq!(units, vec![7, 0x61]);
    push_utf16(&mut units, '\u{0}');
    assert_eq!(units, vec![7, 0x61, 0]);
    push_utf16(&mut units, '\u{ffff}');
    assert_eq!(units, vec![7, 0x61, 0, 0xffff]);
    push_utf16(&mut units, '\u{10000}');
    assert_eq!(units, vec![7, 0x61, 0, 0xffff, 0xd800, 0xdc00]);
    push_utf16(&mut units, '\u{10ffff}');
    assert_eq!(units, vec![7, 0x61, 0, 0xffff, 0xd800, 0xdc00, 0xdbff, 0xdfff]);
}
