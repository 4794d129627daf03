use native_bridge::dynamic::{duplicate_all, Dynamic, SizedInt};
use native_bridge::variant::Variant;

#[test]
fn every_value_reports_its_type_tag() {
    assert_eq!(Dynamic::Unit.type_tag(), "()");
    assert_eq!(Dynamic::Bool(true).type_tag(), "bool");
    assert_eq!(Dynamic::Int(1).type_tag(), "i64");
    assert_eq!(Dynamic::Char('c').type_tag(), "char");
    assert_eq!(Dynamic::Str("s".to_string()).type_tag(), "string");
    assert_eq!(Dynamic::Array(vec![]).type_tag(), "array");
    assert_eq!(Dynamic::Object(vec![]).type_tag(), "map");
    assert_eq!(Dynamic::native("Point", vec![]).type_tag(), "Point");
    assert_eq!(Dynamic::Sized(SizedInt::I8(1)).type_tag(), "i8");
    assert_eq!(Dynamic::Sized(SizedInt::U8(1)).type_tag(), "u8");
    assert_eq!(Dynamic::Sized(SizedInt::I16(1)).type_tag(), "i16");
    assert_eq!(Dynamic::Sized(SizedInt::U16(1)).type_tag(), "u16");
    assert_eq!(Dynamic::Sized(SizedInt::I32(1)).type_tag(), "i32");
    assert_eq!(Dynamic::Sized(SizedInt::U32(1)).type_tag(), "u32");
    assert_eq!(Dynamic::Sized(SizedInt::U64(1)).type_tag(), "u64");
    assert_eq!(Dynamic::Sized(SizedInt::I128(1)).type_tag(), "i128");
    assert_eq!(Dynamic::Sized(SizedInt::U128(1)).type_tag(), "u128");
}

#[test]
fn type_tags_of_native_types_match_their_values() {
    assert_eq!(<i64 as Variant>::type_tag(), 5i64.into_dynamic().type_tag());
    assert_eq!(<bool as Variant>::type_tag(), true.into_dynamic().type_tag());
    assert_eq!(<char as Variant>::type_tag(), 'x'.into_dynamic().type_tag());
    assert_eq!(<() as Variant>::type_tag(), ().into_dynamic().type_tag());
    assert_eq!(<String as Variant>::type_tag(), String::new().into_dynamic().type_tag());
    assert_eq!(<u128 as Variant>::type_tag(), 5u128.into_dynamic().type_tag());
    assert_eq!(<Vec<Dynamic> as Variant>::type_tag(), Vec::<Dynamic>::new().into_dynamic().type_tag());
    assert_eq!(
        <Vec<(String, Dynamic)> as Variant>::type_tag(),
        Vec::<(String, Dynamic)>::new().into_dynamic().type_tag()
    );
}

#[test]
fn native_values_round_trip() {
    assert_eq!(i64::from_dynamic(&(-7i64).into_dynamic()), Some(-7));
    assert_eq!(bool::from_dynamic(&true.into_dynamic()), Some(true));
    assert_eq!(char::from_dynamic(&'q'.into_dynamic()), Some('q'));
    assert_eq!(<()>::from_dynamic(&().into_dynamic()), Some(()));
    assert_eq!(String::from_dynamic(&"ab".to_string().into_dynamic()), Some("ab".to_string()));
    assert_eq!(i8::from_dynamic(&(-8i8).into_dynamic()), Some(-8));
    assert_eq!(u8::from_dynamic(&8u8.into_dynamic()), Some(8));
    assert_eq!(i16::from_dynamic(&(-16i16).into_dynamic()), Some(-16));
    assert_eq!(u16::from_dynamic(&16u16.into_dynamic()), Some(16));
    assert_eq!(i32::from_dynamic(&(-32i32).into_dynamic()), Some(-32));
    assert_eq!(u32::from_dynamic(&32u32.into_dynamic()), Some(32));
    assert_eq!(u64::from_dynamic(&u64::MAX.into_dynamic()), Some(u64::MAX));
    assert_eq!(i128::from_dynamic(&i128::MIN.into_dynamic()), Some(i128::MIN));
    assert_eq!(u128::from_dynamic(&u128::MAX.into_dynamic()), Some(u128::MAX));
    let list = vec![Dynamic::Int(1), Dynamic::Str("x".to_string())];
    assert_eq!(Vec::<Dynamic>::from_dynamic(&Dynamic::Array(vec![Dynamic::Int(1), Dynamic::Str("x".to_string())])), Some(list));
    let map = vec![("k".to_string(), Dynamic::Bool(false))];
    assert_eq!(
        Vec::<(String, Dynamic)>::from_dynamic(&Dynamic::Object(vec![("k".to_string(), Dynamic::Bool(false))])),
        Some(map)
    );
}

#[test]
fn values_of_other_types_are_not_taken() {
    assert_eq!(i64::from_dynamic(&Dynamic::Bool(true)), None);
    assert_eq!(i64::from_dynamic(&Dynamic::Sized(SizedInt::I32(1))), None);
    assert_eq!(i32::from_dynamic(&Dynamic::Int(1)), None);
    assert_eq!(u8::from_dynamic(&Dynamic::Sized(SizedInt::I8(1))), None);
    assert_eq!(bool::from_dynamic(&Dynamic::Unit), None);
    assert_eq!(<()>::from_dynamic(&Dynamic::Int(0)), None);
    assert_eq!(char::from_dynamic(&Dynamic::Str("c".to_string())), None);
    assert_eq!(String::from_dynamic(&Dynamic::Char('c')), None);
    assert_eq!(Vec::<Dynamic>::from_dynamic(&Dynamic::Object(vec![])), None);
    assert_eq!(Vec::<(String, Dynamic)>::from_dynamic(&Dynamic::Array(vec![])), None);
}

#[test]
fn duplicate_copies_nested_values() {
    let value = Dynamic::Object(vec![
        ("list".to_string(), Dynamic::Array(vec![Dynamic::Int(1), Dynamic::Char('c')])),
        ("point".to_string(), Dynamic::native("Point", vec![Dynamic::Int(3), Dynamic::Int(4)])),
        ("name".to_string(), Dynamic::Str("n".to_string())),
        ("small".to_string(), Dynamic::Sized(SizedInt::U16(9))),
    ]);
    assert_eq!(value.duplicate(), value);
    let items = vec![Dynamic::Unit, Dynamic::Bool(true)];
    assert_eq!(duplicate_all(&items), items);
}

#[test]
fn native_fields_are_read_by_type_name() {
    let point = Dynamic::native("Point", vec![Dynamic::Int(3), Dynamic::Int(4)]);
    assert_eq!(point.native_fields("Point"), Some(&vec![Dynamic::Int(3), Dynamic::Int(4)]));
    assert_eq!(point.native_fields("Other"), None);
    assert_eq!(Dynamic::Int(3).native_fields("Point"), None);
    assert_eq!(Dynamic::Int(3).as_int(), Some(3));
    assert_eq!(Dynamic::Bool(true).as_int(), None);
    assert_eq!(Dynamic::from_char('x'), Dynamic::Char('x'));
}
