use native_bridge::dynamic::{Dynamic, SizedInt};
use native_bridge::engine::Engine;
use native_bridge::error::EvalError;
use native_bridge::module::Module;
use native_bridge::packages::string_basic::{
    append, append_char, concat_char, concat_string, format_map, print_nothing, print_string, print_unit,
    to_string, BasicStringPackage, Features, FUNC_APPEND, FUNC_TO_STRING, KEYWORD_DEBUG,
    KEYWORD_PRINT, OP_CONCAT,
};
use native_bridge::packages::Package;

fn text(s: &str) -> Dynamic {
    Dynamic::Str(s.to_string())
}

fn full() -> Module {
    let mut lib = Module::new();
    BasicStringPackage::new(Features::all()).init(&mut lib);
    lib
}

#[test]
fn reserved_names() {
    assert_eq!(KEYWORD_PRINT, "print");
    assert_eq!(FUNC_TO_STRING, "to_string");
    assert_eq!(KEYWORD_DEBUG, "debug");
    assert_eq!(OP_CONCAT, "+");
    assert_eq!(FUNC_APPEND, "append");
}

#[test]
fn package_is_named_and_described() {
    let package = BasicStringPackage::new(Features::none());
    assert_eq!(package.name(), "BasicStringPackage");
    assert_eq!(package.description(), "Basic string utilities, including printing.");
    assert_eq!(package.members().len(), 22);
    assert_eq!(BasicStringPackage::new(Features::all()).members().len(), 55);
}

#[test]
fn unit_and_no_argument_print_as_empty_string() {
    let lib = full();
    for name in ["print", "to_string", "debug"] {
        assert_eq!(lib.call(name, &mut vec![]), Ok(text("")));
        let mut unit = vec![Dynamic::Unit];
        assert_eq!(lib.call(name, &mut unit), Ok(text("")));
        assert_eq!(unit, vec![Dynamic::Unit]);
    }
    let mut bare = Module::new();
    BasicStringPackage::new(Features::none()).init(&mut bare);
    assert_eq!(bare.call("print", &mut vec![]), Ok(text("")));
    assert_eq!(bare.call("debug", &mut vec![Dynamic::Unit]), Ok(text("")));
    assert_eq!(print_nothing(), Ok(String::new()));
    assert_eq!(print_unit(()), Ok(String::new()));
}

#[test]
fn concatenation_returns_a_new_string() {
    let lib = full();
    let mut args = vec![text("ab"), Dynamic::Char('c')];
    assert_eq!(lib.call("+", &mut args), Ok(text("abc")));
    assert_eq!(args, vec![text("ab"), Dynamic::Char('c')]);
    let mut both = vec![text("ab"), text("cd")];
    assert_eq!(lib.call("+", &mut both), Ok(text("abcd")));
    assert_eq!(both, vec![text("ab"), text("cd")]);
    assert_eq!(concat_char("ab".to_string(), 'c'), Ok("abc".to_string()));
    assert_eq!(concat_string("ab".to_string(), "cd".to_string()), Ok("abcd".to_string()));
    assert_eq!(concat_string(String::new(), String::new()), Ok(String::new()));
}

#[test]
fn append_changes_the_string_in_place() {
    let lib = full();
    let mut args = vec![text("ab"), Dynamic::Char('c')];
    assert_eq!(lib.call("append", &mut args), Ok(Dynamic::Unit));
    assert_eq!(args, vec![text("abc"), Dynamic::Char('c')]);
    let mut both = vec![text("ab"), text("cd")];
    assert_eq!(lib.call("append", &mut both), Ok(Dynamic::Unit));
    assert_eq!(both, vec![text("abcd"), text("cd")]);
    let mut held = "ab".to_string();
    assert_eq!(append_char(&mut held, 'c'), Ok(()));
    assert_eq!(held, "abc");
    assert_eq!(append(&mut held, "de".to_string()), Ok(()));
    assert_eq!(held, "abcde");
}

#[test]
fn primitives_print_as_display_does() {
    let lib = full();
    assert_eq!(lib.call("print", &mut vec![Dynamic::Int(-42)]), Ok(text("-42")));
    assert_eq!(lib.call("to_string", &mut vec![Dynamic::Int(7)]), Ok(text("7")));
    assert_eq!(lib.call("print", &mut vec![Dynamic::Bool(true)]), Ok(text("true")));
    assert_eq!(lib.call("to_string", &mut vec![Dynamic::Bool(false)]), Ok(text("false")));
    assert_eq!(lib.call("print", &mut vec![Dynamic::Char('x')]), Ok(text("x")));
    assert_eq!(lib.call("to_string", &mut vec![Dynamic::Char('y')]), Ok(text("y")));
    assert_eq!(lib.call("print", &mut vec![text("as is")]), Ok(text("as is")));
    assert_eq!(lib.call("to_string", &mut vec![text("as is")]), Ok(text("as is")));
    let mut n = 12i64;
    assert_eq!(to_string(&mut n), Ok("12".to_string()));
    assert_eq!(n, 12);
    assert_eq!(print_string("s".to_string()), Ok("s".to_string()));
}

#[test]
fn primitives_debug_as_debug_does() {
    let lib = full();
    assert_eq!(lib.call("debug", &mut vec![Dynamic::Int(-42)]), Ok(text("-42")));
    assert_eq!(lib.call("debug", &mut vec![Dynamic::Bool(true)]), Ok(text("true")));
    assert_eq!(lib.call("debug", &mut vec![Dynamic::Char('x')]), Ok(text("'x'")));
    let mut args = vec![text("a\"b")];
    assert_eq!(lib.call("debug", &mut args), Ok(text("\"a\\\"b\"")));
    assert_eq!(args, vec![text("a\"b")]);
}

#[test]
fn sized_integers_print_when_enabled() {
    let lib = full();
    let values = vec![
        (SizedInt::I8(-8), "-8"),
        (SizedInt::U8(8), "8"),
        (SizedInt::I16(-16), "-16"),
        (SizedInt::U16(16), "16"),
        (SizedInt::I32(-32), "-32"),
        (SizedInt::U32(32), "32"),
        (SizedInt::U64(u64::MAX), "18446744073709551615"),
        (SizedInt::I128(i128::MIN), "-170141183460469231731687303715884105728"),
        (SizedInt::U128(u128::MAX), "340282366920938463463374607431768211455"),
    ];
    for (value, shown) in values {
        for name in ["print", "to_string", "debug"] {
            let mut args = vec![Dynamic::Sized(value)];
            assert_eq!(lib.call(name, &mut args), Ok(text(shown)));
            assert_eq!(args, vec![Dynamic::Sized(value)]);
        }
    }
}

#[test]
fn optional_types_are_left_out_when_disabled() {
    let mut lib = Module::new();
    BasicStringPackage::new(Features::none()).init(&mut lib);
    assert_eq!(lib.call("print", &mut vec![Dynamic::Int(1)]), Ok(text("1")));
    assert_eq!(
        lib.call("print", &mut vec![Dynamic::Sized(SizedInt::U8(1))]),
        Err(EvalError::FunctionNotFound)
    );
    assert_eq!(lib.call("print", &mut vec![Dynamic::Array(vec![])]), Err(EvalError::FunctionNotFound));
    assert_eq!(lib.call("debug", &mut vec![Dynamic::Object(vec![])]), Err(EvalError::FunctionNotFound));

    let mut some = Module::new();
    let features = Features { sized_integers: false, arrays: true, object_maps: false };
    BasicStringPackage::new(features).init(&mut some);
    assert!(some.call("print", &mut vec![Dynamic::Array(vec![])]).is_ok());
    assert_eq!(
        some.call("print", &mut vec![Dynamic::Object(vec![])]),
        Err(EvalError::FunctionNotFound)
    );
    assert_eq!(
        some.call("to_string", &mut vec![Dynamic::Sized(SizedInt::I32(1))]),
        Err(EvalError::FunctionNotFound)
    );
    assert_eq!(BasicStringPackage::new(features).members().len(), 25);
}

#[test]
fn arrays_print_their_debug_text() {
    let lib = full();
    let list = || Dynamic::Array(vec![Dynamic::Int(1), Dynamic::Bool(true)]);
    let shown = lib.call("debug", &mut vec![list()]).unwrap();
    assert_eq!(lib.call("print", &mut vec![list()]), Ok(shown.duplicate()));
    assert_eq!(lib.call("to_string", &mut vec![list()]), Ok(shown.duplicate()));
    match shown {
        Dynamic::Str(s) => assert!(s.starts_with('[') && s.ends_with(']')),
        _ => panic!("not a string"),
    }
}

#[test]
fn object_maps_print_with_a_leading_marker() {
    let lib = full();
    let map = || Dynamic::Object(vec![("a".to_string(), Dynamic::Int(1))]);
    for name in ["print", "to_string", "debug"] {
        let mut args = vec![map()];
        match lib.call(name, &mut args) {
            Ok(Dynamic::Str(s)) => {
                assert!(s.starts_with('#'));
                assert!(s.len() > 1);
                assert!(s.contains("\"a\""));
            }
            other => panic!("unexpected {:?}", other),
        }
        assert_eq!(args, vec![map()]);
    }
    let mut entries = vec![("k".to_string(), Dynamic::Unit)];
    let shown = format_map(&mut entries).unwrap();
    assert_eq!(shown, format!("#{:?}", entries));
    assert_eq!(format_map(&mut vec![]), Ok("#[]".to_string()));
}

#[test]
fn init_twice_is_init_once() {
    let package = BasicStringPackage::new(Features::all());
    let mut once = Module::new();
    once.set_fn_1("keep", |x: i64| -> Result<i64, EvalError> { Ok(x) });
    package.init(&mut once);
    let mut twice = Module::new();
    twice.set_fn_1("keep", |x: i64| -> Result<i64, EvalError> { Ok(x) });
    package.init(&mut twice);
    package.init(&mut twice);
    let keys: Vec<_> = package.members().into_iter().map(|m| m.key).collect();
    for key in &keys {
        assert!(once.contains(key));
        assert!(twice.contains(key));
    }
    let calls = vec![
        ("print", vec![]),
        ("print", vec![Dynamic::Int(3)]),
        ("debug", vec![text("s")]),
        ("+", vec![text("ab"), Dynamic::Char('c')]),
        ("append", vec![text("ab"), text("cd")]),
        ("keep", vec![Dynamic::Int(5)]),
        ("missing", vec![Dynamic::Int(5)]),
        ("print", vec![Dynamic::Object(vec![])]),
    ];
    for (name, args) in calls {
        let mut a: Vec<Dynamic> = args.iter().map(|d| d.duplicate()).collect();
        let mut b: Vec<Dynamic> = args.iter().map(|d| d.duplicate()).collect();
        assert_eq!(once.call(name, &mut a), twice.call(name, &mut b));
        assert_eq!(a, b);
    }
}

#[test]
fn package_replaces_what_was_registered_under_its_keys() {
    let mut lib = Module::new();
    lib.set_fn_2("+", |_s: String, _c: char| -> Result<String, EvalError> { Ok("mine".to_string()) });
    assert_eq!(lib.call("+", &mut vec![text("ab"), Dynamic::Char('c')]), Ok(text("mine")));
    BasicStringPackage::new(Features::none()).init(&mut lib);
    assert_eq!(lib.call("+", &mut vec![text("ab"), Dynamic::Char('c')]), Ok(text("abc")));
}

#[test]
fn one_package_serves_many_tables() {
    let package = BasicStringPackage::new(Features::none());
    let mut first = Module::new();
    let mut second = Module::new();
    package.init(&mut first);
    package.init(&mut second);
    assert_eq!(first.call("print", &mut vec![Dynamic::Int(1)]), Ok(text("1")));
    assert_eq!(second.call("print", &mut vec![Dynamic::Int(1)]), Ok(text("1")));
    let mut engine = Engine::new();
    engine.load_package(&package);
    assert_eq!(engine.call_fn("print", &mut vec![Dynamic::Bool(true)]), Ok(text("true")));
    assert!(!engine.has_type("string"));
}
