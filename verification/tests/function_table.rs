use native_bridge::dynamic::Dynamic;
use native_bridge::error::EvalError;
use native_bridge::module::{FnKey, FnKind, Module, Registration};
use native_bridge::native::NativeFn;

fn one() -> Result<i64, EvalError> {
    Ok(1)
}

fn negate(x: i64) -> Result<i64, EvalError> {
    Ok(-x)
}

fn not(x: bool) -> Result<bool, EvalError> {
    Ok(!x)
}

fn clear(s: &mut String) -> Result<i64, EvalError> {
    let n = s.len() as i64;
    s.clear();
    Ok(n)
}

fn sum(x: i64, y: i64) -> Result<i64, EvalError> {
    Ok(x + y)
}

fn grow(x: &mut i64, by: i64) -> Result<(), EvalError> {
    *x += by;
    Ok(())
}

fn key(name: &str, params: &[&str]) -> FnKey {
    FnKey::new(FnKind::Function, name, params.iter().map(|p| p.to_string()).collect())
}

#[test]
fn empty_table_finds_nothing() {
    let table = Module::new();
    let mut args = vec![Dynamic::Int(1)];
    assert_eq!(table.call("negate", &mut args), Err(EvalError::FunctionNotFound));
    assert_eq!(args, vec![Dynamic::Int(1)]);
    assert!(!table.contains(&key("negate", &["i64"])));
    assert!(table.get(&key("negate", &["i64"])).is_none());
}

#[test]
fn functions_are_found_by_name_and_argument_types() {
    let mut table = Module::new();
    table.set_fn_0("one", one);
    table.set_fn_1("flip", negate);
    table.set_fn_1("flip", not);
    table.set_fn_1_mut("clear", clear);
    table.set_fn_2("sum", sum);
    table.set_fn_2_mut("grow", grow);

    assert_eq!(table.call("one", &mut vec![]), Ok(Dynamic::Int(1)));
    assert_eq!(table.call("flip", &mut vec![Dynamic::Int(3)]), Ok(Dynamic::Int(-3)));
    assert_eq!(table.call("flip", &mut vec![Dynamic::Bool(true)]), Ok(Dynamic::Bool(false)));
    let mut text = vec![Dynamic::Str("abc".to_string())];
    assert_eq!(table.call("clear", &mut text), Ok(Dynamic::Int(3)));
    assert_eq!(text, vec![Dynamic::Str(String::new())]);
    assert_eq!(table.call("sum", &mut vec![Dynamic::Int(3), Dynamic::Int(4)]), Ok(Dynamic::Int(7)));
    let mut pair = vec![Dynamic::Int(3), Dynamic::Int(4)];
    assert_eq!(table.call("grow", &mut pair), Ok(Dynamic::Unit));
    assert_eq!(pair, vec![Dynamic::Int(7), Dynamic::Int(4)]);

    assert!(table.contains(&key("flip", &["i64"])));
    assert!(table.contains(&key("flip", &["bool"])));
    assert!(!table.contains(&key("flip", &["char"])));
}

#[test]
fn other_signature_or_name_is_not_found() {
    let mut table = Module::new();
    table.set_fn_1("flip", negate);
    assert_eq!(table.call("flip", &mut vec![Dynamic::Char('c')]), Err(EvalError::FunctionNotFound));
    assert_eq!(table.call("flip", &mut vec![]), Err(EvalError::FunctionNotFound));
    assert_eq!(
        table.call("flip", &mut vec![Dynamic::Int(1), Dynamic::Int(2)]),
        Err(EvalError::FunctionNotFound)
    );
    assert_eq!(table.call("flop", &mut vec![Dynamic::Int(1)]), Err(EvalError::FunctionNotFound));
    assert_eq!(
        table.call_as(FnKind::Getter, "flip", &mut vec![Dynamic::Int(1)]),
        Err(EvalError::FunctionNotFound)
    );
}

#[test]
fn later_registration_under_the_same_key_wins() {
    let mut table = Module::new();
    table.set_fn_1("f", negate);
    table.set_fn_1("f", |x: i64| -> Result<i64, EvalError> { Ok(x + 100) });
    table.set_fn_1("g", not);
    assert_eq!(table.call("f", &mut vec![Dynamic::Int(1)]), Ok(Dynamic::Int(101)));
    assert_eq!(table.call("g", &mut vec![Dynamic::Bool(false)]), Ok(Dynamic::Bool(true)));
    table.set(key("g", &["bool"]), NativeFn::from_fn_1(|x: bool| x));
    assert_eq!(table.call("g", &mut vec![Dynamic::Bool(false)]), Ok(Dynamic::Bool(false)));
    assert_eq!(table.call("f", &mut vec![Dynamic::Int(1)]), Ok(Dynamic::Int(101)));
}

#[test]
fn install_registers_in_order() {
    let mut table = Module::new();
    table.set_fn_1("f", negate);
    table.install(vec![
        Registration { key: key("f", &["i64"]), func: NativeFn::from_fn_1(|x: i64| x + 1) },
        Registration { key: key("h", &[]), func: NativeFn::from_fn_0(|| 7i64) },
        Registration { key: key("f", &["i64"]), func: NativeFn::from_fn_1(|x: i64| x + 2) },
    ]);
    assert_eq!(table.call("f", &mut vec![Dynamic::Int(1)]), Ok(Dynamic::Int(3)));
    assert_eq!(table.call("h", &mut vec![]), Ok(Dynamic::Int(7)));
    table.install(vec![]);
    assert_eq!(table.call("f", &mut vec![Dynamic::Int(1)]), Ok(Dynamic::Int(3)));
}

#[test]
fn keys_compare_by_kind_name_and_signature() {
    let k = key("f", &["i64", "bool"]);
    assert!(k.same(&key("f", &["i64", "bool"])));
    assert!(!k.same(&key("g", &["i64", "bool"])));
    assert!(!k.same(&key("f", &["i64"])));
    assert!(!k.same(&key("f", &["i64", "char"])));
    assert!(!k.same(&FnKey::new(FnKind::Getter, "f", vec!["i64".to_string(), "bool".to_string()])));
    let call = FnKey::for_call(FnKind::Function, "f", &vec![Dynamic::Int(1), Dynamic::Bool(true)]);
    assert!(k.same(&call));
}

#[test]
fn stored_function_is_handed_out() {
    let mut table = Module::new();
    table.set_fn_2("sum", sum);
    let f = table.get(&key("sum", &["i64", "i64"])).unwrap();
    assert_eq!(f.arity(), 2);
    assert_eq!(f.call(&mut vec![Dynamic::Int(1), Dynamic::Int(2)]), Ok(Dynamic::Int(3)));
}
