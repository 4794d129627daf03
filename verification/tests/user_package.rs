use native_bridge::dynamic::Dynamic;
use native_bridge::engine::Engine;
use native_bridge::error::EvalError;
use native_bridge::module::{FnKey, FnKind, Module, Registration};
use native_bridge::native::NativeFn;
use native_bridge::packages::Package;

struct Arithmetic;

impl Package for Arithmetic {
    fn name(&self) -> String {
        "Arithmetic".to_string()
    }

    fn description(&self) -> String {
        "Addition and negation of integers.".to_string()
    }

    fn members(&self) -> Vec<Registration> {
        let int = || "i64".to_string();
        vec![
            Registration {
                key: FnKey::new(FnKind::Function, "+", vec![int(), int()]),
                func: NativeFn::from_fn_2(|x: i64, y: i64| x.wrapping_add(y)),
            },
            Registration {
                key: FnKey::new(FnKind::Function, "-", vec![int()]),
                func: NativeFn::from_fn_1(|x: i64| x.wrapping_neg()),
            },
        ]
    }

    fn init(&self, lib: &mut Module) {
        lib.install(self.members());
    }
}

struct Empty;

impl Package for Empty {
    fn name(&self) -> String {
        "Empty".to_string()
    }

    fn description(&self) -> String {
        "Nothing.".to_string()
    }

    fn members(&self) -> Vec<Registration> {
        Vec::new()
    }

    fn init(&self, lib: &mut Module) {
        lib.install(self.members());
    }
}

#[test]
fn packages_merge_additively() {
    let mut lib = Module::new();
    lib.set_fn_0("zero", || -> Result<i64, EvalError> { Ok(0) });
    Arithmetic.init(&mut lib);
    Empty.init(&mut lib);
    assert_eq!(lib.call("zero", &mut vec![]), Ok(Dynamic::Int(0)));
    assert_eq!(lib.call("+", &mut vec![Dynamic::Int(2), Dynamic::Int(3)]), Ok(Dynamic::Int(5)));
    assert_eq!(lib.call("-", &mut vec![Dynamic::Int(2)]), Ok(Dynamic::Int(-2)));
    assert_eq!(Arithmetic.name(), "Arithmetic");
    assert_eq!(Empty.description(), "Nothing.");
}

#[test]
fn empty_package_changes_nothing() {
    let mut lib = Module::new();
    Empty.init(&mut lib);
    assert_eq!(lib.call("+", &mut vec![Dynamic::Int(2), Dynamic::Int(3)]), Err(EvalError::FunctionNotFound));
    let mut engine = Engine::new();
    engine.load_package(&Empty).load_package(&Arithmetic);
    assert_eq!(engine.call_fn("-", &mut vec![Dynamic::Int(7)]), Ok(Dynamic::Int(-7)));
}
