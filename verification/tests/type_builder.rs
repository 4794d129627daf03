use native_bridge::api::build_type::{CustomType, TypeBuilder};
use native_bridge::dynamic::Dynamic;
use native_bridge::engine::Engine;
use native_bridge::error::EvalError;
use native_bridge::module::{FnKey, FnKind};
use native_bridge::native::NativeFn;
use native_bridge::variant::Variant;

#[derive(Debug, Clone, Eq, PartialEq)]
struct TestStruct {
    field: i64,
}

impl TestStruct {
    fn new() -> Self {
        Self { field: 1 }
    }

    fn update(&mut self, offset: i64) {
        self.field += offset;
    }

    fn get_value(&mut self) -> i64 {
        self.field
    }

    fn set_value(&mut self, value: i64) {
        self.field = value;
    }
}

impl Variant for TestStruct {
    fn type_tag() -> String {
        "TestStruct".to_string()
    }

    fn into_dynamic(self) -> Dynamic {
        Dynamic::native("TestStruct", vec![Dynamic::Int(self.field)])
    }

    fn from_dynamic(d: &Dynamic) -> Option<Self> {
        let fields = d.native_fields("TestStruct")?;
        if fields.len() != 1 {
            return None;
        }
        Some(TestStruct { field: fields[0].as_int()? })
    }
}

impl CustomType for TestStruct {
    fn build(builder: &mut TypeBuilder<'_, Self>) {
        builder
            .with_name("TestStruct")
            .with_fn("new_ts", NativeFn::from_fn_0(Self::new))
            .with_fn("update", NativeFn::from_method_1(Self::update))
            .with_get_set("value", Self::get_value, Self::set_value);
    }
}

fn held(d: &Dynamic) -> TestStruct {
    TestStruct::from_dynamic(d).unwrap()
}

#[test]
fn build_type_registers_type_and_members() {
    let mut engine = Engine::new();
    engine.build_type::<TestStruct>();
    assert!(engine.has_type("TestStruct"));

    // let x = new_ts(); x.update(41); x
    let mut x = engine.call_fn("new_ts", &mut vec![]).unwrap();
    assert_eq!(held(&x), TestStruct { field: 1 });
    let mut args = vec![x, Dynamic::Int(41)];
    assert_eq!(engine.call_fn("update", &mut args), Ok(Dynamic::Unit));
    x = args.remove(0);
    assert_eq!(held(&x), TestStruct { field: 42 });
}

#[test]
fn property_write_is_seen_by_the_next_read() {
    let mut engine = Engine::new();
    engine.build_type::<TestStruct>();
    // let x = new_ts(); x.value = 5 + x.value; x
    let mut x = engine.call_fn("new_ts", &mut vec![]).unwrap();
    let before = engine.get_property(&mut x, "value").unwrap();
    assert_eq!(before, Dynamic::Int(1));
    let sum = 5 + before.as_int().unwrap();
    assert_eq!(engine.set_property(&mut x, "value", Dynamic::Int(sum)), Ok(Dynamic::Unit));
    assert_eq!(engine.get_property(&mut x, "value"), Ok(Dynamic::Int(6)));
    assert_eq!(held(&x), TestStruct { field: 6 });
}

#[test]
fn unknown_property_is_not_found() {
    let mut engine = Engine::new();
    engine.build_type::<TestStruct>();
    let mut x = TestStruct::new().into_dynamic();
    assert_eq!(engine.get_property(&mut x, "other"), Err(EvalError::FunctionNotFound));
    assert_eq!(held(&x), TestStruct { field: 1 });
    assert_eq!(
        engine.set_property(&mut x, "value", Dynamic::Bool(true)),
        Err(EvalError::FunctionNotFound)
    );
    assert_eq!(held(&x), TestStruct { field: 1 });
    let mut other = Dynamic::Int(3);
    assert_eq!(engine.get_property(&mut other, "value"), Err(EvalError::FunctionNotFound));
    assert_eq!(other, Dynamic::Int(3));
}

#[derive(Debug, Clone, PartialEq)]
struct Plain;

impl Variant for Plain {
    fn type_tag() -> String {
        "Plain".to_string()
    }

    fn into_dynamic(self) -> Dynamic {
        Dynamic::native("Plain", vec![])
    }

    fn from_dynamic(d: &Dynamic) -> Option<Self> {
        d.native_fields("Plain").map(|_| Plain)
    }
}

impl CustomType for Plain {
    fn build(_builder: &mut TypeBuilder<'_, Self>) {}
}

#[test]
fn type_without_name_gets_its_default_name() {
    let mut engine = Engine::new();
    assert!(!engine.has_type("Plain"));
    assert_eq!(engine.display_name("Plain"), "Plain");
    engine.build_type::<Plain>();
    assert!(engine.has_type("Plain"));
    assert_eq!(engine.display_name("Plain"), "Plain");
    assert_eq!(engine.type_of(&Plain.into_dynamic()), "Plain");
}

#[test]
fn type_without_members_is_still_registered() {
    let mut engine = Engine::new();
    engine.build_type::<Plain>();
    assert!(engine.has_type("Plain"));
    assert_eq!(engine.call_fn("anything", &mut vec![]), Err(EvalError::FunctionNotFound));
    let key = FnKey::new(FnKind::Getter, "value", vec!["Plain".to_string()]);
    assert!(!engine.functions().contains(&key));
}

#[derive(Debug, Clone, PartialEq)]
struct Renamed;

impl Variant for Renamed {
    fn type_tag() -> String {
        "crate::Renamed".to_string()
    }

    fn into_dynamic(self) -> Dynamic {
        Dynamic::native("crate::Renamed", vec![])
    }

    fn from_dynamic(d: &Dynamic) -> Option<Self> {
        d.native_fields("crate::Renamed").map(|_| Renamed)
    }
}

impl CustomType for Renamed {
    fn build(builder: &mut TypeBuilder<'_, Self>) {
        builder.with_name("A").with_name("B").with_fn("make", NativeFn::from_fn_0(|| Renamed)).with_name("X");
    }
}

#[test]
fn name_given_last_wins() {
    let mut engine = Engine::new();
    engine.build_type::<Renamed>();
    assert!(engine.has_type("crate::Renamed"));
    assert_eq!(engine.display_name("crate::Renamed"), "X");
    let made = engine.call_fn("make", &mut vec![]).unwrap();
    assert_eq!(engine.type_of(&made), "X");
    assert_eq!(engine.type_of(&Dynamic::Int(1)), "i64");
}

#[test]
fn registering_a_type_again_replaces_its_name() {
    let mut engine = Engine::new();
    engine.register_type::<Renamed>();
    assert_eq!(engine.display_name("crate::Renamed"), "crate::Renamed");
    engine.register_type_with_name::<Renamed>("Pretty").register_type_with_name::<Plain>("Simple");
    assert_eq!(engine.display_name("crate::Renamed"), "Pretty");
    assert_eq!(engine.display_name("Plain"), "Simple");
    engine.register_type::<Renamed>();
    assert_eq!(engine.display_name("crate::Renamed"), "crate::Renamed");
    assert_eq!(engine.display_name("Plain"), "Simple");
}

#[derive(Debug, Clone, PartialEq)]
struct Shelf {
    slots: Vec<i64>,
}

impl Variant for Shelf {
    fn type_tag() -> String {
        "Shelf".to_string()
    }

    fn into_dynamic(self) -> Dynamic {
        Dynamic::native("Shelf", self.slots.into_iter().map(Dynamic::Int).collect())
    }

    fn from_dynamic(d: &Dynamic) -> Option<Self> {
        let fields = d.native_fields("Shelf")?;
        let mut slots = Vec::new();
        for f in fields {
            slots.push(f.as_int()?);
        }
        Some(Shelf { slots })
    }
}

fn slot(shelf: &mut Shelf, at: i64) -> Result<i64, EvalError> {
    shelf.slots.get(at as usize).copied().ok_or(EvalError::runtime("no such slot"))
}

fn put(shelf: &mut Shelf, at: i64, value: i64) -> Result<(), EvalError> {
    match shelf.slots.get_mut(at as usize) {
        Some(s) => {
            *s = value;
            Ok(())
        }
        None => Err(EvalError::runtime("no such slot")),
    }
}

fn count(shelf: &mut Shelf) -> Result<i64, EvalError> {
    Ok(shelf.slots.len() as i64)
}

fn resize(shelf: &mut Shelf, to: i64) -> Result<(), EvalError> {
    if to < 0 {
        return Err(EvalError::runtime("negative size"));
    }
    shelf.slots.resize(to as usize, 0);
    Ok(())
}

impl CustomType for Shelf {
    fn build(builder: &mut TypeBuilder<'_, Self>) {
        builder
            .with_indexer_get_result(slot)
            .with_indexer_set_result(put)
            .with_get_result("count", count)
            .with_set_result("count", resize)
            .with_result_fn("shelf", NativeFn::from_result_fn_1(|n: i64| -> Result<Shelf, EvalError> {
                if n < 0 {
                    Err(EvalError::runtime("negative size"))
                } else {
                    Ok(Shelf { slots: vec![0; n as usize] })
                }
            }));
    }
}

#[test]
fn fallible_members_work_and_report_failures() {
    let mut engine = Engine::new();
    engine.build_type::<Shelf>();
    let mut shelf = engine.call_fn("shelf", &mut vec![Dynamic::Int(2)]).unwrap();
    assert_eq!(
        engine.call_fn("shelf", &mut vec![Dynamic::Int(-1)]),
        Err(EvalError::Runtime("negative size".to_string()))
    );
    assert_eq!(engine.set_index(&mut shelf, Dynamic::Int(1), Dynamic::Int(9)), Ok(Dynamic::Unit));
    assert_eq!(engine.get_index(&mut shelf, Dynamic::Int(1)), Ok(Dynamic::Int(9)));
    assert_eq!(engine.get_index(&mut shelf, Dynamic::Int(0)), Ok(Dynamic::Int(0)));
    assert_eq!(
        engine.get_index(&mut shelf, Dynamic::Int(5)),
        Err(EvalError::Runtime("no such slot".to_string()))
    );
    assert_eq!(
        engine.set_index(&mut shelf, Dynamic::Int(5), Dynamic::Int(1)),
        Err(EvalError::Runtime("no such slot".to_string()))
    );
    assert_eq!(engine.get_property(&mut shelf, "count"), Ok(Dynamic::Int(2)));
    assert_eq!(engine.set_property(&mut shelf, "count", Dynamic::Int(3)), Ok(Dynamic::Unit));
    assert_eq!(engine.get_property(&mut shelf, "count"), Ok(Dynamic::Int(3)));
    assert_eq!(
        engine.set_property(&mut shelf, "count", Dynamic::Int(-3)),
        Err(EvalError::Runtime("negative size".to_string()))
    );
    assert_eq!(Shelf::from_dynamic(&shelf), Some(Shelf { slots: vec![0, 9, 0] }));
}

#[derive(Debug, Clone, PartialEq)]
struct Pair {
    left: i64,
    right: i64,
}

impl Variant for Pair {
    fn type_tag() -> String {
        "Pair".to_string()
    }

    fn into_dynamic(self) -> Dynamic {
        Dynamic::native("Pair", vec![Dynamic::Int(self.left), Dynamic::Int(self.right)])
    }

    fn from_dynamic(d: &Dynamic) -> Option<Self> {
        let fields = d.native_fields("Pair")?;
        if fields.len() != 2 {
            return None;
        }
        Some(Pair { left: fields[0].as_int()?, right: fields[1].as_int()? })
    }
}

impl CustomType for Pair {
    fn build(builder: &mut TypeBuilder<'_, Self>) {
        builder
            .with_get("left", |p: &mut Pair| p.left)
            .with_set("left", |p: &mut Pair, v: i64| p.left = v)
            .with_indexer_get(|p: &mut Pair, at: bool| if at { p.right } else { p.left })
            .with_indexer_set(|p: &mut Pair, at: bool, v: i64| if at { p.right = v } else { p.left = v })
            .with_indexer_get_set(
                |p: &mut Pair, at: char| if at == 'r' { p.right } else { p.left },
                |p: &mut Pair, at: char, v: i64| if at == 'r' { p.right = v } else { p.left = v },
            );
    }
}

#[test]
fn infallible_accessors_and_indexers() {
    let mut engine = Engine::new();
    engine.build_type::<Pair>().build_type::<Plain>();
    let mut pair = Pair { left: 1, right: 2 }.into_dynamic();
    assert_eq!(engine.get_property(&mut pair, "left"), Ok(Dynamic::Int(1)));
    assert_eq!(engine.set_property(&mut pair, "left", Dynamic::Int(10)), Ok(Dynamic::Unit));
    assert_eq!(engine.get_index(&mut pair, Dynamic::Bool(false)), Ok(Dynamic::Int(10)));
    assert_eq!(engine.set_index(&mut pair, Dynamic::Bool(true), Dynamic::Int(20)), Ok(Dynamic::Unit));
    assert_eq!(engine.get_index(&mut pair, Dynamic::Char('r')), Ok(Dynamic::Int(20)));
    assert_eq!(engine.set_index(&mut pair, Dynamic::Char('l'), Dynamic::Int(30)), Ok(Dynamic::Unit));
    assert_eq!(Pair::from_dynamic(&pair), Some(Pair { left: 30, right: 20 }));
    assert_eq!(engine.get_index(&mut pair, Dynamic::Int(0)), Err(EvalError::FunctionNotFound));
    assert!(engine.has_type("Pair") && engine.has_type("Plain"));
}

#[test]
fn engine_registers_functions_directly() {
    let mut engine = Engine::new();
    let key = FnKey::new(FnKind::Function, "twice", vec!["i64".to_string()]);
    engine.register(key, NativeFn::from_fn_1(|x: i64| 2 * x));
    assert_eq!(engine.call_fn("twice", &mut vec![Dynamic::Int(4)]), Ok(Dynamic::Int(8)));
    let mut target = Dynamic::Int(4);
    assert_eq!(
        engine.call_method(FnKind::Function, "twice", &mut target, vec![]),
        Ok(Dynamic::Int(8))
    );
    assert_eq!(target, Dynamic::Int(4));
}
