//! The engine: a global function table and the names of the registered
//! native types.
use crate::dynamic::Dynamic;
use crate::error::EvalError;
use crate::module::{
    dispatches, install, keys_of, registrations, FnKey, FnKeyView, FnKind, Module, Registration,
};
use crate::native::NativeFn;
use crate::packages::Package;
use crate::variant::Variant;
use vstd::prelude::*;

verus! {

/// A registered native type: its tag and the name scripts see.
struct TypeEntry {
    tag: String,
    display: String,
}

/// The display names of the registered native types, by tag.
struct TypeNames {
    entries: Vec<TypeEntry>,
}

/// The host of registered native types and functions.
pub struct Engine {
    functions: Module,
    types: TypeNames,
}

/// The content of an [`Engine`].
pub struct EngineView {
    /// The function registered under each key.
    pub functions: Map<FnKeyView, NativeFn>,
    /// The display name of each registered native type, by the type's tag.
    pub type_names: Map<Seq<char>, Seq<char>>,
}

impl EngineView {
    /// The name under which scripts see a type: the registered one, or the
    /// type's tag where the type was not registered.
    pub open spec fn display_name(self, tag: Seq<char>) -> Seq<char> {
        if self.type_names.contains_key(tag) {
            self.type_names[tag]
        } else {
            tag
        }
    }

    /// The engine after one more type registration.
    pub open spec fn with_type(self, tag: Seq<char>, display: Seq<char>) -> EngineView {
        EngineView { functions: self.functions, type_names: self.type_names.insert(tag, display) }
    }

    /// The engine after one more function registration.
    pub open spec fn with_function(self, key: FnKeyView, func: NativeFn) -> EngineView {
        EngineView { functions: self.functions.insert(key, func), type_names: self.type_names }
    }
}

impl View for TypeNames {
    type V = Map<Seq<char>, Seq<char>>;

    closed spec fn view(&self) -> Map<Seq<char>, Seq<char>> {
        Map::new(
            |tag: Seq<char>| self.knows(tag),
            |tag: Seq<char>| self.entries@[self.position(tag)].display@,
        )
    }
}

impl TypeNames {
    /// No type is registered twice.
    #[verifier::type_invariant]
    spec fn tags_distinct(&self) -> bool {
        forall|i: int, j: int|
            0 <= i < self.entries@.len() && 0 <= j < self.entries@.len() && self.entries@[i].tag@
                == self.entries@[j].tag@ ==> i == j
    }

    /// Whether the type with this tag is registered.
    spec fn knows(&self, tag: Seq<char>) -> bool {
        exists|i: int| 0 <= i < self.entries@.len() && self.entries@[i].tag@ == tag
    }

    /// Where the type with this tag stands.
    spec fn position(&self, tag: Seq<char>) -> int {
        choose|i: int| 0 <= i < self.entries@.len() && self.entries@[i].tag@ == tag
    }

    /// No registered type.
    fn new() -> (names: TypeNames)
        ensures
            names@ == Map::<Seq<char>, Seq<char>>::empty(),
    {
        let names = TypeNames { entries: Vec::new() };
        assert(names@ =~= Map::<Seq<char>, Seq<char>>::empty());
        names
    }

    /// Where the type with this tag stands, if it is registered.
    fn find(&self, tag: &str) -> (r: Option<usize>)
        ensures
            match r {
                Some(i) => i < self.entries@.len() && self.entries@[i as int].tag@ == tag@,
                None => !self.knows(tag@),
            },
    {
        let wanted = tag.to_owned();
        let mut i: usize = 0;
        while i < self.entries.len()
            invariant
                i <= self.entries.len(),
                wanted@ == tag@,
                forall|j: int| 0 <= j < i ==> self.entries@[j].tag@ != tag@,
            decreases self.entries.len() - i,
        {
            if self.entries[i].tag == wanted {
                return Some(i);
            }
            i = i + 1;
        }
        None
    }

    /// Whether the type with this tag is registered.
    fn contains(&self, tag: &str) -> (b: bool)
        ensures
            b == self@.contains_key(tag@),
    {
        self.find(tag).is_some()
    }

    /// The display name of the type with this tag, if it is registered.
    fn get(&self, tag: &str) -> (r: Option<&String>)
        ensures
            match r {
                Some(name) => self@.contains_key(tag@) && name@ == self@[tag@],
                None => !self@.contains_key(tag@),
            },
    {
        proof {
            use_type_invariant(self);
        }
        match self.find(tag) {
            Some(i) => Some(&self.entries[i].display),
            None => None,
        }
    }

    /// Registers the type with this tag under `display`, in place of the name
    /// it had.
    fn set(&mut self, tag: String, display: String)
        ensures
            final(self)@ == old(self)@.insert(tag@, display@),
    {
        proof {
            use_type_invariant(&*self);
        }
        let ghost before = *self;
        let found = self.find(tag.as_str());
        let ghost at = match found {
            Some(i) => i as int,
            None => before.entries@.len() as int,
        };
        let mut entries: Vec<TypeEntry> = Vec::new();
        std::mem::swap(&mut self.entries, &mut entries);
        match found {
            Some(i) => {
                entries.set(i, TypeEntry { tag, display });
            },
            None => {
                entries.push(TypeEntry { tag, display });
            },
        }
        assert forall|i: int, j: int|
            0 <= i < entries@.len() && 0 <= j < entries@.len() && entries@[i].tag@
                == entries@[j].tag@ implies i == j by {
            if i != at && j != at {
                assert(before.entries@[i].tag@ == before.entries@[j].tag@);
            }
        }
        self.entries = entries;
        assert(self.entries@[at].tag@ == tag@);
        assert forall|t: Seq<char>| before.knows(t) implies self.knows(t) by {
            assert(self.entries@[before.position(t)].tag@ == t);
        }
        assert forall|t: Seq<char>| self.knows(t) && t != tag@ implies before.knows(t)
            && self.entries@[self.position(t)].display@ == before.entries@[before.position(
            t,
        )].display@ by {
            assert(before.entries@[self.position(t)].tag@ == t);
        }
        assert(self@ =~= before@.insert(tag@, display@));
    }
}

impl View for Engine {
    type V = EngineView;

    closed spec fn view(&self) -> EngineView {
        EngineView { functions: self.functions@, type_names: self.types@ }
    }
}

impl Engine {
    /// An engine without functions and without registered types.
    pub fn new() -> (e: Engine)
        ensures
            e@.functions == Map::<FnKeyView, NativeFn>::empty(),
            e@.type_names == Map::<Seq<char>, Seq<char>>::empty(),
    {
        Engine { functions: Module::new(), types: TypeNames::new() }
    }

    /// Registers the native type `T` under its default name, the type's tag.
    pub fn register_type<T: Variant>(&mut self) -> (r: &mut Self)
        ensures
            r@ == old(self)@.with_type(T::spec_type_tag(), T::spec_type_tag()),
            *final(self) == *final(r),
    {
        self.types.set(T::type_tag(), T::type_tag());
        self
    }

    /// Registers the native type `T` under a name of the host's choice.
    pub fn register_type_with_name<T: Variant>(&mut self, name: &str) -> (r: &mut Self)
        ensures
            r@ == old(self)@.with_type(T::spec_type_tag(), name@),
            *final(self) == *final(r),
    {
        self.types.set(T::type_tag(), name.to_owned());
        self
    }

    /// Whether a native type with this tag was registered.
    pub fn has_type(&self, tag: &str) -> (b: bool)
        ensures
            b == self@.type_names.contains_key(tag@),
    {
        self.types.contains(tag)
    }

    /// The name under which scripts see the type with this tag.
    pub fn display_name(&self, tag: &str) -> (name: String)
        ensures
            name@ == self@.display_name(tag@),
    {
        match self.types.get(tag) {
            Some(name) => name.clone(),
            None => tag.to_owned(),
        }
    }

    /// The name under which scripts see the type of a value.
    pub fn type_of(&self, value: &Dynamic) -> (name: String)
        ensures
            name@ == self@.display_name(value@.type_tag()),
    {
        let tag = value.type_tag();
        self.display_name(tag.as_str())
    }

    /// Registers `func` under `key`, in place of what was registered there.
    pub fn register(&mut self, key: FnKey, func: NativeFn) -> (r: &mut Self)
        ensures
            r@ == old(self)@.with_function(key@, func),
            *final(self) == *final(r),
    {
        self.functions.set(key, func);
        self
    }

    /// Registers every item, first to last.
    pub fn register_all(&mut self, items: Vec<Registration>) -> (r: &mut Self)
        ensures
            r@.functions == install(old(self)@.functions, registrations(items@)),
            r@.type_names == old(self)@.type_names,
            *final(self) == *final(r),
    {
        self.functions.install(items);
        self
    }

    /// Merges a package into the global function table.
    pub fn load_package<P: Package>(&mut self, package: &P) -> (r: &mut Self)
        ensures
            exists|members: Seq<(FnKeyView, NativeFn)>|
                keys_of(members) == package.keys() && package.describes(members) && r@.functions
                    == #[trigger] install(old(self)@.functions, members),
            r@.type_names == old(self)@.type_names,
            *final(self) == *final(r),
    {
        package.init(&mut self.functions);
        proof {
            let members = choose|members: Seq<(FnKeyView, NativeFn)>|
                keys_of(members) == package.keys() && package.describes(members)
                    && self.functions@ == #[trigger] install(old(self).functions@, members);
            assert(self@.functions == install(old(self)@.functions, members));
        }
        self
    }

    /// The global function table.
    pub fn functions(&self) -> (m: &Module)
        ensures
            m@ == self@.functions,
    {
        &self.functions
    }

    /// Calls the function registered under `name` for the types of `args`.
    pub fn call_fn(&self, name: &str, args: &mut Vec<Dynamic>) -> (res: Result<Dynamic, EvalError>)
        ensures
            dispatches(self@.functions, FnKind::Function, name@, *old(args), *final(args), res),
            final(args)@.len() == old(args)@.len(),
    {
        self.functions.call_as(FnKind::Function, name, args)
    }

    /// Calls the function that is reached through `kind` under `name`, with
    /// `target` as the receiver and `rest` as the other arguments.
    ///
    /// The call is the table's call on the receiver followed by `rest`; what
    /// the first argument holds after it is written back into `target`.
    pub fn call_method(
        &self,
        kind: FnKind,
        name: &str,
        target: &mut Dynamic,
        rest: Vec<Dynamic>,
    ) -> (res: Result<Dynamic, EvalError>)
        ensures
            exists|args: Vec<Dynamic>, out: Vec<Dynamic>|
                args@ == seq![*old(target)] + rest@ && out@.len() == args@.len() && out@[0]
                    == *final(target) && #[trigger] dispatches(
                    self@.functions,
                    kind,
                    name@,
                    args,
                    out,
                    res,
                ),
    {
        let mut rest = rest;
        let mut held = Dynamic::Unit;
        std::mem::swap(target, &mut held);
        let mut args: Vec<Dynamic> = Vec::new();
        args.push(held);
        args.append(&mut rest);
        let ghost before = args;
        let res = self.functions.call_as(kind, name, &mut args);
        let ghost after = args;
        let mut back = args.remove(0);
        std::mem::swap(target, &mut back);
        assert(dispatches(self@.functions, kind, name@, before, after, res));
        res
    }

    /// Reads property `name` of `target` through the getter registered for
    /// the type of `target`.
    pub fn get_property(&self, target: &mut Dynamic, name: &str) -> (res: Result<
        Dynamic,
        EvalError,
    >)
        ensures
            exists|args: Vec<Dynamic>, out: Vec<Dynamic>|
                args@ == seq![*old(target)] && out@ == seq![*final(target)]
                    && #[trigger] dispatches(
                    self@.functions,
                    FnKind::Getter,
                    name@,
                    args,
                    out,
                    res,
                ),
    {
        let res = self.call_method(FnKind::Getter, name, target, Vec::new());
        proof {
            let (args, out) = choose|args: Vec<Dynamic>, out: Vec<Dynamic>|
                args@ == seq![*old(target)] + Seq::<Dynamic>::empty() && out@.len() == args@.len()
                    && out@[0] == *target && #[trigger] dispatches(
                    self@.functions,
                    FnKind::Getter,
                    name@,
                    args,
                    out,
                    res,
                );
            assert(args@ =~= seq![*old(target)]);
            assert(out@ =~= seq![*target]);
        }
        res
    }

    /// Writes `value` to property `name` of `target` through the setter
    /// registered for the types of `target` and `value`.
    pub fn set_property(&self, target: &mut Dynamic, name: &str, value: Dynamic) -> (res: Result<
        Dynamic,
        EvalError,
    >)
        ensures
            exists|args: Vec<Dynamic>, out: Vec<Dynamic>|
                args@ == seq![*old(target), value] && out@.len() == 2 && out@[0] == *final(target)
                    && #[trigger] dispatches(
                    self@.functions,
                    FnKind::Setter,
                    name@,
                    args,
                    out,
                    res,
                ),
    {
        let mut rest: Vec<Dynamic> = Vec::new();
        rest.push(value);
        let res = self.call_method(FnKind::Setter, name, target, rest);
        proof {
            let (args, out) = choose|args: Vec<Dynamic>, out: Vec<Dynamic>|
                args@ == seq![*old(target)] + rest@ && out@.len() == args@.len() && out@[0]
                    == *target && #[trigger] dispatches(
                    self@.functions,
                    FnKind::Setter,
                    name@,
                    args,
                    out,
                    res,
                );
            assert(args@ =~= seq![*old(target), value]);
        }
        res
    }

    /// Reads `target` at `index` through the index getter registered for the
    /// types of `target` and `index`.
    pub fn get_index(&self, target: &mut Dynamic, index: Dynamic) -> (res: Result<
        Dynamic,
        EvalError,
    >)
        ensures
            exists|args: Vec<Dynamic>, out: Vec<Dynamic>|
                args@ == seq![*old(target), index] && out@.len() == 2 && out@[0] == *final(target)
                    && #[trigger] dispatches(
                    self@.functions,
                    FnKind::IndexGet,
                    Seq::<char>::empty(),
                    args,
                    out,
                    res,
                ),
    {
        let mut rest: Vec<Dynamic> = Vec::new();
        rest.push(index);
        proof {
            reveal_strlit("");
        }
        assert(""@ =~= Seq::<char>::empty());
        let res = self.call_method(FnKind::IndexGet, "", target, rest);
        proof {
            let (args, out) = choose|args: Vec<Dynamic>, out: Vec<Dynamic>|
                args@ == seq![*old(target)] + rest@ && out@.len() == args@.len() && out@[0]
                    == *target && #[trigger] dispatches(
                    self@.functions,
                    FnKind::IndexGet,
                    ""@,
                    args,
                    out,
                    res,
                );
            assert(args@ =~= seq![*old(target), index]);
        }
        res
    }

    /// Writes `value` to `target` at `index` through the index setter
    /// registered for the types of `target`, `index` and `value`.
    pub fn set_index(&self, target: &mut Dynamic, index: Dynamic, value: Dynamic) -> (res: Result<
        Dynamic,
        EvalError,
    >)
        ensures
            exists|args: Vec<Dynamic>, out: Vec<Dynamic>|
                args@ == seq![*old(target), index, value] && out@.len() == 3 && out@[0]
                    == *final(target) && #[trigger] dispatches(
                    self@.functions,
                    FnKind::IndexSet,
                    Seq::<char>::empty(),
                    args,
                    out,
                    res,
                ),
    {
        let mut rest: Vec<Dynamic> = Vec::new();
        rest.push(index);
        rest.push(value);
        proof {
            reveal_strlit("");
        }
        assert(""@ =~= Seq::<char>::empty());
        let res = self.call_method(FnKind::IndexSet, "", target, rest);
        proof {
            let (args, out) = choose|args: Vec<Dynamic>, out: Vec<Dynamic>|
                args@ == seq![*old(target)] + rest@ && out@.len() == args@.len() && out@[0]
                    == *target && #[trigger] dispatches(
                    self@.functions,
                    FnKind::IndexSet,
                    ""@,
                    args,
                    out,
                    res,
                );
            assert(args@ =~= seq![*old(target), index, value]);
        }
        res
    }
}

} // verus!
