//! The function table: native functions under a name and a signature.
//!
//! Several functions may share a name as long as their signatures differ. A
//! registration under a key that is already taken replaces what was there.
use crate::dynamic::{type_tags, values, Dynamic};
use crate::error::EvalError;
use crate::native::{
    check_0, check_1, check_2, passed, receiver_passed, returned_or_failed, signature_0,
    signature_1, signature_2, NativeFn,
};
use crate::variant::Variant;
use vstd::prelude::*;

verus! {

/// The syntax through which scripts reach a function.
#[derive(Clone, Copy, Debug, PartialEq, Eq, Structural)]
pub enum FnKind {
    /// A call by name.
    Function,
    /// A property read.
    Getter,
    /// A property write.
    Setter,
    /// An index read.
    IndexGet,
    /// An index write.
    IndexSet,
}

/// The lookup key of a function: how it is reached, its name, and the type
/// tags of its parameters.
#[derive(Debug)]
pub struct FnKey {
    pub kind: FnKind,
    pub name: String,
    pub params: Vec<String>,
}

/// The content of a [`FnKey`].
pub struct FnKeyView {
    pub kind: FnKind,
    pub name: Seq<char>,
    pub params: Seq<Seq<char>>,
}

impl View for FnKey {
    type V = FnKeyView;

    open spec fn view(&self) -> FnKeyView {
        FnKeyView {
            kind: self.kind,
            name: self.name@,
            params: Seq::new(self.params@.len(), |i: int| self.params@[i]@),
        }
    }
}

/// The key of a function called by name.
pub open spec fn function_key(name: Seq<char>, params: Seq<Seq<char>>) -> FnKeyView {
    FnKeyView { kind: FnKind::Function, name, params }
}

/// The key of the getter of property `name`. The first parameter is the type
/// that has the property.
pub open spec fn getter_key(name: Seq<char>, params: Seq<Seq<char>>) -> FnKeyView {
    FnKeyView { kind: FnKind::Getter, name, params }
}

/// The key of the setter of property `name`.
pub open spec fn setter_key(name: Seq<char>, params: Seq<Seq<char>>) -> FnKeyView {
    FnKeyView { kind: FnKind::Setter, name, params }
}

/// The key of an index getter. Indexers have no name.
pub open spec fn index_getter_key(params: Seq<Seq<char>>) -> FnKeyView {
    FnKeyView { kind: FnKind::IndexGet, name: Seq::empty(), params }
}

/// The key of an index setter.
pub open spec fn index_setter_key(params: Seq<Seq<char>>) -> FnKeyView {
    FnKeyView { kind: FnKind::IndexSet, name: Seq::empty(), params }
}

/// The key under which a call is looked up: the name and the type tags of
/// the arguments.
pub open spec fn call_key(kind: FnKind, name: Seq<char>, args: Seq<Dynamic>) -> FnKeyView {
    FnKeyView { kind, name, params: type_tags(values(args)) }
}

/// What a call through a table may do: where no function is registered under
/// the name and the types of the arguments, it fails and leaves the arguments
/// alone; else it is that function's call.
pub open spec fn dispatches(
    table: Map<FnKeyView, NativeFn>,
    kind: FnKind,
    name: Seq<char>,
    args: Vec<Dynamic>,
    out: Vec<Dynamic>,
    res: Result<Dynamic, EvalError>,
) -> bool {
    if table.contains_key(call_key(kind, name, args@)) {
        table[call_key(kind, name, args@)].effect(args, out, res)
    } else {
        res == Err::<Dynamic, EvalError>(EvalError::FunctionNotFound) && out == args
    }
}

impl FnKey {
    /// A key from its parts.
    pub fn new(kind: FnKind, name: &str, params: Vec<String>) -> (key: FnKey)
        ensures
            key@ == (FnKeyView {
                kind,
                name: name@,
                params: Seq::new(params@.len(), |i: int| params@[i]@),
            }),
    {
        FnKey { kind, name: name.to_owned(), params }
    }

    /// The key under which a call with these arguments is looked up.
    pub fn for_call(kind: FnKind, name: &str, args: &Vec<Dynamic>) -> (key: FnKey)
        ensures
            key@ == call_key(kind, name@, args@),
    {
        let mut params: Vec<String> = Vec::new();
        let mut i: usize = 0;
        while i < args.len()
            invariant
                i <= args.len(),
                params@.len() == i,
                forall|j: int| 0 <= j < i ==> params@[j]@ == args@[j]@.type_tag(),
            decreases args.len() - i,
        {
            params.push(args[i].type_tag());
            i = i + 1;
        }
        let key = FnKey { kind, name: name.to_owned(), params };
        assert(key@.params =~= type_tags(values(args@)));
        key
    }

    /// Whether two keys are the same key.
    pub fn same(&self, other: &FnKey) -> (b: bool)
        ensures
            b == (self@ == other@),
    {
        if self.kind != other.kind {
            return false;
        }
        if self.name != other.name {
            return false;
        }
        if self.params.len() != other.params.len() {
            assert(self@.params.len() != other@.params.len());
            return false;
        }
        let mut i: usize = 0;
        while i < self.params.len()
            invariant
                i <= self.params.len(),
                self.params.len() == other.params.len(),
                forall|j: int| 0 <= j < i ==> self.params@[j]@ == other.params@[j]@,
            decreases self.params.len() - i,
        {
            if self.params[i] != other.params[i] {
                assert(self@.params[i as int] != other@.params[i as int]);
                return false;
            }
            i = i + 1;
        }
        assert(self@.params =~= other@.params);
        true
    }
}

/// A function together with the key to register it under.
pub struct Registration {
    pub key: FnKey,
    pub func: NativeFn,
}

impl View for Registration {
    type V = (FnKeyView, NativeFn);

    open spec fn view(&self) -> (FnKeyView, NativeFn) {
        (self.key@, self.func)
    }
}

/// The contents of a list of registrations.
pub open spec fn registrations(items: Seq<Registration>) -> Seq<(FnKeyView, NativeFn)> {
    Seq::new(items.len(), |i: int| items[i]@)
}

/// The keys of a list of registrations.
pub open spec fn keys_of(members: Seq<(FnKeyView, NativeFn)>) -> Seq<FnKeyView> {
    Seq::new(members.len(), |i: int| members[i].0)
}

/// A function table after the registration of `members`, first to last: a
/// later member replaces an earlier one with the same key, and whatever the
/// table held under that key.
pub open spec fn install(
    table: Map<FnKeyView, NativeFn>,
    members: Seq<(FnKeyView, NativeFn)>,
) -> Map<FnKeyView, NativeFn>
    decreases members.len(),
{
    if members.len() == 0 {
        table
    } else {
        install(table, members.drop_last()).insert(members.last().0, members.last().1)
    }
}

/// The last registration under a key wins: a member that no later member
/// shares its key with is what the table holds under that key.
pub proof fn lemma_install_last(
    table: Map<FnKeyView, NativeFn>,
    members: Seq<(FnKeyView, NativeFn)>,
    i: int,
)
    requires
        0 <= i < members.len(),
        forall|j: int| i < j < members.len() ==> members[j].0 != members[i].0,
    ensures
        install(table, members).contains_key(members[i].0),
        install(table, members)[members[i].0] == members[i].1,
    decreases members.len(),
{
    if i < members.len() - 1 {
        let front = members.drop_last();
        assert(front[i] == members[i]);
        assert forall|j: int| i < j < front.len() implies front[j].0 != front[i].0 by {
            assert(front[j] == members[j]);
        }
        lemma_install_last(table, front, i);
    }
}

/// Two tables hold the same under every key outside `keys`.
pub open spec fn agree_outside(
    a: Map<FnKeyView, NativeFn>,
    b: Map<FnKeyView, NativeFn>,
    keys: Set<FnKeyView>,
) -> bool {
    forall|k: FnKeyView|
        !keys.contains(k) ==> (a.contains_key(k) <==> b.contains_key(k)) && (a.contains_key(k)
            ==> a[k] == b[k])
}

/// Registrations touch no key but their own.
pub proof fn lemma_install_frame(
    table: Map<FnKeyView, NativeFn>,
    members: Seq<(FnKeyView, NativeFn)>,
)
    ensures
        agree_outside(table, install(table, members), keys_of(members).to_set()),
        forall|i: int|
            0 <= i < members.len() ==> install(table, members).contains_key(
                #[trigger] members[i].0,
            ),
    decreases members.len(),
{
    if members.len() > 0 {
        let front = members.drop_last();
        lemma_install_frame(table, front);
        assert forall|k: FnKeyView| keys_of(front).to_set().contains(k) implies keys_of(
            members,
        ).to_set().contains(k) by {
            let i = choose|i: int| 0 <= i < front.len() && keys_of(front)[i] == k;
            assert(keys_of(members)[i] == k);
        }
        assert(keys_of(members)[members.len() - 1] == members.last().0);
        assert forall|i: int| 0 <= i < members.len() implies install(
            table,
            members,
        ).contains_key(#[trigger] members[i].0) by {
            if i < front.len() {
                assert(front[i] == members[i]);
            }
        }
    }
}

/// Registering the same members over two tables that differ only under
/// `keys` leaves them differing only under those of `keys` that the members
/// do not register.
pub proof fn lemma_install_overrides(
    a: Map<FnKeyView, NativeFn>,
    b: Map<FnKeyView, NativeFn>,
    keys: Set<FnKeyView>,
    members: Seq<(FnKeyView, NativeFn)>,
)
    requires
        agree_outside(a, b, keys),
    ensures
        agree_outside(
            install(a, members),
            install(b, members),
            keys.difference(keys_of(members).to_set()),
        ),
    decreases members.len(),
{
    if members.len() > 0 {
        let front = members.drop_last();
        lemma_install_overrides(a, b, keys, front);
        assert(keys_of(members)[members.len() - 1] == members.last().0);
        assert forall|k: FnKeyView|
            !keys.difference(keys_of(members).to_set()).contains(k) && k
                != members.last().0 implies !keys.difference(keys_of(front).to_set()).contains(
            k,
        ) by {
            if keys.contains(k) {
                let i = choose|i: int| 0 <= i < members.len() && keys_of(members)[i] == k;
                assert(keys_of(front)[i] == k);
            }
        }
    }
}

/// Registering a list of members twice is registering it once: where the
/// second run registers under every key of the first, the table after both
/// is the table that the second run alone makes of the table before.
pub proof fn lemma_install_twice(
    table: Map<FnKeyView, NativeFn>,
    first: Seq<(FnKeyView, NativeFn)>,
    second: Seq<(FnKeyView, NativeFn)>,
)
    requires
        keys_of(first).to_set().subset_of(keys_of(second).to_set()),
    ensures
        install(install(table, first), second) == install(table, second),
{
    let once = install(table, first);
    let touched = keys_of(first).to_set();
    lemma_install_frame(table, first);
    lemma_install_overrides(table, once, touched, second);
    let left = touched.difference(keys_of(second).to_set());
    let a = install(table, second);
    let b = install(once, second);
    assert forall|k: FnKeyView| #[trigger] a.dom().contains(k) == b.dom().contains(k) by {
        assert(!left.contains(k));
    }
    assert forall|k: FnKeyView| a.dom().contains(k) implies #[trigger] a[k] == b[k] by {
        assert(!left.contains(k));
    }
    assert(b =~= a);
}

/// One entry of a function table.
struct Entry {
    key: FnKey,
    func: NativeFn,
}

/// A function table.
pub struct Module {
    entries: Vec<Entry>,
}

impl View for Module {
    type V = Map<FnKeyView, NativeFn>;

    /// The function registered under each key.
    closed spec fn view(&self) -> Map<FnKeyView, NativeFn> {
        Map::new(
            |k: FnKeyView| self.holds(k),
            |k: FnKeyView| self.entries@[self.position(k)].func,
        )
    }
}

impl Module {
    /// No key occurs twice.
    #[verifier::type_invariant]
    spec fn keys_distinct(&self) -> bool {
        forall|i: int, j: int|
            0 <= i < self.entries@.len() && 0 <= j < self.entries@.len()
                && self.entries@[i].key@ == self.entries@[j].key@ ==> i == j
    }

    /// Whether some entry has the key `k`.
    spec fn holds(&self, k: FnKeyView) -> bool {
        exists|i: int| 0 <= i < self.entries@.len() && self.entries@[i].key@ == k
    }

    /// Where the entry with the key `k` stands.
    spec fn position(&self, k: FnKeyView) -> int {
        choose|i: int| 0 <= i < self.entries@.len() && self.entries@[i].key@ == k
    }

    /// An empty table.
    pub fn new() -> (m: Module)
        ensures
            m@ == Map::<FnKeyView, NativeFn>::empty(),
    {
        let m = Module { entries: Vec::new() };
        assert(m@ =~= Map::<FnKeyView, NativeFn>::empty());
        m
    }

    /// Where the entry with this key stands, if there is one.
    fn find(&self, key: &FnKey) -> (r: Option<usize>)
        ensures
            match r {
                Some(i) => i < self.entries@.len() && self.entries@[i as int].key@ == key@,
                None => !self.holds(key@),
            },
    {
        let mut i: usize = 0;
        while i < self.entries.len()
            invariant
                i <= self.entries.len(),
                forall|j: int| 0 <= j < i ==> self.entries@[j].key@ != key@,
            decreases self.entries.len() - i,
        {
            if self.entries[i].key.same(key) {
                return Some(i);
            }
            i = i + 1;
        }
        None
    }

    /// Whether a function is registered under `key`.
    pub fn contains(&self, key: &FnKey) -> (b: bool)
        ensures
            b == self@.contains_key(key@),
    {
        self.find(key).is_some()
    }

    /// The function registered under `key`, if any.
    pub fn get(&self, key: &FnKey) -> (r: Option<&NativeFn>)
        ensures
            match r {
                Some(f) => self@.contains_key(key@) && *f == self@[key@],
                None => !self@.contains_key(key@),
            },
    {
        proof {
            use_type_invariant(self);
        }
        match self.find(key) {
            Some(i) => Some(&self.entries[i].func),
            None => None,
        }
    }

    /// Registers `func` under `key`. What was registered under the same key
    /// before is replaced; every other entry stays.
    pub fn set(&mut self, key: FnKey, func: NativeFn)
        ensures
            final(self)@ == old(self)@.insert(key@, func),
    {
        proof {
            use_type_invariant(&*self);
        }
        let ghost before = *self;
        let found = self.find(&key);
        let ghost at = match found {
            Some(i) => i as int,
            None => before.entries@.len() as int,
        };
        let mut entries: Vec<Entry> = Vec::new();
        std::mem::swap(&mut self.entries, &mut entries);
        match found {
            Some(i) => {
                entries.set(i, Entry { key, func });
            },
            None => {
                entries.push(Entry { key, func });
            },
        }
        assert forall|i: int, j: int|
            0 <= i < entries@.len() && 0 <= j < entries@.len() && entries@[i].key@
                == entries@[j].key@ implies i == j by {
            if i != at && j != at {
                assert(before.entries@[i].key@ == before.entries@[j].key@);
            }
        }
        self.entries = entries;
        assert(self.entries@[at].key@ == key@);
        assert forall|k: FnKeyView| before.holds(k) implies self.holds(k) by {
            assert(self.entries@[before.position(k)].key@ == k);
        }
        assert forall|k: FnKeyView| self.holds(k) && k != key@ implies before.holds(k)
            && self.entries@[self.position(k)].func == before.entries@[before.position(k)].func by {
            assert(before.entries@[self.position(k)].key@ == k);
        }
        assert(self@ =~= before@.insert(key@, func));
    }

    /// Registers every item, first to last.
    pub fn install(&mut self, items: Vec<Registration>)
        ensures
            final(self)@ == install(old(self)@, registrations(items@)),
    {
        let ghost all = registrations(items@);
        for item in it: items.into_iter()
            invariant
                it.seq() == items@,
                all == registrations(items@),
                self@ == install(old(self)@, all.take(it.index() as int)),
        {
            let ghost done = it.index() as int;
            let Registration { key, func } = item;
            proof {
                assert(all.take(done + 1).drop_last() =~= all.take(done));
                assert(all.take(done + 1).last() == all[done]);
            }
            self.set(key, func);
        }
        proof {
            assert(all.take(all.len() as int) =~= all);
        }
    }

    /// Registers a native function without parameters under `name` and the
    /// types of its parameters, in place of what was registered there.
    pub fn set_fn_0<R, F>(&mut self, name: &str, f: F) where
        R: Variant + 'static,
        F: Fn() -> Result<R, EvalError> + Send + Sync + 'static,

        requires
            call_requires(f, ()),
        ensures
            ({
                let key = function_key(name@, signature_0());
                &&& final(self)@.contains_key(key)
                &&& final(self)@ == old(self)@.insert(key, final(self)@[key])
                &&& forall|args: Vec<Dynamic>, out: Vec<Dynamic>, res: Result<Dynamic, EvalError>|
                    #[trigger] final(self)@[key].effect(args, out, res)
                        ==> match check_0(args@) {
                        Some(e) => res == Err::<Dynamic, EvalError>(e) && out == args,
                        None => exists|r: Result<R, EvalError>|
                            call_ensures(f, (), r)
                            && #[trigger] returned_or_failed(r, res)
                            && out == args,
                    }
            }),
    {
        let func = NativeFn::from_result_fn_0(f);
        let mut params: Vec<String> = Vec::new();
        let key = FnKey::new(FnKind::Function, name, params);
        assert(key@.params =~= signature_0());
        self.set(key, func);
    }

    /// Registers a native function of one parameter under `name` and the types
    /// of its parameters, in place of what was registered there.
    pub fn set_fn_1<T1, R, F>(&mut self, name: &str, f: F) where
        T1: Variant + 'static,
        R: Variant + 'static,
        F: Fn(T1) -> Result<R, EvalError> + Send + Sync + 'static,

        requires
            forall|first: T1| call_requires(f, (first,)),
        ensures
            ({
                let key = function_key(name@, signature_1::<T1>());
                &&& final(self)@.contains_key(key)
                &&& final(self)@ == old(self)@.insert(key, final(self)@[key])
                &&& forall|args: Vec<Dynamic>, out: Vec<Dynamic>, res: Result<Dynamic, EvalError>|
                    #[trigger] final(self)@[key].effect(args, out, res)
                        ==> match check_1::<T1>(args@) {
                        Some(e) => res == Err::<Dynamic, EvalError>(e) && out == args,
                        None => exists|first: T1, r: Result<R, EvalError>|
                            call_ensures(f, (first,), r)
                            && passed(first, args@, 0)
                            && returned_or_failed(r, res)
                            && out == args,
                    }
            }),
    {
        let func = NativeFn::from_result_fn_1(f);
        let mut params: Vec<String> = Vec::new();
        params.push(T1::type_tag());
        let key = FnKey::new(FnKind::Function, name, params);
        assert(key@.params =~= signature_1::<T1>());
        self.set(key, func);
    }

    /// Registers a native function that takes a receiver under `name` and the
    /// types of its parameters, in place of what was registered there.
    pub fn set_fn_1_mut<T1, R, F>(&mut self, name: &str, f: F) where
        T1: Variant + 'static,
        R: Variant + 'static,
        F: Fn(&mut T1) -> Result<R, EvalError> + Send + Sync + 'static,

        requires
            forall|x: &mut T1| call_requires(f, (x,)),
        ensures
            ({
                let key = function_key(name@, signature_1::<T1>());
                &&& final(self)@.contains_key(key)
                &&& final(self)@ == old(self)@.insert(key, final(self)@[key])
                &&& forall|args: Vec<Dynamic>, out: Vec<Dynamic>, res: Result<Dynamic, EvalError>|
                    #[trigger] final(self)@[key].effect(args, out, res)
                        ==> match check_1::<T1>(args@) {
                        Some(e) => res == Err::<Dynamic, EvalError>(e) && out == args,
                        None => exists|x: &mut T1, r: Result<R, EvalError>|
                            call_ensures(f, (x,), r)
                            && receiver_passed(*x, *final(x), args@, out@)
                            && returned_or_failed(r, res),
                    }
            }),
    {
        let func = NativeFn::from_result_method_0(f);
        let mut params: Vec<String> = Vec::new();
        params.push(T1::type_tag());
        let key = FnKey::new(FnKind::Function, name, params);
        assert(key@.params =~= signature_1::<T1>());
        self.set(key, func);
    }

    /// Registers a native function of two parameters under `name` and the types
    /// of its parameters, in place of what was registered there.
    pub fn set_fn_2<T1, T2, R, F>(&mut self, name: &str, f: F) where
        T1: Variant + 'static,
        T2: Variant + 'static,
        R: Variant + 'static,
        F: Fn(T1, T2) -> Result<R, EvalError> + Send + Sync + 'static,

        requires
            forall|first: T1, second: T2| call_requires(f, (first, second)),
        ensures
            ({
                let key = function_key(name@, signature_2::<T1, T2>());
                &&& final(self)@.contains_key(key)
                &&& final(self)@ == old(self)@.insert(key, final(self)@[key])
                &&& forall|args: Vec<Dynamic>, out: Vec<Dynamic>, res: Result<Dynamic, EvalError>|
                    #[trigger] final(self)@[key].effect(args, out, res)
                        ==> match check_2::<T1, T2>(args@) {
                        Some(e) => res == Err::<Dynamic, EvalError>(e) && out == args,
                        None => exists|first: T1, second: T2, r: Result<R, EvalError>|
                            call_ensures(f, (first, second), r)
                            && passed(first, args@, 0)
                            && passed(second, args@, 1)
                            && returned_or_failed(r, res)
                            && out == args,
                    }
            }),
    {
        let func = NativeFn::from_result_fn_2(f);
        let mut params: Vec<String> = Vec::new();
        params.push(T1::type_tag());
        params.push(T2::type_tag());
        let key = FnKey::new(FnKind::Function, name, params);
        assert(key@.params =~= signature_2::<T1, T2>());
        self.set(key, func);
    }

    /// Registers a native function that takes a receiver and one more argument
    /// under `name` and the types of its parameters, in place of what was
    /// registered there.
    pub fn set_fn_2_mut<T1, T2, R, F>(&mut self, name: &str, f: F) where
        T1: Variant + 'static,
        T2: Variant + 'static,
        R: Variant + 'static,
        F: Fn(&mut T1, T2) -> Result<R, EvalError> + Send + Sync + 'static,

        requires
            forall|x: &mut T1, second: T2| call_requires(f, (x, second)),
        ensures
            ({
                let key = function_key(name@, signature_2::<T1, T2>());
                &&& final(self)@.contains_key(key)
                &&& final(self)@ == old(self)@.insert(key, final(self)@[key])
                &&& forall|args: Vec<Dynamic>, out: Vec<Dynamic>, res: Result<Dynamic, EvalError>|
                    #[trigger] final(self)@[key].effect(args, out, res)
                        ==> match check_2::<T1, T2>(args@) {
                        Some(e) => res == Err::<Dynamic, EvalError>(e) && out == args,
                        None => exists|x: &mut T1, second: T2, r: Result<R, EvalError>|
                            call_ensures(f, (x, second), r)
                            && receiver_passed(*x, *final(x), args@, out@)
                            && passed(second, args@, 1)
                            && returned_or_failed(r, res),
                    }
            }),
    {
        let func = NativeFn::from_result_method_1(f);
        let mut params: Vec<String> = Vec::new();
        params.push(T1::type_tag());
        params.push(T2::type_tag());
        let key = FnKey::new(FnKind::Function, name, params);
        assert(key@.params =~= signature_2::<T1, T2>());
        self.set(key, func);
    }

    /// Calls the function registered under `name` for the types of `args`.
    ///
    /// Where there is none the call fails and the arguments stay as they
    /// were; else the call is the function's own.
    pub fn call(&self, name: &str, args: &mut Vec<Dynamic>) -> (res: Result<Dynamic, EvalError>)
        ensures
            dispatches(self@, FnKind::Function, name@, *old(args), *final(args), res),
            final(args)@.len() == old(args)@.len(),
    {
        self.call_as(FnKind::Function, name, args)
    }

    /// Calls the function that is reached through `kind` under `name` for the
    /// types of `args`.
    pub fn call_as(&self, kind: FnKind, name: &str, args: &mut Vec<Dynamic>) -> (res: Result<
        Dynamic,
        EvalError,
    >)
        ensures
            dispatches(self@, kind, name@, *old(args), *final(args), res),
            final(args)@.len() == old(args)@.len(),
    {
        let key = FnKey::for_call(kind, name, args);
        match self.get(&key) {
            Some(f) => f.call(args),
            None => Err(EvalError::FunctionNotFound),
        }
    }
}

} // verus!
