//! Registration of one native type with its members.
//!
//! A builder collects, for one native type, an optional display name and any
//! number of methods, property accessors and indexers. Nothing reaches the
//! engine while the builder collects. [`Engine::build_type`] finalizes it: it
//! registers the type under the name given last, or under its default name,
//! and then the members in the order in which they were given.
use crate::dynamic::Dynamic;
use crate::engine::{Engine, EngineView};
use crate::error::EvalError;
use crate::module::{
    function_key, getter_key, index_getter_key, index_setter_key, install, registrations,
    setter_key, FnKey, FnKeyView, FnKind, Registration,
};
use crate::native::{
    check_1, check_2, check_3, passed, receiver_passed, returned, returned_or_failed,
    signature_1, signature_2, signature_3, NativeFn,
};
use crate::variant::Variant;
use core::marker::PhantomData;
use vstd::prelude::*;

verus! {

/// A native type that registers itself, with its members, through a builder.
pub trait CustomType: Variant + Clone {
    /// What `build` leaves in a builder that was empty: the display name, if
    /// any, and the members. A type that does not say promises nothing.
    open spec fn describes(name: Option<Seq<char>>, members: Seq<(FnKeyView, NativeFn)>) -> bool {
        true
    }

    /// Gives the builder the type's name and members. The builder stays bound
    /// to the engine it was made for.
    fn build(builder: &mut TypeBuilder<'_, Self>)
        requires
            old(builder).name() is None,
            old(builder).members().len() == 0,
        ensures
            final(builder).target() == old(builder).target(),
            Self::describes(final(builder).name(), final(builder).members()),
    ;
}

/// Collects the name and the members of the native type `T`.
pub struct TypeBuilder<'a, T: Variant + Clone> {
    engine: &'a mut Engine,
    name: Option<String>,
    members: Vec<Registration>,
    marker: PhantomData<T>,
}

/// The name that a builder holds after one more `with_name`: the new one,
/// whatever it held before.
pub open spec fn renamed(held: Option<Seq<char>>, name: Seq<char>) -> Option<Seq<char>> {
    Some(name)
}

/// The name that a builder holds after a run of `with_name` calls, starting
/// from a builder without a name.
pub open spec fn name_after(names: Seq<Seq<char>>) -> Option<Seq<char>>
    decreases names.len(),
{
    if names.len() == 0 {
        None
    } else {
        renamed(name_after(names.drop_last()), names.last())
    }
}

/// An engine after a builder for the type with tag `tag` was finalized: the
/// type is registered under `name`, or under its tag where there is no name,
/// and the members are registered in order.
pub open spec fn finalized(
    engine: EngineView,
    tag: Seq<char>,
    name: Option<Seq<char>>,
    members: Seq<(FnKeyView, NativeFn)>,
) -> EngineView {
    EngineView {
        functions: install(engine.functions, members),
        type_names: engine.type_names.insert(
            tag,
            match name {
                Some(n) => n,
                None => tag,
            },
        ),
    }
}

/// A type is registered under the name given last, however many names were
/// given before it, and under its default name, its tag, where none was
/// given. The members do not matter to this.
pub proof fn lemma_last_name_wins(
    engine: EngineView,
    tag: Seq<char>,
    names: Seq<Seq<char>>,
    members: Seq<(FnKeyView, NativeFn)>,
)
    ensures
        finalized(engine, tag, name_after(names), members).type_names.contains_key(tag),
        finalized(engine, tag, name_after(names), members).display_name(tag) == if names.len()
            == 0 {
            tag
        } else {
            names.last()
        },
{
}

/// Finalizing registers the type even where no member was given, and then
/// changes no function.
pub proof fn lemma_bare_type_is_registered(
    engine: EngineView,
    tag: Seq<char>,
    name: Option<Seq<char>>,
)
    ensures
        finalized(engine, tag, name, Seq::empty()).type_names.contains_key(tag),
        finalized(engine, tag, name, Seq::empty()).functions == engine.functions,
{
}

impl<'a, T: Variant + Clone> TypeBuilder<'a, T> {
    /// The display name given last, if any.
    pub closed spec fn name(&self) -> Option<Seq<char>> {
        match self.name {
            Some(n) => Some(n@),
            None => None,
        }
    }

    /// The members given so far, in order, each with its key.
    pub closed spec fn members(&self) -> Seq<(FnKeyView, NativeFn)> {
        registrations(self.members@)
    }

    /// The engine that the builder is bound to.
    pub closed spec fn target(&self) -> &'a mut Engine {
        self.engine
    }

    /// A builder bound to `engine`, without a name and without members.
    pub(crate) fn new(engine: &'a mut Engine) -> (b: Self)
        ensures
            b.name() is None,
            b.members() == Seq::<(FnKeyView, NativeFn)>::empty(),
            *b.target() == *old(engine),
            *final(b.target()) == *final(engine),
    {
        let b = TypeBuilder { engine, name: None, members: Vec::new(), marker: PhantomData };
        assert(b.members() =~= Seq::<(FnKeyView, NativeFn)>::empty());
        b
    }

    /// Registers the type under the name held, or under its default name
    /// where none is held, and then the members, first to last.
    pub(crate) fn finish(self)
        ensures
            final(self.target())@ == finalized(
                self.target()@,
                T::spec_type_tag(),
                self.name(),
                self.members(),
            ),
    {
        let TypeBuilder { engine, name, members, marker } = self;
        match name {
            Some(n) => {
                engine.register_type_with_name::<T>(n.as_str());
            },
            None => {
                engine.register_type::<T>();
            },
        }
        engine.register_all(members);
    }

    /// Adds one member.
    fn push(&mut self, key: FnKey, func: NativeFn)
        ensures
            final(self).name() == old(self).name(),
            final(self).target() == old(self).target(),
            final(self).members() == old(self).members().push((key@, func)),
    {
        self.members.push(Registration { key, func });
        assert(self.members() =~= old(self).members().push((key@, func)));
    }

    /// Sets the display name of the type. The name given last is the one the
    /// type is registered under.
    pub fn with_name(&mut self, name: &str) -> (r: &mut Self)
        ensures
            r.name() == renamed(old(self).name(), name@),
            r.members() == old(self).members(),
            r.target() == old(self).target(),
            *final(self) == *final(r),
    {
        self.name = Some(name.to_owned());
        self
    }

    /// Adds a function, called by `name`, with the signature of `method`.
    pub fn with_fn(&mut self, name: &str, method: NativeFn) -> (r: &mut Self)
        ensures
            r.name() == old(self).name(),
            r.target() == old(self).target(),
            r.members() == old(self).members().push(
                (function_key(name@, method.params()), method),
            ),
            *final(self) == *final(r),
    {
        let key = FnKey::new(FnKind::Function, name, clone_tags(method.signature()));
        assert(key@.params =~= method.params());
        self.push(key, method);
        self
    }

    /// Adds a function that may fail, called by `name`, with the signature of
    /// `method`. Its failures reach the caller as the function reported them.
    pub fn with_result_fn(&mut self, name: &str, method: NativeFn) -> (r: &mut Self)
        ensures
            r.name() == old(self).name(),
            r.target() == old(self).target(),
            r.members() == old(self).members().push(
                (function_key(name@, method.params()), method),
            ),
            *final(self) == *final(r),
    {
        self.with_fn(name, method)
    }

    /// Adds a getter: scripts read property `name` of a value of the type
    /// through it.
    pub fn with_get<V, F>(&mut self, name: &str, get_fn: F) -> (r: &mut Self) where
        V: Variant + Clone + 'static,
        T: 'static,
        F: Fn(&mut T) -> V + Send + Sync + 'static,

        requires
            forall|x: &mut T| call_requires(get_fn, (x,)),
        ensures
            r.name() == old(self).name(),
            r.target() == old(self).target(),
            r.members().len() == old(self).members().len() + 1,
            r.members().drop_last() == old(self).members(),
            r.members().last().0 == getter_key(name@, signature_1::<T>()),
            forall|args: Vec<Dynamic>, out: Vec<Dynamic>, res: Result<Dynamic, EvalError>|
                #[trigger] r.members().last().1.effect(args, out, res)
                    ==> match check_1::<T>(args@) {
                    Some(e) => res == Err::<Dynamic, EvalError>(e) && out == args,
                    None => exists|x: &mut T, v: V|
                        call_ensures(get_fn, (x,), v)
                            && receiver_passed(*x, *final(x), args@, out@)
                            && returned(v, res),
                },
            *final(self) == *final(r),
    {
        let func = NativeFn::from_method_0(get_fn);
        let mut params: Vec<String> = Vec::new();
        params.push(T::type_tag());
        let key = FnKey::new(FnKind::Getter, name, params);
        assert(key@.params =~= signature_1::<T>());
        self.push(key, func);
        assert(self.members().drop_last() =~= old(self).members());
        self
    }

    /// Adds a getter that may fail.
    pub fn with_get_result<V, F>(&mut self, name: &str, get_fn: F) -> (r: &mut Self) where
        V: Variant + Clone + 'static,
        T: 'static,
        F: Fn(&mut T) -> Result<V, EvalError> + Send + Sync + 'static,

        requires
            forall|x: &mut T| call_requires(get_fn, (x,)),
        ensures
            r.name() == old(self).name(),
            r.target() == old(self).target(),
            r.members().len() == old(self).members().len() + 1,
            r.members().drop_last() == old(self).members(),
            r.members().last().0 == getter_key(name@, signature_1::<T>()),
            forall|args: Vec<Dynamic>, out: Vec<Dynamic>, res: Result<Dynamic, EvalError>|
                #[trigger] r.members().last().1.effect(args, out, res)
                    ==> match check_1::<T>(args@) {
                    Some(e) => res == Err::<Dynamic, EvalError>(e) && out == args,
                    None => exists|x: &mut T, v: Result<V, EvalError>|
                        call_ensures(get_fn, (x,), v)
                            && receiver_passed(*x, *final(x), args@, out@)
                            && returned_or_failed(v, res),
                },
            *final(self) == *final(r),
    {
        let func = NativeFn::from_result_method_0(get_fn);
        let mut params: Vec<String> = Vec::new();
        params.push(T::type_tag());
        let key = FnKey::new(FnKind::Getter, name, params);
        assert(key@.params =~= signature_1::<T>());
        self.push(key, func);
        assert(self.members().drop_last() =~= old(self).members());
        self
    }

    /// Adds a setter: scripts write property `name` of a value of the type
    /// through it.
    pub fn with_set<V, F>(&mut self, name: &str, set_fn: F) -> (r: &mut Self) where
        V: Variant + Clone + 'static,
        T: 'static,
        F: Fn(&mut T, V) + Send + Sync + 'static,

        requires
            forall|x: &mut T, second: V| call_requires(set_fn, (x, second)),
        ensures
            r.name() == old(self).name(),
            r.target() == old(self).target(),
            r.members().len() == old(self).members().len() + 1,
            r.members().drop_last() == old(self).members(),
            r.members().last().0 == setter_key(name@, signature_2::<T, V>()),
            forall|args: Vec<Dynamic>, out: Vec<Dynamic>, res: Result<Dynamic, EvalError>|
                #[trigger] r.members().last().1.effect(args, out, res)
                    ==> match check_2::<T, V>(args@) {
                    Some(e) => res == Err::<Dynamic, EvalError>(e) && out == args,
                    None => exists|x: &mut T, second: V, v: ()|
                        call_ensures(set_fn, (x, second), v)
                            && receiver_passed(*x, *final(x), args@, out@)
                            && passed(second, args@, 1)
                            && returned(v, res),
                },
            *final(self) == *final(r),
    {
        let func = NativeFn::from_method_1(set_fn);
        let mut params: Vec<String> = Vec::new();
        params.push(T::type_tag());
        params.push(V::type_tag());
        let key = FnKey::new(FnKind::Setter, name, params);
        assert(key@.params =~= signature_2::<T, V>());
        self.push(key, func);
        assert(self.members().drop_last() =~= old(self).members());
        self
    }

    /// Adds a setter that may fail.
    pub fn with_set_result<V, F>(&mut self, name: &str, set_fn: F) -> (r: &mut Self) where
        V: Variant + Clone + 'static,
        T: 'static,
        F: Fn(&mut T, V) -> Result<(), EvalError> + Send + Sync + 'static,

        requires
            forall|x: &mut T, second: V| call_requires(set_fn, (x, second)),
        ensures
            r.name() == old(self).name(),
            r.target() == old(self).target(),
            r.members().len() == old(self).members().len() + 1,
            r.members().drop_last() == old(self).members(),
            r.members().last().0 == setter_key(name@, signature_2::<T, V>()),
            forall|args: Vec<Dynamic>, out: Vec<Dynamic>, res: Result<Dynamic, EvalError>|
                #[trigger] r.members().last().1.effect(args, out, res)
                    ==> match check_2::<T, V>(args@) {
                    Some(e) => res == Err::<Dynamic, EvalError>(e) && out == args,
                    None => exists|x: &mut T, second: V, v: Result<(), EvalError>|
                        call_ensures(set_fn, (x, second), v)
                            && receiver_passed(*x, *final(x), args@, out@)
                            && passed(second, args@, 1)
                            && returned_or_failed(v, res),
                },
            *final(self) == *final(r),
    {
        let func = NativeFn::from_result_method_1(set_fn);
        let mut params: Vec<String> = Vec::new();
        params.push(T::type_tag());
        params.push(V::type_tag());
        let key = FnKey::new(FnKind::Setter, name, params);
        assert(key@.params =~= signature_2::<T, V>());
        self.push(key, func);
        assert(self.members().drop_last() =~= old(self).members());
        self
    }

    /// Adds a getter and a setter for property `name`: the same as
    /// `with_get` followed by `with_set`.
    pub fn with_get_set<V, G, S>(
        &mut self,
        name: &str,
        get_fn: G,
        set_fn: S,
    ) -> (r: &mut Self) where
        V: Variant + Clone + 'static,
        T: 'static,
        G: Fn(&mut T) -> V + Send + Sync + 'static,
        S: Fn(&mut T, V) + Send + Sync + 'static,

        requires
            forall|x: &mut T| call_requires(get_fn, (x,)),
            forall|x: &mut T, second: V| call_requires(set_fn, (x, second)),
        ensures
            r.name() == old(self).name(),
            r.target() == old(self).target(),
            r.members().len() == old(self).members().len() + 2,
            r.members().take(old(self).members().len() as int) == old(self).members(),
            r.members()[r.members().len() - 2].0 == getter_key(name@, signature_1::<T>()),
            forall|args: Vec<Dynamic>, out: Vec<Dynamic>, res: Result<Dynamic, EvalError>|
                #[trigger] r.members()[r.members().len() - 2].1.effect(args, out, res)
                    ==> match check_1::<T>(args@) {
                    Some(e) => res == Err::<Dynamic, EvalError>(e) && out == args,
                    None => exists|x: &mut T, v: V|
                        call_ensures(get_fn, (x,), v)
                            && receiver_passed(*x, *final(x), args@, out@)
                            && returned(v, res),
                },
            r.members().last().0 == setter_key(name@, signature_2::<T, V>()),
            forall|args: Vec<Dynamic>, out: Vec<Dynamic>, res: Result<Dynamic, EvalError>|
                #[trigger] r.members().last().1.effect(args, out, res)
                    ==> match check_2::<T, V>(args@) {
                    Some(e) => res == Err::<Dynamic, EvalError>(e) && out == args,
                    None => exists|x: &mut T, second: V, v: ()|
                        call_ensures(set_fn, (x, second), v)
                            && receiver_passed(*x, *final(x), args@, out@)
                            && passed(second, args@, 1)
                            && returned(v, res),
                },
            *final(self) == *final(r),
    {
        {
            let func = NativeFn::from_method_0(get_fn);
            let mut params: Vec<String> = Vec::new();
            params.push(T::type_tag());
            let key = FnKey::new(FnKind::Getter, name, params);
            assert(key@.params =~= signature_1::<T>());
            self.push(key, func);
        }
        {
            let func = NativeFn::from_method_1(set_fn);
            let mut params: Vec<String> = Vec::new();
            params.push(T::type_tag());
            params.push(V::type_tag());
            let key = FnKey::new(FnKind::Setter, name, params);
            assert(key@.params =~= signature_2::<T, V>());
            self.push(key, func);
        }
        assert(self.members().take(old(self).members().len() as int) =~= old(self).members());
        self
    }

    /// Adds an index getter: scripts read a value of the type at an index
    /// through it.
    pub fn with_indexer_get<X, V, F>(&mut self, get_fn: F) -> (r: &mut Self) where
        X: Variant + Clone + 'static,
        V: Variant + Clone + 'static,
        T: 'static,
        F: Fn(&mut T, X) -> V + Send + Sync + 'static,

        requires
            forall|x: &mut T, second: X| call_requires(get_fn, (x, second)),
        ensures
            r.name() == old(self).name(),
            r.target() == old(self).target(),
            r.members().len() == old(self).members().len() + 1,
            r.members().drop_last() == old(self).members(),
            r.members().last().0 == index_getter_key(signature_2::<T, X>()),
            forall|args: Vec<Dynamic>, out: Vec<Dynamic>, res: Result<Dynamic, EvalError>|
                #[trigger] r.members().last().1.effect(args, out, res)
                    ==> match check_2::<T, X>(args@) {
                    Some(e) => res == Err::<Dynamic, EvalError>(e) && out == args,
                    None => exists|x: &mut T, second: X, v: V|
                        call_ensures(get_fn, (x, second), v)
                            && receiver_passed(*x, *final(x), args@, out@)
                            && passed(second, args@, 1)
                            && returned(v, res),
                },
            *final(self) == *final(r),
    {
        let func = NativeFn::from_method_1(get_fn);
        let mut params: Vec<String> = Vec::new();
        params.push(T::type_tag());
        params.push(X::type_tag());
        let key = FnKey::new(FnKind::IndexGet, "", params);
        assert(key@.params =~= signature_2::<T, X>());
        assert(key@.name =~= Seq::<char>::empty()) by {
            reveal_strlit("");
        }
        self.push(key, func);
        assert(self.members().drop_last() =~= old(self).members());
        self
    }

    /// Adds an index getter that may fail.
    pub fn with_indexer_get_result<X, V, F>(&mut self, get_fn: F) -> (r: &mut Self) where
        X: Variant + Clone + 'static,
        V: Variant + Clone + 'static,
        T: 'static,
        F: Fn(&mut T, X) -> Result<V, EvalError> + Send + Sync + 'static,

        requires
            forall|x: &mut T, second: X| call_requires(get_fn, (x, second)),
        ensures
            r.name() == old(self).name(),
            r.target() == old(self).target(),
            r.members().len() == old(self).members().len() + 1,
            r.members().drop_last() == old(self).members(),
            r.members().last().0 == index_getter_key(signature_2::<T, X>()),
            forall|args: Vec<Dynamic>, out: Vec<Dynamic>, res: Result<Dynamic, EvalError>|
                #[trigger] r.members().last().1.effect(args, out, res)
                    ==> match check_2::<T, X>(args@) {
                    Some(e) => res == Err::<Dynamic, EvalError>(e) && out == args,
                    None => exists|x: &mut T, second: X, v: Result<V, EvalError>|
                        call_ensures(get_fn, (x, second), v)
                            && receiver_passed(*x, *final(x), args@, out@)
                            && passed(second, args@, 1)
                            && returned_or_failed(v, res),
                },
            *final(self) == *final(r),
    {
        let func = NativeFn::from_result_method_1(get_fn);
        let mut params: Vec<String> = Vec::new();
        params.push(T::type_tag());
        params.push(X::type_tag());
        let key = FnKey::new(FnKind::IndexGet, "", params);
        assert(key@.params =~= signature_2::<T, X>());
        assert(key@.name =~= Seq::<char>::empty()) by {
            reveal_strlit("");
        }
        self.push(key, func);
        assert(self.members().drop_last() =~= old(self).members());
        self
    }

    /// Adds an index setter: scripts write a value of the type at an index
    /// through it.
    pub fn with_indexer_set<X, V, F>(&mut self, set_fn: F) -> (r: &mut Self) where
        X: Variant + Clone + 'static,
        V: Variant + Clone + 'static,
        T: 'static,
        F: Fn(&mut T, X, V) + Send + Sync + 'static,

        requires
            forall|x: &mut T, second: X, third: V| call_requires(set_fn, (x, second, third)),
        ensures
            r.name() == old(self).name(),
            r.target() == old(self).target(),
            r.members().len() == old(self).members().len() + 1,
            r.members().drop_last() == old(self).members(),
            r.members().last().0 == index_setter_key(signature_3::<T, X, V>()),
            forall|args: Vec<Dynamic>, out: Vec<Dynamic>, res: Result<Dynamic, EvalError>|
                #[trigger] r.members().last().1.effect(args, out, res)
                    ==> match check_3::<T, X, V>(args@) {
                    Some(e) => res == Err::<Dynamic, EvalError>(e) && out == args,
                    None => exists|x: &mut T, second: X, third: V, v: ()|
                        call_ensures(set_fn, (x, second, third), v)
                            && receiver_passed(*x, *final(x), args@, out@)
                            && passed(second, args@, 1)
                            && passed(third, args@, 2)
                            && returned(v, res),
                },
            *final(self) == *final(r),
    {
        let func = NativeFn::from_method_2(set_fn);
        let mut params: Vec<String> = Vec::new();
        params.push(T::type_tag());
        params.push(X::type_tag());
        params.push(V::type_tag());
        let key = FnKey::new(FnKind::IndexSet, "", params);
        assert(key@.params =~= signature_3::<T, X, V>());
        assert(key@.name =~= Seq::<char>::empty()) by {
            reveal_strlit("");
        }
        self.push(key, func);
        assert(self.members().drop_last() =~= old(self).members());
        self
    }

    /// Adds an index setter that may fail.
    pub fn with_indexer_set_result<X, V, F>(&mut self, set_fn: F) -> (r: &mut Self) where
        X: Variant + Clone + 'static,
        V: Variant + Clone + 'static,
        T: 'static,
        F: Fn(&mut T, X, V) -> Result<(), EvalError> + Send + Sync + 'static,

        requires
            forall|x: &mut T, second: X, third: V| call_requires(set_fn, (x, second, third)),
        ensures
            r.name() == old(self).name(),
            r.target() == old(self).target(),
            r.members().len() == old(self).members().len() + 1,
            r.members().drop_last() == old(self).members(),
            r.members().last().0 == index_setter_key(signature_3::<T, X, V>()),
            forall|args: Vec<Dynamic>, out: Vec<Dynamic>, res: Result<Dynamic, EvalError>|
                #[trigger] r.members().last().1.effect(args, out, res)
                    ==> match check_3::<T, X, V>(args@) {
                    Some(e) => res == Err::<Dynamic, EvalError>(e) && out == args,
                    None => exists|x: &mut T, second: X, third: V, v: Result<(), EvalError>|
                        call_ensures(set_fn, (x, second, third), v)
                            && receiver_passed(*x, *final(x), args@, out@)
                            && passed(second, args@, 1)
                            && passed(third, args@, 2)
                            && returned_or_failed(v, res),
                },
            *final(self) == *final(r),
    {
        let func = NativeFn::from_result_method_2(set_fn);
        let mut params: Vec<String> = Vec::new();
        params.push(T::type_tag());
        params.push(X::type_tag());
        params.push(V::type_tag());
        let key = FnKey::new(FnKind::IndexSet, "", params);
        assert(key@.params =~= signature_3::<T, X, V>());
        assert(key@.name =~= Seq::<char>::empty()) by {
            reveal_strlit("");
        }
        self.push(key, func);
        assert(self.members().drop_last() =~= old(self).members());
        self
    }

    /// Adds an index getter and an index setter: the same as
    /// `with_indexer_get` followed by `with_indexer_set`.
    pub fn with_indexer_get_set<X, V, G, S>(&mut self, get_fn: G, set_fn: S) -> (r: &mut Self) where
        X: Variant + Clone + 'static,
        V: Variant + Clone + 'static,
        T: 'static,
        G: Fn(&mut T, X) -> V + Send + Sync + 'static,
        S: Fn(&mut T, X, V) + Send + Sync + 'static,

        requires
            forall|x: &mut T, second: X| call_requires(get_fn, (x, second)),
            forall|x: &mut T, second: X, third: V| call_requires(set_fn, (x, second, third)),
        ensures
            r.name() == old(self).name(),
            r.target() == old(self).target(),
            r.members().len() == old(self).members().len() + 2,
            r.members().take(old(self).members().len() as int) == old(self).members(),
            r.members()[r.members().len() - 2].0 == index_getter_key(signature_2::<T, X>()),
            forall|args: Vec<Dynamic>, out: Vec<Dynamic>, res: Result<Dynamic, EvalError>|
                #[trigger] r.members()[r.members().len() - 2].1.effect(args, out, res)
                    ==> match check_2::<T, X>(args@) {
                    Some(e) => res == Err::<Dynamic, EvalError>(e) && out == args,
                    None => exists|x: &mut T, second: X, v: V|
                        call_ensures(get_fn, (x, second), v)
                            && receiver_passed(*x, *final(x), args@, out@)
                            && passed(second, args@, 1)
                            && returned(v, res),
                },
            r.members().last().0 == index_setter_key(signature_3::<T, X, V>()),
            forall|args: Vec<Dynamic>, out: Vec<Dynamic>, res: Result<Dynamic, EvalError>|
                #[trigger] r.members().last().1.effect(args, out, res)
                    ==> match check_3::<T, X, V>(args@) {
                    Some(e) => res == Err::<Dynamic, EvalError>(e) && out == args,
                    None => exists|x: &mut T, second: X, third: V, v: ()|
                        call_ensures(set_fn, (x, second, third), v)
                            && receiver_passed(*x, *final(x), args@, out@)
                            && passed(second, args@, 1)
                            && passed(third, args@, 2)
                            && returned(v, res),
                },
            *final(self) == *final(r),
    {
        {
            let func = NativeFn::from_method_1(get_fn);
            let mut params: Vec<String> = Vec::new();
            params.push(T::type_tag());
            params.push(X::type_tag());
            let key = FnKey::new(FnKind::IndexGet, "", params);
            assert(key@.params =~= signature_2::<T, X>());
            assert(key@.name =~= Seq::<char>::empty()) by {
                reveal_strlit("");
            }
            self.push(key, func);
        }
        {
            let func = NativeFn::from_method_2(set_fn);
            let mut params: Vec<String> = Vec::new();
            params.push(T::type_tag());
            params.push(X::type_tag());
            params.push(V::type_tag());
            let key = FnKey::new(FnKind::IndexSet, "", params);
            assert(key@.params =~= signature_3::<T, X, V>());
            assert(key@.name =~= Seq::<char>::empty()) by {
                reveal_strlit("");
            }
            self.push(key, func);
        }
        assert(self.members().take(old(self).members().len() as int) =~= old(self).members());
        self
    }
}

/// A copy of a list of type tags.
fn clone_tags(tags: &Vec<String>) -> (copy: Vec<String>)
    ensures
        copy@.len() == tags@.len(),
        forall|i: int| 0 <= i < tags@.len() ==> copy@[i]@ == tags@[i]@,
{
    let mut copy: Vec<String> = Vec::new();
    let mut i: usize = 0;
    while i < tags.len()
        invariant
            i <= tags.len(),
            copy@.len() == i,
            forall|j: int| 0 <= j < i ==> copy@[j]@ == tags@[j]@,
        decreases tags.len() - i,
    {
        copy.push(tags[i].clone());
        i = i + 1;
    }
    copy
}

impl Engine {
    /// Registers the native type `T` with the name and the members that its
    /// `build` gives.
    ///
    /// The type is registered whatever `build` does, also where it gives no
    /// member and no name, and exactly once. The engine then is the engine
    /// before, finalized with a name and members that `T` describes.
    pub fn build_type<T: CustomType>(&mut self) -> (r: &mut Self)
        ensures
            exists|name: Option<Seq<char>>, members: Seq<(FnKeyView, NativeFn)>|
                T::describes(name, members) && r@ == #[trigger] finalized(
                    old(self)@,
                    T::spec_type_tag(),
                    name,
                    members,
                ),
            r@.type_names.contains_key(T::spec_type_tag()),
            *final(self) == *final(r),
    {
        let mut builder = TypeBuilder::<T>::new(self);
        T::build(&mut builder);
        let ghost name = builder.name();
        let ghost members = builder.members();
        builder.finish();
        assert(self@ == finalized(old(self)@, T::spec_type_tag(), name, members));
        self
    }
}

} // verus!
