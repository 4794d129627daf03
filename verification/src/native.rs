//! The uniform callable that every registered native function becomes.
//!
//! A native function has an arity, takes its first argument by value or by
//! exclusive reference, and returns a value or a `Result`. An adapter erases
//! all of that: it takes the dynamic arguments of a call, converts each to the
//! native type its position expects, calls the native function, writes a
//! receiver back into the first argument, and wraps what was returned.
use crate::dynamic::Dynamic;
use crate::error::EvalError;
use crate::variant::Variant;
use vstd::prelude::*;

verus! {

/// The uniform invocation contract: from the arguments of a call to the
/// arguments after it and the value or the failure.
trait NativeCallable: Send + Sync {
    /// Whether the callable may be called on `args`.
    spec fn accepts(&self, args: Vec<Dynamic>) -> bool;

    /// Whether a call on `args` may leave `out` and return `res`.
    spec fn relates(
        &self,
        args: Vec<Dynamic>,
        out: Vec<Dynamic>,
        res: Result<Dynamic, EvalError>,
    ) -> bool;

    /// Calls the callable.
    fn invoke(&self, args: Vec<Dynamic>) -> (r: (Vec<Dynamic>, Result<Dynamic, EvalError>))
        requires
            self.accepts(args),
        ensures
            self.relates(args, r.0, r.1),
    ;
}

/// A closure of the uniform shape.
struct Uniform<G> {
    g: G,
}

impl<G> NativeCallable for Uniform<G> where
    G: Fn(Vec<Dynamic>) -> (Vec<Dynamic>, Result<Dynamic, EvalError>) + Send + Sync,
 {
    spec fn accepts(&self, args: Vec<Dynamic>) -> bool {
        call_requires(self.g, (args,))
    }

    spec fn relates(
        &self,
        args: Vec<Dynamic>,
        out: Vec<Dynamic>,
        res: Result<Dynamic, EvalError>,
    ) -> bool {
        call_ensures(self.g, (args,), (out, res))
    }

    fn invoke(&self, args: Vec<Dynamic>) -> (r: (Vec<Dynamic>, Result<Dynamic, EvalError>)) {
        (self.g)(args)
    }
}

/// A native function behind the uniform invocation contract, with its
/// signature.
pub struct NativeFn {
    inner: Box<dyn NativeCallable>,
    params: Vec<String>,
    receiver: bool,
    fallible: bool,
}

/// The signature of a function without parameters.
pub open spec fn signature_0() -> Seq<Seq<char>> {
    Seq::empty()
}

/// The signature of a function of one parameter: the parameter's type tag.
pub open spec fn signature_1<T1: Variant>() -> Seq<Seq<char>> {
    seq![T1::spec_type_tag()]
}

/// The signature of a function of two parameters: their type tags, in order.
pub open spec fn signature_2<T1: Variant, T2: Variant>() -> Seq<Seq<char>> {
    seq![T1::spec_type_tag(), T2::spec_type_tag()]
}

/// The signature of a function of three parameters: their type tags, in
/// order.
pub open spec fn signature_3<T1: Variant, T2: Variant, T3: Variant>() -> Seq<Seq<char>> {
    seq![T1::spec_type_tag(), T2::spec_type_tag(), T3::spec_type_tag()]
}

/// The failure owed to a call of a function without parameters, if any.
pub open spec fn check_0(args: Seq<Dynamic>) -> Option<EvalError> {
    if args.len() != 0 {
        Some(EvalError::ArgCountMismatch { expected: 0, found: args.len() as usize })
    } else {
        None
    }
}

/// The failure owed to a call of a function of one parameter, if any: a wrong
/// number of arguments, else an argument of another type.
pub open spec fn check_1<T1: Variant>(args: Seq<Dynamic>) -> Option<EvalError> {
    if args.len() != 1 {
        Some(EvalError::ArgCountMismatch { expected: 1, found: args.len() as usize })
    } else if !T1::admits(args[0]@) {
        Some(EvalError::ArgTypeMismatch { position: 0 })
    } else {
        None
    }
}

/// The failure owed to a call of a function of two parameters, if any: a wrong
/// number of arguments, else the leftmost argument of another type.
pub open spec fn check_2<T1: Variant, T2: Variant>(args: Seq<Dynamic>) -> Option<EvalError> {
    if args.len() != 2 {
        Some(EvalError::ArgCountMismatch { expected: 2, found: args.len() as usize })
    } else if !T1::admits(args[0]@) {
        Some(EvalError::ArgTypeMismatch { position: 0 })
    } else if !T2::admits(args[1]@) {
        Some(EvalError::ArgTypeMismatch { position: 1 })
    } else {
        None
    }
}

/// The failure owed to a call of a function of three parameters, if any: a
/// wrong number of arguments, else the leftmost argument of another type.
pub open spec fn check_3<T1: Variant, T2: Variant, T3: Variant>(args: Seq<Dynamic>) -> Option<
    EvalError,
> {
    if args.len() != 3 {
        Some(EvalError::ArgCountMismatch { expected: 3, found: args.len() as usize })
    } else if !T1::admits(args[0]@) {
        Some(EvalError::ArgTypeMismatch { position: 0 })
    } else if !T2::admits(args[1]@) {
        Some(EvalError::ArgTypeMismatch { position: 1 })
    } else if !T3::admits(args[2]@) {
        Some(EvalError::ArgTypeMismatch { position: 2 })
    } else {
        None
    }
}

/// The native value `v` is what the argument at `position` holds.
pub open spec fn passed<T: Variant>(v: T, args: Seq<Dynamic>, position: int) -> bool {
    v.encode() == args[position]@
}

/// A receiver went in as the first argument holds it and came back into the
/// first argument as the native function left it; the other arguments are
/// untouched.
pub open spec fn receiver_passed<T: Variant>(
    before: T,
    after: T,
    args: Seq<Dynamic>,
    out: Seq<Dynamic>,
) -> bool {
    &&& before.encode() == args[0]@
    &&& out.len() == args.len()
    &&& out[0]@ == after.encode()
    &&& forall|i: int| 1 <= i < args.len() ==> out[i] == args[i]
}

/// The call succeeded with exactly the value that the native function
/// returned.
pub open spec fn returned<R: Variant>(r: R, res: Result<Dynamic, EvalError>) -> bool {
    res matches Ok(d) && d@ == r.encode()
}

/// The call succeeded with the value that the native function returned, or
/// failed with the very failure that it reported.
pub open spec fn returned_or_failed<R: Variant>(
    r: Result<R, EvalError>,
    res: Result<Dynamic, EvalError>,
) -> bool {
    match r {
        Ok(v) => res matches Ok(d) && d@ == v.encode(),
        Err(e) => res == Err::<Dynamic, EvalError>(e),
    }
}

/// The failure for an argument of another type at `position`.
fn wrong_type(position: usize) -> (r: Result<Dynamic, EvalError>)
    ensures
        r == Err::<Dynamic, EvalError>(EvalError::ArgTypeMismatch { position }),
{
    Err(EvalError::ArgTypeMismatch { position })
}

/// The failure for `found` arguments where `expected` are due.
fn wrong_count(expected: usize, found: usize) -> (r: Result<Dynamic, EvalError>)
    ensures
        r == Err::<Dynamic, EvalError>(EvalError::ArgCountMismatch { expected, found }),
{
    Err(EvalError::ArgCountMismatch { expected, found })
}

/// What `f` ensures of a call, with `f` borrowed.
#[verifier::inline]
spec fn ensures_fn_0<O, F: Fn() -> O>(f: &F, r: O) -> bool {
    call_ensures(*f, (), r)
}

/// What `f` ensures of a call, with `f` borrowed.
#[verifier::inline]
spec fn ensures_fn_1<T1, O, F: Fn(T1) -> O>(f: &F, first: T1, r: O) -> bool {
    call_ensures(*f, (first,), r)
}

/// What `f` ensures of a call, with `f` borrowed.
#[verifier::inline]
spec fn ensures_fn_2<T1, T2, O, F: Fn(T1, T2) -> O>(f: &F, first: T1, second: T2, r: O) -> bool {
    call_ensures(*f, (first, second), r)
}

/// What `f` ensures of a call, with `f` borrowed.
#[verifier::inline]
spec fn ensures_method_0<T1, O, F: Fn(&mut T1) -> O>(f: &F, x: &mut T1, r: O) -> bool {
    call_ensures(*f, (x,), r)
}

/// What `f` ensures of a call, with `f` borrowed.
#[verifier::inline]
spec fn ensures_method_1<T1, T2, O, F: Fn(&mut T1, T2) -> O>(
    f: &F,
    x: &mut T1,
    second: T2,
    r: O,
) -> bool {
    call_ensures(*f, (x, second), r)
}

/// What `f` ensures of a call, with `f` borrowed.
#[verifier::inline]
spec fn ensures_method_2<T1, T2, T3, O, F: Fn(&mut T1, T2, T3) -> O>(
    f: &F,
    x: &mut T1,
    second: T2,
    third: T3,
    r: O,
) -> bool {
    call_ensures(*f, (x, second, third), r)
}

impl NativeFn {
    /// The callable accepts every list of arguments and hands back as many
    /// arguments as it was given.
    #[verifier::type_invariant]
    spec fn total(&self) -> bool {
        &&& forall|args: Vec<Dynamic>| #[trigger] self.inner.accepts(args)
        &&& forall|args: Vec<Dynamic>, out: Vec<Dynamic>, res: Result<Dynamic, EvalError>|
            #[trigger] self.inner.relates(args, out, res) ==> out@.len() == args@.len()
    }

    /// What a call may do: `args` are the arguments handed over, `out` the
    /// arguments after the call, `res` what the call returned.
    pub closed spec fn effect(
        &self,
        args: Vec<Dynamic>,
        out: Vec<Dynamic>,
        res: Result<Dynamic, EvalError>,
    ) -> bool {
        self.inner.relates(args, out, res)
    }

    /// The type tags of the parameters, in order: the signature.
    pub closed spec fn params(&self) -> Seq<Seq<char>> {
        Seq::new(self.params@.len(), |i: int| self.params@[i]@)
    }

    /// Whether the first parameter is taken by exclusive reference.
    pub closed spec fn takes_receiver(&self) -> bool {
        self.receiver
    }

    /// Whether the native function may report a failure of its own.
    pub closed spec fn is_fallible(&self) -> bool {
        self.fallible
    }

    /// The type tags of the parameters, in order.
    pub fn signature(&self) -> (tags: &Vec<String>)
        ensures
            tags@.len() == self.params().len(),
            forall|i: int| 0 <= i < tags@.len() ==> tags@[i]@ == self.params()[i],
    {
        &self.params
    }

    /// The number of parameters.
    pub fn arity(&self) -> (n: usize)
        ensures
            n == self.params().len(),
    {
        self.params.len()
    }

    /// Whether the first parameter is taken by exclusive reference.
    pub fn has_receiver(&self) -> (b: bool)
        ensures
            b == self.takes_receiver(),
    {
        self.receiver
    }

    /// Whether the native function may report a failure of its own.
    pub fn may_fail(&self) -> (b: bool)
        ensures
            b == self.is_fallible(),
    {
        self.fallible
    }

    /// Puts a closure of the uniform shape behind the uniform contract.
    fn wrap<G>(g: G, params: Vec<String>, receiver: bool, fallible: bool) -> (a: NativeFn) where
        G: Fn(Vec<Dynamic>) -> (Vec<Dynamic>, Result<Dynamic, EvalError>) + Send + Sync + 'static,

        requires
            forall|args: Vec<Dynamic>| call_requires(g, (args,)),
            forall|args: Vec<Dynamic>, out: Vec<Dynamic>, res: Result<Dynamic, EvalError>|
                call_ensures(g, (args,), (out, res)) ==> out@.len() == args@.len(),
        ensures
            a.params() == Seq::new(params@.len(), |i: int| params@[i]@),
            a.takes_receiver() == receiver,
            a.is_fallible() == fallible,
            forall|args: Vec<Dynamic>, out: Vec<Dynamic>, res: Result<Dynamic, EvalError>|
                #[trigger] a.effect(args, out, res) <==> call_ensures(g, (args,), (out, res)),
    {
        NativeFn { inner: Box::new(Uniform { g }), params, receiver, fallible }
    }

    /// Calls the native function on the arguments of a call site. A receiver
    /// is changed in place, inside `args`; there are as many arguments after
    /// the call as before.
    pub fn call(&self, args: &mut Vec<Dynamic>) -> (res: Result<Dynamic, EvalError>)
        ensures
            self.effect(*old(args), *final(args), res),
            final(args)@.len() == old(args)@.len(),
    {
        proof {
            use_type_invariant(self);
        }
        let mut taken: Vec<Dynamic> = Vec::new();
        std::mem::swap(args, &mut taken);
        let (out, res) = self.inner.invoke(taken);
        *args = out;
        res
    }

    /// Adapts a native function without parameters.
    ///
    /// A call with a wrong number of arguments, or with an argument of
    /// another type, fails and leaves the arguments as they were.
    /// Otherwise the native function runs on the values that the
    /// arguments hold, and the arguments stay as they were.
    /// The call succeeds with exactly the value that the function returned.
    pub fn from_fn_0<R, F>(f: F) -> (adapter: NativeFn) where
        R: Variant + 'static,
        F: Fn() -> R + Send + Sync + 'static,

        requires
            call_requires(f, ()),
        ensures
            adapter.params() == signature_0(),
            !adapter.takes_receiver(),
            !adapter.is_fallible(),
            forall|args: Vec<Dynamic>, out: Vec<Dynamic>, res: Result<Dynamic, EvalError>|
                #[trigger] adapter.effect(args, out, res) ==> match check_0(args@) {
                    Some(e) => res == Err::<Dynamic, EvalError>(e) && out == args,
                    None => exists|r: R|
                        call_ensures(f, (), r)
                            && #[trigger] returned(r, res)
                            && out == args,
                },
    {
        let g = move |args: Vec<Dynamic>| -> (r: (Vec<Dynamic>, Result<Dynamic, EvalError>))
            ensures
                match check_0(args@) {
                    Some(e) => r.1 == Err::<Dynamic, EvalError>(e) && r.0 == args,
                    None => exists|v: R|
                        ensures_fn_0(&f, v)
                            && #[trigger] returned(v, r.1)
                            && r.0 == args,
                },
            {
                let mut args = args;
                let found = args.len();
                if found != 0 {
                    (args, wrong_count(0, found))
                } else {
                    let value = f();
                    let ghost witness = value;
                    let res = Ok(value.into_dynamic());
                    assert(returned(witness, res));
                    (args, res)
                }
            };
        let mut params: Vec<String> = Vec::new();
        let adapter = NativeFn::wrap(g, params, false, false);
        assert(adapter.params() =~= signature_0());
        adapter
    }

    /// Adapts a native function of one parameter, taken by value.
    ///
    /// A call with a wrong number of arguments, or with an argument of
    /// another type, fails and leaves the arguments as they were.
    /// Otherwise the native function runs on the values that the
    /// arguments hold, and the arguments stay as they were.
    /// The call succeeds with exactly the value that the function returned.
    pub fn from_fn_1<T1, R, F>(f: F) -> (adapter: NativeFn) where
        T1: Variant + 'static,
        R: Variant + 'static,
        F: Fn(T1) -> R + Send + Sync + 'static,

        requires
            forall|first: T1| call_requires(f, (first,)),
        ensures
            adapter.params() == signature_1::<T1>(),
            !adapter.takes_receiver(),
            !adapter.is_fallible(),
            forall|args: Vec<Dynamic>, out: Vec<Dynamic>, res: Result<Dynamic, EvalError>|
                #[trigger] adapter.effect(args, out, res) ==> match check_1::<T1>(args@) {
                    Some(e) => res == Err::<Dynamic, EvalError>(e) && out == args,
                    None => exists|first: T1, r: R|
                        call_ensures(f, (first,), r)
                            && passed(first, args@, 0)
                            && returned(r, res)
                            && out == args,
                },
    {
        let g = move |args: Vec<Dynamic>| -> (r: (Vec<Dynamic>, Result<Dynamic, EvalError>))
            ensures
                match check_1::<T1>(args@) {
                    Some(e) => r.1 == Err::<Dynamic, EvalError>(e) && r.0 == args,
                    None => exists|first: T1, v: R|
                        ensures_fn_1(&f, first, v)
                            && passed(first, args@, 0)
                            && returned(v, r.1)
                            && r.0 == args,
                },
            {
                let mut args = args;
                let found = args.len();
                if found != 1 {
                    (args, wrong_count(1, found))
                } else {
                    let first = T1::from_dynamic(&args[0]);
                    match first {
                        None => (args, wrong_type(0)),
                        Some(first) => {
                            let value = f(first);
                            let res = Ok(value.into_dynamic());
                            (args, res)
                        },
                    }
                }
            };
        let mut params: Vec<String> = Vec::new();
        params.push(T1::type_tag());
        let adapter = NativeFn::wrap(g, params, false, false);
        assert(adapter.params() =~= signature_1::<T1>());
        adapter
    }

    /// Adapts a native function of two parameters, taken by value.
    ///
    /// A call with a wrong number of arguments, or with an argument of
    /// another type, fails and leaves the arguments as they were.
    /// Otherwise the native function runs on the values that the
    /// arguments hold, and the arguments stay as they were.
    /// The call succeeds with exactly the value that the function returned.
    pub fn from_fn_2<T1, T2, R, F>(f: F) -> (adapter: NativeFn) where
        T1: Variant + 'static,
        T2: Variant + 'static,
        R: Variant + 'static,
        F: Fn(T1, T2) -> R + Send + Sync + 'static,

        requires
            forall|first: T1, second: T2| call_requires(f, (first, second)),
        ensures
            adapter.params() == signature_2::<T1, T2>(),
            !adapter.takes_receiver(),
            !adapter.is_fallible(),
            forall|args: Vec<Dynamic>, out: Vec<Dynamic>, res: Result<Dynamic, EvalError>|
                #[trigger] adapter.effect(args, out, res) ==> match check_2::<T1, T2>(args@) {
                    Some(e) => res == Err::<Dynamic, EvalError>(e) && out == args,
                    None => exists|first: T1, second: T2, r: R|
                        call_ensures(f, (first, second), r)
                            && passed(first, args@, 0)
                            && passed(second, args@, 1)
                            && returned(r, res)
                            && out == args,
                },
    {
        let g = move |args: Vec<Dynamic>| -> (r: (Vec<Dynamic>, Result<Dynamic, EvalError>))
            ensures
                match check_2::<T1, T2>(args@) {
                    Some(e) => r.1 == Err::<Dynamic, EvalError>(e) && r.0 == args,
                    None => exists|first: T1, second: T2, v: R|
                        ensures_fn_2(&f, first, second, v)
                            && passed(first, args@, 0)
                            && passed(second, args@, 1)
                            && returned(v, r.1)
                            && r.0 == args,
                },
            {
                let mut args = args;
                let found = args.len();
                if found != 2 {
                    (args, wrong_count(2, found))
                } else {
                    let first = T1::from_dynamic(&args[0]);
                    let second = T2::from_dynamic(&args[1]);
                    match (first, second) {
                        (None, _) => (args, wrong_type(0)),
                        (Some(_), None) => (args, wrong_type(1)),
                        (Some(first), Some(second)) => {
                            let value = f(first, second);
                            let res = Ok(value.into_dynamic());
                            (args, res)
                        },
                    }
                }
            };
        let mut params: Vec<String> = Vec::new();
        params.push(T1::type_tag());
        params.push(T2::type_tag());
        let adapter = NativeFn::wrap(g, params, false, false);
        assert(adapter.params() =~= signature_2::<T1, T2>());
        adapter
    }

    /// Adapts a native function that takes a receiver and nothing else.
    ///
    /// A call with a wrong number of arguments, or with an argument of
    /// another type, fails and leaves the arguments as they were.
    /// Otherwise the native function runs on the receiver that the first
    /// argument holds, and the first argument then holds the receiver as
    /// the function left it.
    /// The call succeeds with exactly the value that the function returned.
    pub fn from_method_0<T1, R, F>(f: F) -> (adapter: NativeFn) where
        T1: Variant + 'static,
        R: Variant + 'static,
        F: Fn(&mut T1) -> R + Send + Sync + 'static,

        requires
            forall|x: &mut T1| call_requires(f, (x,)),
        ensures
            adapter.params() == signature_1::<T1>(),
            adapter.takes_receiver(),
            !adapter.is_fallible(),
            forall|args: Vec<Dynamic>, out: Vec<Dynamic>, res: Result<Dynamic, EvalError>|
                #[trigger] adapter.effect(args, out, res) ==> match check_1::<T1>(args@) {
                    Some(e) => res == Err::<Dynamic, EvalError>(e) && out == args,
                    None => exists|x: &mut T1, r: R|
                        call_ensures(f, (x,), r)
                            && receiver_passed(*x, *final(x), args@, out@)
                            && returned(r, res),
                },
    {
        let g = move |args: Vec<Dynamic>| -> (r: (Vec<Dynamic>, Result<Dynamic, EvalError>))
            ensures
                match check_1::<T1>(args@) {
                    Some(e) => r.1 == Err::<Dynamic, EvalError>(e) && r.0 == args,
                    None => exists|x: &mut T1, v: R|
                        ensures_method_0(&f, x, v)
                            && receiver_passed(*x, *final(x), args@, r.0@)
                            && returned(v, r.1),
                },
            {
                let mut args = args;
                let found = args.len();
                if found != 1 {
                    (args, wrong_count(1, found))
                } else {
                    let first = T1::from_dynamic(&args[0]);
                    match first {
                        None => (args, wrong_type(0)),
                        Some(first) => {
                            let mut receiver = first;
                            let value = f(&mut receiver);
                            args.set(0, receiver.into_dynamic());
                            let res = Ok(value.into_dynamic());
                            (args, res)
                        },
                    }
                }
            };
        let mut params: Vec<String> = Vec::new();
        params.push(T1::type_tag());
        let adapter = NativeFn::wrap(g, params, true, false);
        assert(adapter.params() =~= signature_1::<T1>());
        adapter
    }

    /// Adapts a native function that takes a receiver and one more argument.
    ///
    /// A call with a wrong number of arguments, or with an argument of
    /// another type, fails and leaves the arguments as they were.
    /// Otherwise the native function runs on the receiver that the first
    /// argument holds, and the first argument then holds the receiver as
    /// the function left it.
    /// The call succeeds with exactly the value that the function returned.
    pub fn from_method_1<T1, T2, R, F>(f: F) -> (adapter: NativeFn) where
        T1: Variant + 'static,
        T2: Variant + 'static,
        R: Variant + 'static,
        F: Fn(&mut T1, T2) -> R + Send + Sync + 'static,

        requires
            forall|x: &mut T1, second: T2| call_requires(f, (x, second)),
        ensures
            adapter.params() == signature_2::<T1, T2>(),
            adapter.takes_receiver(),
            !adapter.is_fallible(),
            forall|args: Vec<Dynamic>, out: Vec<Dynamic>, res: Result<Dynamic, EvalError>|
                #[trigger] adapter.effect(args, out, res) ==> match check_2::<T1, T2>(args@) {
                    Some(e) => res == Err::<Dynamic, EvalError>(e) && out == args,
                    None => exists|x: &mut T1, second: T2, r: R|
                        call_ensures(f, (x, second), r)
                            && receiver_passed(*x, *final(x), args@, out@)
                            && passed(second, args@, 1)
                            && returned(r, res),
                },
    {
        let g = move |args: Vec<Dynamic>| -> (r: (Vec<Dynamic>, Result<Dynamic, EvalError>))
            ensures
                match check_2::<T1, T2>(args@) {
                    Some(e) => r.1 == Err::<Dynamic, EvalError>(e) && r.0 == args,
                    None => exists|x: &mut T1, second: T2, v: R|
                        ensures_method_1(&f, x, second, v)
                            && receiver_passed(*x, *final(x), args@, r.0@)
                            && passed(second, args@, 1)
                            && returned(v, r.1),
                },
            {
                let mut args = args;
                let found = args.len();
                if found != 2 {
                    (args, wrong_count(2, found))
                } else {
                    let first = T1::from_dynamic(&args[0]);
                    let second = T2::from_dynamic(&args[1]);
                    match (first, second) {
                        (None, _) => (args, wrong_type(0)),
                        (Some(_), None) => (args, wrong_type(1)),
                        (Some(first), Some(second)) => {
                            let mut receiver = first;
                            let value = f(&mut receiver, second);
                            args.set(0, receiver.into_dynamic());
                            let res = Ok(value.into_dynamic());
                            (args, res)
                        },
                    }
                }
            };
        let mut params: Vec<String> = Vec::new();
        params.push(T1::type_tag());
        params.push(T2::type_tag());
        let adapter = NativeFn::wrap(g, params, true, false);
        assert(adapter.params() =~= signature_2::<T1, T2>());
        adapter
    }

    /// Adapts a native function that takes a receiver and two more arguments.
    ///
    /// A call with a wrong number of arguments, or with an argument of
    /// another type, fails and leaves the arguments as they were.
    /// Otherwise the native function runs on the receiver that the first
    /// argument holds, and the first argument then holds the receiver as
    /// the function left it.
    /// The call succeeds with exactly the value that the function returned.
    pub fn from_method_2<T1, T2, T3, R, F>(f: F) -> (adapter: NativeFn) where
        T1: Variant + 'static,
        T2: Variant + 'static,
        T3: Variant + 'static,
        R: Variant + 'static,
        F: Fn(&mut T1, T2, T3) -> R + Send + Sync + 'static,

        requires
            forall|x: &mut T1, second: T2, third: T3| call_requires(f, (x, second, third)),
        ensures
            adapter.params() == signature_3::<T1, T2, T3>(),
            adapter.takes_receiver(),
            !adapter.is_fallible(),
            forall|args: Vec<Dynamic>, out: Vec<Dynamic>, res: Result<Dynamic, EvalError>|
                #[trigger] adapter.effect(args, out, res) ==> match check_3::<T1, T2, T3>(args@) {
                    Some(e) => res == Err::<Dynamic, EvalError>(e) && out == args,
                    None => exists|x: &mut T1, second: T2, third: T3, r: R|
                        call_ensures(f, (x, second, third), r)
                            && receiver_passed(*x, *final(x), args@, out@)
                            && passed(second, args@, 1)
                            && passed(third, args@, 2)
                            && returned(r, res),
                },
    {
        let g = move |args: Vec<Dynamic>| -> (r: (Vec<Dynamic>, Result<Dynamic, EvalError>))
            ensures
                match check_3::<T1, T2, T3>(args@) {
                    Some(e) => r.1 == Err::<Dynamic, EvalError>(e) && r.0 == args,
                    None => exists|x: &mut T1, second: T2, third: T3, v: R|
                        ensures_method_2(&f, x, second, third, v)
                            && receiver_passed(*x, *final(x), args@, r.0@)
                            && passed(second, args@, 1)
                            && passed(third, args@, 2)
                            && returned(v, r.1),
                },
            {
                let mut args = args;
                let found = args.len();
                if found != 3 {
                    (args, wrong_count(3, found))
                } else {
                    let first = T1::from_dynamic(&args[0]);
                    let second = T2::from_dynamic(&args[1]);
                    let third = T3::from_dynamic(&args[2]);
                    match (first, second, third) {
                        (None, _, _) => (args, wrong_type(0)),
                        (Some(_), None, _) => (args, wrong_type(1)),
                        (Some(_), Some(_), None) => (args, wrong_type(2)),
                        (Some(first), Some(second), Some(third)) => {
                            let mut receiver = first;
                            let value = f(&mut receiver, second, third);
                            args.set(0, receiver.into_dynamic());
                            let res = Ok(value.into_dynamic());
                            (args, res)
                        },
                    }
                }
            };
        let mut params: Vec<String> = Vec::new();
        params.push(T1::type_tag());
        params.push(T2::type_tag());
        params.push(T3::type_tag());
        let adapter = NativeFn::wrap(g, params, true, false);
        assert(adapter.params() =~= signature_3::<T1, T2, T3>());
        adapter
    }

    /// Adapts a native function without parameters, that may fail.
    ///
    /// A call with a wrong number of arguments, or with an argument of
    /// another type, fails and leaves the arguments as they were.
    /// Otherwise the native function runs on the values that the
    /// arguments hold, and the arguments stay as they were.
    /// The call returns the value that the function returned, or fails
    /// with the very failure that it reported.
    pub fn from_result_fn_0<R, F>(f: F) -> (adapter: NativeFn) where
        R: Variant + 'static,
        F: Fn() -> Result<R, EvalError> + Send + Sync + 'static,

        requires
            call_requires(f, ()),
        ensures
            adapter.params() == signature_0(),
            !adapter.takes_receiver(),
            adapter.is_fallible(),
            forall|args: Vec<Dynamic>, out: Vec<Dynamic>, res: Result<Dynamic, EvalError>|
                #[trigger] adapter.effect(args, out, res) ==> match check_0(args@) {
                    Some(e) => res == Err::<Dynamic, EvalError>(e) && out == args,
                    None => exists|r: Result<R, EvalError>|
                        call_ensures(f, (), r)
                            && #[trigger] returned_or_failed(r, res)
                            && out == args,
                },
    {
        let g = move |args: Vec<Dynamic>| -> (r: (Vec<Dynamic>, Result<Dynamic, EvalError>))
            ensures
                match check_0(args@) {
                    Some(e) => r.1 == Err::<Dynamic, EvalError>(e) && r.0 == args,
                    None => exists|v: Result<R, EvalError>|
                        ensures_fn_0(&f, v)
                            && #[trigger] returned_or_failed(v, r.1)
                            && r.0 == args,
                },
            {
                let mut args = args;
                let found = args.len();
                if found != 0 {
                    (args, wrong_count(0, found))
                } else {
                    let value = f();
                    let ghost witness = value;
                    let res = match value {
                        Ok(v) => Ok(v.into_dynamic()),
                        Err(e) => Err(e),
                    };
                    assert(returned_or_failed(witness, res));
                    (args, res)
                }
            };
        let mut params: Vec<String> = Vec::new();
        let adapter = NativeFn::wrap(g, params, false, true);
        assert(adapter.params() =~= signature_0());
        adapter
    }

    /// Adapts a native function of one parameter, taken by value, that may fail.
    ///
    /// A call with a wrong number of arguments, or with an argument of
    /// another type, fails and leaves the arguments as they were.
    /// Otherwise the native function runs on the values that the
    /// arguments hold, and the arguments stay as they were.
    /// The call returns the value that the function returned, or fails
    /// with the very failure that it reported.
    pub fn from_result_fn_1<T1, R, F>(f: F) -> (adapter: NativeFn) where
        T1: Variant + 'static,
        R: Variant + 'static,
        F: Fn(T1) -> Result<R, EvalError> + Send + Sync + 'static,

        requires
            forall|first: T1| call_requires(f, (first,)),
        ensures
            adapter.params() == signature_1::<T1>(),
            !adapter.takes_receiver(),
            adapter.is_fallible(),
            forall|args: Vec<Dynamic>, out: Vec<Dynamic>, res: Result<Dynamic, EvalError>|
                #[trigger] adapter.effect(args, out, res) ==> match check_1::<T1>(args@) {
                    Some(e) => res == Err::<Dynamic, EvalError>(e) && out == args,
                    None => exists|first: T1, r: Result<R, EvalError>|
                        call_ensures(f, (first,), r)
                            && passed(first, args@, 0)
                            && returned_or_failed(r, res)
                            && out == args,
                },
    {
        let g = move |args: Vec<Dynamic>| -> (r: (Vec<Dynamic>, Result<Dynamic, EvalError>))
            ensures
                match check_1::<T1>(args@) {
                    Some(e) => r.1 == Err::<Dynamic, EvalError>(e) && r.0 == args,
                    None => exists|first: T1, v: Result<R, EvalError>|
                        ensures_fn_1(&f, first, v)
                            && passed(first, args@, 0)
                            && returned_or_failed(v, r.1)
                            && r.0 == args,
                },
            {
                let mut args = args;
                let found = args.len();
                if found != 1 {
                    (args, wrong_count(1, found))
                } else {
                    let first = T1::from_dynamic(&args[0]);
                    match first {
                        None => (args, wrong_type(0)),
                        Some(first) => {
                            let value = f(first);
                            let res = match value {
                                Ok(v) => Ok(v.into_dynamic()),
                                Err(e) => Err(e),
                            };
                            (args, res)
                        },
                    }
                }
            };
        let mut params: Vec<String> = Vec::new();
        params.push(T1::type_tag());
        let adapter = NativeFn::wrap(g, params, false, true);
        assert(adapter.params() =~= signature_1::<T1>());
        adapter
    }

    /// Adapts a native function of two parameters, taken by value, that may fail.
    ///
    /// A call with a wrong number of arguments, or with an argument of
    /// another type, fails and leaves the arguments as they were.
    /// Otherwise the native function runs on the values that the
    /// arguments hold, and the arguments stay as they were.
    /// The call returns the value that the function returned, or fails
    /// with the very failure that it reported.
    pub fn from_result_fn_2<T1, T2, R, F>(f: F) -> (adapter: NativeFn) where
        T1: Variant + 'static,
        T2: Variant + 'static,
        R: Variant + 'static,
        F: Fn(T1, T2) -> Result<R, EvalError> + Send + Sync + 'static,

        requires
            forall|first: T1, second: T2| call_requires(f, (first, second)),
        ensures
            adapter.params() == signature_2::<T1, T2>(),
            !adapter.takes_receiver(),
            adapter.is_fallible(),
            forall|args: Vec<Dynamic>, out: Vec<Dynamic>, res: Result<Dynamic, EvalError>|
                #[trigger] adapter.effect(args, out, res) ==> match check_2::<T1, T2>(args@) {
                    Some(e) => res == Err::<Dynamic, EvalError>(e) && out == args,
                    None => exists|first: T1, second: T2, r: Result<R, EvalError>|
                        call_ensures(f, (first, second), r)
                            && passed(first, args@, 0)
                            && passed(second, args@, 1)
                            && returned_or_failed(r, res)
                            && out == args,
                },
    {
        let g = move |args: Vec<Dynamic>| -> (r: (Vec<Dynamic>, Result<Dynamic, EvalError>))
            ensures
                match check_2::<T1, T2>(args@) {
                    Some(e) => r.1 == Err::<Dynamic, EvalError>(e) && r.0 == args,
                    None => exists|first: T1, second: T2, v: Result<R, EvalError>|
                        ensures_fn_2(&f, first, second, v)
                            && passed(first, args@, 0)
                            && passed(second, args@, 1)
                            && returned_or_failed(v, r.1)
                            && r.0 == args,
                },
            {
                let mut args = args;
                let found = args.len();
                if found != 2 {
                    (args, wrong_count(2, found))
                } else {
                    let first = T1::from_dynamic(&args[0]);
                    let second = T2::from_dynamic(&args[1]);
                    match (first, second) {
                        (None, _) => (args, wrong_type(0)),
                        (Some(_), None) => (args, wrong_type(1)),
                        (Some(first), Some(second)) => {
                            let value = f(first, second);
                            let res = match value {
                                Ok(v) => Ok(v.into_dynamic()),
                                Err(e) => Err(e),
                            };
                            (args, res)
                        },
                    }
                }
            };
        let mut params: Vec<String> = Vec::new();
        params.push(T1::type_tag());
        params.push(T2::type_tag());
        let adapter = NativeFn::wrap(g, params, false, true);
        assert(adapter.params() =~= signature_2::<T1, T2>());
        adapter
    }

    /// Adapts a native function that takes a receiver and nothing else, that may fail.
    ///
    /// A call with a wrong number of arguments, or with an argument of
    /// another type, fails and leaves the arguments as they were.
    /// Otherwise the native function runs on the receiver that the first
    /// argument holds, and the first argument then holds the receiver as
    /// the function left it.
    /// The call returns the value that the function returned, or fails
    /// with the very failure that it reported.
    pub fn from_result_method_0<T1, R, F>(f: F) -> (adapter: NativeFn) where
        T1: Variant + 'static,
        R: Variant + 'static,
        F: Fn(&mut T1) -> Result<R, EvalError> + Send + Sync + 'static,

        requires
            forall|x: &mut T1| call_requires(f, (x,)),
        ensures
            adapter.params() == signature_1::<T1>(),
            adapter.takes_receiver(),
            adapter.is_fallible(),
            forall|args: Vec<Dynamic>, out: Vec<Dynamic>, res: Result<Dynamic, EvalError>|
                #[trigger] adapter.effect(args, out, res) ==> match check_1::<T1>(args@) {
                    Some(e) => res == Err::<Dynamic, EvalError>(e) && out == args,
                    None => exists|x: &mut T1, r: Result<R, EvalError>|
                        call_ensures(f, (x,), r)
                            && receiver_passed(*x, *final(x), args@, out@)
                            && returned_or_failed(r, res),
                },
    {
        let g = move |args: Vec<Dynamic>| -> (r: (Vec<Dynamic>, Result<Dynamic, EvalError>))
            ensures
                match check_1::<T1>(args@) {
                    Some(e) => r.1 == Err::<Dynamic, EvalError>(e) && r.0 == args,
                    None => exists|x: &mut T1, v: Result<R, EvalError>|
                        ensures_method_0(&f, x, v)
                            && receiver_passed(*x, *final(x), args@, r.0@)
                            && returned_or_failed(v, r.1),
                },
            {
                let mut args = args;
                let found = args.len();
                if found != 1 {
                    (args, wrong_count(1, found))
                } else {
                    let first = T1::from_dynamic(&args[0]);
                    match first {
                        None => (args, wrong_type(0)),
                        Some(first) => {
                            let mut receiver = first;
                            let value = f(&mut receiver);
                            args.set(0, receiver.into_dynamic());
                            let res = match value {
                                Ok(v) => Ok(v.into_dynamic()),
                                Err(e) => Err(e),
                            };
                            (args, res)
                        },
                    }
                }
            };
        let mut params: Vec<String> = Vec::new();
        params.push(T1::type_tag());
        let adapter = NativeFn::wrap(g, params, true, true);
        assert(adapter.params() =~= signature_1::<T1>());
        adapter
    }

    /// Adapts a native function that takes a receiver and one more argument, that may fail.
    ///
    /// A call with a wrong number of arguments, or with an argument of
    /// another type, fails and leaves the arguments as they were.
    /// Otherwise the native function runs on the receiver that the first
    /// argument holds, and the first argument then holds the receiver as
    /// the function left it.
    /// The call returns the value that the function returned, or fails
    /// with the very failure that it reported.
    pub fn from_result_method_1<T1, T2, R, F>(f: F) -> (adapter: NativeFn) where
        T1: Variant + 'static,
        T2: Variant + 'static,
        R: Variant + 'static,
        F: Fn(&mut T1, T2) -> Result<R, EvalError> + Send + Sync + 'static,

        requires
            forall|x: &mut T1, second: T2| call_requires(f, (x, second)),
        ensures
            adapter.params() == signature_2::<T1, T2>(),
            adapter.takes_receiver(),
            adapter.is_fallible(),
            forall|args: Vec<Dynamic>, out: Vec<Dynamic>, res: Result<Dynamic, EvalError>|
                #[trigger] adapter.effect(args, out, res) ==> match check_2::<T1, T2>(args@) {
                    Some(e) => res == Err::<Dynamic, EvalError>(e) && out == args,
                    None => exists|x: &mut T1, second: T2, r: Result<R, EvalError>|
                        call_ensures(f, (x, second), r)
                            && receiver_passed(*x, *final(x), args@, out@)
                            && passed(second, args@, 1)
                            && returned_or_failed(r, res),
                },
    {
        let g = move |args: Vec<Dynamic>| -> (r: (Vec<Dynamic>, Result<Dynamic, EvalError>))
            ensures
                match check_2::<T1, T2>(args@) {
                    Some(e) => r.1 == Err::<Dynamic, EvalError>(e) && r.0 == args,
                    None => exists|x: &mut T1, second: T2, v: Result<R, EvalError>|
                        ensures_method_1(&f, x, second, v)
                            && receiver_passed(*x, *final(x), args@, r.0@)
                            && passed(second, args@, 1)
                            && returned_or_failed(v, r.1),
                },
            {
                let mut args = args;
                let found = args.len();
                if found != 2 {
                    (args, wrong_count(2, found))
                } else {
                    let first = T1::from_dynamic(&args[0]);
                    let second = T2::from_dynamic(&args[1]);
                    match (first, second) {
                        (None, _) => (args, wrong_type(0)),
                        (Some(_), None) => (args, wrong_type(1)),
                        (Some(first), Some(second)) => {
                            let mut receiver = first;
                            let value = f(&mut receiver, second);
                            args.set(0, receiver.into_dynamic());
                            let res = match value {
                                Ok(v) => Ok(v.into_dynamic()),
                                Err(e) => Err(e),
                            };
                            (args, res)
                        },
                    }
                }
            };
        let mut params: Vec<String> = Vec::new();
        params.push(T1::type_tag());
        params.push(T2::type_tag());
        let adapter = NativeFn::wrap(g, params, true, true);
        assert(adapter.params() =~= signature_2::<T1, T2>());
        adapter
    }

    /// Adapts a native function that takes a receiver and two more arguments, that may fail.
    ///
    /// A call with a wrong number of arguments, or with an argument of
    /// another type, fails and leaves the arguments as they were.
    /// Otherwise the native function runs on the receiver that the first
    /// argument holds, and the first argument then holds the receiver as
    /// the function left it.
    /// The call returns the value that the function returned, or fails
    /// with the very failure that it reported.
    pub fn from_result_method_2<T1, T2, T3, R, F>(f: F) -> (adapter: NativeFn) where
        T1: Variant + 'static,
        T2: Variant + 'static,
        T3: Variant + 'static,
        R: Variant + 'static,
        F: Fn(&mut T1, T2, T3) -> Result<R, EvalError> + Send + Sync + 'static,

        requires
            forall|x: &mut T1, second: T2, third: T3| call_requires(f, (x, second, third)),
        ensures
            adapter.params() == signature_3::<T1, T2, T3>(),
            adapter.takes_receiver(),
            adapter.is_fallible(),
            forall|args: Vec<Dynamic>, out: Vec<Dynamic>, res: Result<Dynamic, EvalError>|
                #[trigger] adapter.effect(args, out, res) ==> match check_3::<T1, T2, T3>(args@) {
                    Some(e) => res == Err::<Dynamic, EvalError>(e) && out == args,
                    None => exists|x: &mut T1, second: T2, third: T3, r: Result<R, EvalError>|
                        call_ensures(f, (x, second, third), r)
                            && receiver_passed(*x, *final(x), args@, out@)
                            && passed(second, args@, 1)
                            && passed(third, args@, 2)
                            && returned_or_failed(r, res),
                },
    {
        let g = move |args: Vec<Dynamic>| -> (r: (Vec<Dynamic>, Result<Dynamic, EvalError>))
            ensures
                match check_3::<T1, T2, T3>(args@) {
                    Some(e) => r.1 == Err::<Dynamic, EvalError>(e) && r.0 == args,
                    None => exists|x: &mut T1, second: T2, third: T3, v: Result<R, EvalError>|
                        ensures_method_2(&f, x, second, third, v)
                            && receiver_passed(*x, *final(x), args@, r.0@)
                            && passed(second, args@, 1)
                            && passed(third, args@, 2)
                            && returned_or_failed(v, r.1),
                },
            {
                let mut args = args;
                let found = args.len();
                if found != 3 {
                    (args, wrong_count(3, found))
                } else {
                    let first = T1::from_dynamic(&args[0]);
                    let second = T2::from_dynamic(&args[1]);
                    let third = T3::from_dynamic(&args[2]);
                    match (first, second, third) {
                        (None, _, _) => (args, wrong_type(0)),
                        (Some(_), None, _) => (args, wrong_type(1)),
                        (Some(_), Some(_), None) => (args, wrong_type(2)),
                        (Some(first), Some(second), Some(third)) => {
                            let mut receiver = first;
                            let value = f(&mut receiver, second, third);
                            args.set(0, receiver.into_dynamic());
                            let res = match value {
                                Ok(v) => Ok(v.into_dynamic()),
                                Err(e) => Err(e),
                            };
                            (args, res)
                        },
                    }
                }
            };
        let mut params: Vec<String> = Vec::new();
        params.push(T1::type_tag());
        params.push(T2::type_tag());
        params.push(T3::type_tag());
        let adapter = NativeFn::wrap(g, params, true, true);
        assert(adapter.params() =~= signature_3::<T1, T2, T3>());
        adapter
    }
}

} // verus!
