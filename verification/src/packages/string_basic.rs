//! Printing and string operations for the types that the runtime knows.
use crate::dynamic::{entry_values, lemma_object_content, Dynamic, Value};
use crate::error::EvalError;
use crate::module::{
    function_key, keys_of, registrations, FnKey, FnKeyView, FnKind, Module, Registration,
};
use crate::native::{
    check_0, check_1, check_2, receiver_passed, returned_or_failed, signature_0, signature_1,
    signature_2, NativeFn,
};
use crate::packages::Package;
use crate::variant::Variant;
use core::fmt::{Debug, Display};
use vstd::prelude::*;
use vstd::string::to_string_from_display_ensures;

verus! {

/// The name under which printing is registered.
pub const KEYWORD_PRINT: &'static str = "print";

/// The name under which conversion to a string is registered.
pub const FUNC_TO_STRING: &'static str = "to_string";

/// The name under which debug printing is registered.
pub const KEYWORD_DEBUG: &'static str = "debug";

/// `String::push` of std appends one character to the end of the string and
/// leaves the characters before it as they were.
pub assume_specification[ String::push ](s: &mut String, ch: char)
    ensures
        final(s)@ == old(s)@.push(ch),
;

/// The text of a value as `Debug` of std formats it, by way of `format!` with
/// `{:?}`.
///
/// `format!` returns once formatting has succeeded, and formatting into a
/// `String` fails only where an impl of `Debug` reports a failure of its own,
/// which std's documentation forbids. The value is only read.
#[verifier::external_body]
pub(crate) fn to_debug<T: Debug>(x: &mut T) -> (r: Result<String, EvalError>)
    ensures
        r is Ok,
        *final(x) == *old(x),
{
    Ok(format!("{:?}", x))
}

/// The text of a value as `Display` formats it. The value is only read.
pub fn to_string<T: Display>(x: &mut T) -> (r: Result<String, EvalError>)
    ensures
        r matches Ok(s) && to_string_from_display_ensures::<T>(&*old(x), s),
        *final(x) == *old(x),
{
    let shown: &T = x;
    Ok(shown.to_string())
}

/// What `Debug` of std gives for the entries of an object map.
pub uninterp spec fn map_debug_text(entries: Seq<(Seq<char>, Value)>) -> Seq<char>;

/// The debug text of the entries of an object map, by way of `format!` of
/// std with `{:?}`.
///
/// The text is made from the keys and the values of the entries, in order, and
/// from nothing else, so equal contents give equal texts.
#[verifier::external_body]
fn debug_map(entries: &Vec<(String, Dynamic)>) -> (text: String)
    ensures
        text@ == map_debug_text(entry_values(entries@)),
{
    format!("{:?}", entries)
}

/// The text of an object map: the marker `#` and then the debug text of the
/// map's entries. The map is only read.
pub fn format_map(x: &mut Vec<(String, Dynamic)>) -> (r: Result<String, EvalError>)
    ensures
        r matches Ok(s) && s@ == seq!['#'] + map_debug_text(entry_values(old(x)@)),
        *final(x) == *old(x),
{
    let mut text = "#".to_owned();
    proof {
        reveal_strlit("#");
        assert("#"@ =~= seq!['#']);
    }
    let body = debug_map(x);
    text.append(body.as_str());
    Ok(text)
}

/// The empty text for a call without arguments.
pub fn print_nothing() -> (r: Result<String, EvalError>)
    ensures
        r matches Ok(s) && s@ == Seq::<char>::empty(),
{
    Ok(String::new())
}

/// The empty text for the unit value.
pub fn print_unit(unit: ()) -> (r: Result<String, EvalError>)
    ensures
        r matches Ok(s) && s@ == Seq::<char>::empty(),
{
    Ok(String::new())
}

/// The text of a string: the string itself.
pub fn print_string(s: String) -> (r: Result<String, EvalError>)
    ensures
        r matches Ok(t) && t@ == s@,
{
    Ok(s)
}

/// A new string: `s` followed by `ch`.
pub fn concat_char(s: String, ch: char) -> (r: Result<String, EvalError>)
    ensures
        r matches Ok(t) && t@ == s@.push(ch),
{
    let mut text = s;
    text.push(ch);
    Ok(text)
}

/// A new string: `s` followed by `other`.
pub fn concat_string(s: String, other: String) -> (r: Result<String, EvalError>)
    ensures
        r matches Ok(t) && t@ == s@ + other@,
{
    let mut text = s;
    text.append(other.as_str());
    Ok(text)
}

/// Appends `ch` to `s` in place.
pub fn append_char(s: &mut String, ch: char) -> (r: Result<(), EvalError>)
    ensures
        r is Ok,
        final(s)@ == old(s)@.push(ch),
{
    s.push(ch);
    Ok(())
}

/// Appends `other` to `s` in place.
pub fn append(s: &mut String, other: String) -> (r: Result<(), EvalError>)
    ensures
        r is Ok,
        final(s)@ == old(s)@ + other@,
{
    s.append(other.as_str());
    Ok(())
}

/// A function of one argument of type `T` that leaves the argument as it was
/// and returns its text as `Display` formats it.
pub open spec fn prints<T: Variant + Display>(f: NativeFn) -> bool {
    forall|args: Vec<Dynamic>, out: Vec<Dynamic>, res: Result<Dynamic, EvalError>|
        #[trigger] f.effect(args, out, res) ==> match check_1::<T>(args@) {
            Some(e) => res == Err::<Dynamic, EvalError>(e) && out == args,
            None => {
                &&& out@.len() == 1
                &&& out@[0]@ == args@[0]@
                &&& exists|x: T, s: String|
                    x.encode() == args@[0]@ && #[trigger] to_string_from_display_ensures::<T>(
                        &x,
                        s,
                    ) && res is Ok && res->Ok_0@ == Value::Str(s@)
            },
        }
}

/// A function of one argument of type `T` that leaves the argument as it was
/// and returns a text.
pub open spec fn debugs<T: Variant>(f: NativeFn) -> bool {
    forall|args: Vec<Dynamic>, out: Vec<Dynamic>, res: Result<Dynamic, EvalError>|
        #[trigger] f.effect(args, out, res) ==> match check_1::<T>(args@) {
            Some(e) => res == Err::<Dynamic, EvalError>(e) && out == args,
            None => {
                &&& out@.len() == 1
                &&& out@[0]@ == args@[0]@
                &&& res matches Ok(d) && d@ is Str
            },
        }
}

/// A function of one object map that leaves the map as it was and returns the
/// marker `#` followed by the debug text of the map's entries.
pub open spec fn marks_map(f: NativeFn) -> bool {
    forall|args: Vec<Dynamic>, out: Vec<Dynamic>, res: Result<Dynamic, EvalError>|
        #[trigger] f.effect(args, out, res) ==> match check_1::<Vec<(String, Dynamic)>>(args@) {
            Some(e) => res == Err::<Dynamic, EvalError>(e) && out == args,
            None => {
                &&& out@.len() == 1
                &&& out@[0]@ == args@[0]@
                &&& res matches Ok(d) && d@ == Value::Str(
                    seq!['#'] + map_debug_text(args@[0]@->Object_0),
                )
            },
        }
}

/// A function without arguments that returns the empty string.
pub open spec fn gives_empty(f: NativeFn) -> bool {
    forall|args: Vec<Dynamic>, out: Vec<Dynamic>, res: Result<Dynamic, EvalError>|
        #[trigger] f.effect(args, out, res) ==> match check_0(args@) {
            Some(e) => res == Err::<Dynamic, EvalError>(e) && out == args,
            None => {
                &&& out == args
                &&& res matches Ok(d) && d@ == Value::Str(Seq::empty())
            },
        }
}

/// A function of the unit value that returns the empty string.
pub open spec fn gives_empty_for_unit(f: NativeFn) -> bool {
    forall|args: Vec<Dynamic>, out: Vec<Dynamic>, res: Result<Dynamic, EvalError>|
        #[trigger] f.effect(args, out, res) ==> match check_1::<()>(args@) {
            Some(e) => res == Err::<Dynamic, EvalError>(e) && out == args,
            None => {
                &&& out == args
                &&& res matches Ok(d) && d@ == Value::Str(Seq::empty())
            },
        }
}

/// A function of one string that returns the string.
pub open spec fn echoes(f: NativeFn) -> bool {
    forall|args: Vec<Dynamic>, out: Vec<Dynamic>, res: Result<Dynamic, EvalError>|
        #[trigger] f.effect(args, out, res) ==> match check_1::<String>(args@) {
            Some(e) => res == Err::<Dynamic, EvalError>(e) && out == args,
            None => {
                &&& out == args
                &&& res matches Ok(d) && d@ == args@[0]@
            },
        }
}

/// A function of a string and a character that leaves both as they were and
/// returns the string followed by the character.
pub open spec fn concats_char(f: NativeFn) -> bool {
    forall|args: Vec<Dynamic>, out: Vec<Dynamic>, res: Result<Dynamic, EvalError>|
        #[trigger] f.effect(args, out, res) ==> match check_2::<String, char>(args@) {
            Some(e) => res == Err::<Dynamic, EvalError>(e) && out == args,
            None => {
                &&& out == args
                &&& res matches Ok(d) && d@ == Value::Str(
                    args@[0]@->Str_0.push(args@[1]@->Char_0),
                )
            },
        }
}

/// A function of two strings that leaves both as they were and returns the
/// first followed by the second.
pub open spec fn concats(f: NativeFn) -> bool {
    forall|args: Vec<Dynamic>, out: Vec<Dynamic>, res: Result<Dynamic, EvalError>|
        #[trigger] f.effect(args, out, res) ==> match check_2::<String, String>(args@) {
            Some(e) => res == Err::<Dynamic, EvalError>(e) && out == args,
            None => {
                &&& out == args
                &&& res matches Ok(d) && d@ == Value::Str(args@[0]@->Str_0 + args@[1]@->Str_0)
            },
        }
}

/// A function of a string and a character that appends the character to the
/// string in place and returns the unit value.
pub open spec fn appends_char(f: NativeFn) -> bool {
    forall|args: Vec<Dynamic>, out: Vec<Dynamic>, res: Result<Dynamic, EvalError>|
        #[trigger] f.effect(args, out, res) ==> match check_2::<String, char>(args@) {
            Some(e) => res == Err::<Dynamic, EvalError>(e) && out == args,
            None => {
                &&& out@.len() == 2
                &&& out@[0]@ == Value::Str(args@[0]@->Str_0.push(args@[1]@->Char_0))
                &&& out@[1] == args@[1]
                &&& res matches Ok(d) && d@ == Value::Unit
            },
        }
}

/// A function of two strings that appends the second to the first in place
/// and returns the unit value.
pub open spec fn appends(f: NativeFn) -> bool {
    forall|args: Vec<Dynamic>, out: Vec<Dynamic>, res: Result<Dynamic, EvalError>|
        #[trigger] f.effect(args, out, res) ==> match check_2::<String, String>(args@) {
            Some(e) => res == Err::<Dynamic, EvalError>(e) && out == args,
            None => {
                &&& out@.len() == 2
                &&& out@[0]@ == Value::Str(args@[0]@->Str_0 + args@[1]@->Str_0)
                &&& out@[1] == args@[1]
                &&& res matches Ok(d) && d@ == Value::Unit
            },
        }
}

/// The registration of `to_string` for `T` under `name`.
fn printer<T>(name: &str) -> (item: Registration) where
    T: Variant + Display + 'static,

    ensures
        item@.0 == function_key(name@, signature_1::<T>()),
        prints::<T>(item@.1),
{
    let func = NativeFn::from_result_method_0(to_string::<T>);
    let mut params: Vec<String> = Vec::new();
    params.push(<T>::type_tag());
    let key = FnKey::new(FnKind::Function, name, params);
    assert(key@.params =~= signature_1::<T>());
    Registration { key, func }
}

/// The registration of `to_debug` for `T` under `name`.
fn debugger<T>(name: &str) -> (item: Registration) where
    T: Variant + Debug + 'static,

    ensures
        item@.0 == function_key(name@, signature_1::<T>()),
        debugs::<T>(item@.1),
{
    let func = NativeFn::from_result_method_0(to_debug::<T>);
    let mut params: Vec<String> = Vec::new();
    params.push(<T>::type_tag());
    let key = FnKey::new(FnKind::Function, name, params);
    assert(key@.params =~= signature_1::<T>());
    Registration { key, func }
}

/// The registration of `format_map` under `name`.
fn map_formatter(name: &str) -> (item: Registration)
    ensures
        item@.0 == function_key(name@, signature_1::<Vec<(String, Dynamic)>>()),
        marks_map(item@.1),
{
    let func = NativeFn::from_result_method_0(format_map);
    let mut params: Vec<String> = Vec::new();
    params.push(<Vec<(String, Dynamic)>>::type_tag());
    let key = FnKey::new(FnKind::Function, name, params);
    assert(key@.params =~= signature_1::<Vec<(String, Dynamic)>>());
    proof {
        assert forall|args: Vec<Dynamic>, out: Vec<Dynamic>, res: Result<Dynamic, EvalError>|
            #[trigger] func.effect(args, out, res) && check_1::<Vec<(String, Dynamic)>>(args@)
                is None implies res matches Ok(d) && d@ == Value::Str(
            seq!['#'] + map_debug_text(args@[0]@->Object_0),
        ) by {
            let (x, r) = choose|x: &mut Vec<(String, Dynamic)>, r: Result<String, EvalError>|
                call_ensures(format_map, (x,), r) && receiver_passed(*x, *final(x), args@, out@)
                    && returned_or_failed(r, res);
            lemma_object_content(*x);
        }
    }
    Registration { key, func }
}

/// The registration of `print_nothing` under `name`.
fn nothing_printer(name: &str) -> (item: Registration)
    ensures
        item@.0 == function_key(name@, signature_0()),
        gives_empty(item@.1),
{
    let func = NativeFn::from_result_fn_0(print_nothing);
    let mut params: Vec<String> = Vec::new();
    let key = FnKey::new(FnKind::Function, name, params);
    assert(key@.params =~= signature_0());
    Registration { key, func }
}

/// The registration of `print_unit` under `name`.
fn unit_printer(name: &str) -> (item: Registration)
    ensures
        item@.0 == function_key(name@, signature_1::<()>()),
        gives_empty_for_unit(item@.1),
{
    let func = NativeFn::from_result_fn_1(print_unit);
    let mut params: Vec<String> = Vec::new();
    params.push(<()>::type_tag());
    let key = FnKey::new(FnKind::Function, name, params);
    assert(key@.params =~= signature_1::<()>());
    Registration { key, func }
}

/// The registration of `print_string` under `name`.
fn string_printer(name: &str) -> (item: Registration)
    ensures
        item@.0 == function_key(name@, signature_1::<String>()),
        echoes(item@.1),
{
    let func = NativeFn::from_result_fn_1(print_string);
    let mut params: Vec<String> = Vec::new();
    params.push(<String>::type_tag());
    let key = FnKey::new(FnKind::Function, name, params);
    assert(key@.params =~= signature_1::<String>());
    Registration { key, func }
}

/// The registration of `concat_char` under `name`.
fn char_concatenator(name: &str) -> (item: Registration)
    ensures
        item@.0 == function_key(name@, signature_2::<String, char>()),
        concats_char(item@.1),
{
    let func = NativeFn::from_result_fn_2(concat_char);
    let mut params: Vec<String> = Vec::new();
    params.push(<String>::type_tag());
    params.push(<char>::type_tag());
    let key = FnKey::new(FnKind::Function, name, params);
    assert(key@.params =~= signature_2::<String, char>());
    Registration { key, func }
}

/// The registration of `concat_string` under `name`.
fn concatenator(name: &str) -> (item: Registration)
    ensures
        item@.0 == function_key(name@, signature_2::<String, String>()),
        concats(item@.1),
{
    let func = NativeFn::from_result_fn_2(concat_string);
    let mut params: Vec<String> = Vec::new();
    params.push(<String>::type_tag());
    params.push(<String>::type_tag());
    let key = FnKey::new(FnKind::Function, name, params);
    assert(key@.params =~= signature_2::<String, String>());
    Registration { key, func }
}

/// The registration of `append_char` under `name`.
fn char_appender(name: &str) -> (item: Registration)
    ensures
        item@.0 == function_key(name@, signature_2::<String, char>()),
        appends_char(item@.1),
{
    let func = NativeFn::from_result_method_1(append_char);
    let mut params: Vec<String> = Vec::new();
    params.push(<String>::type_tag());
    params.push(<char>::type_tag());
    let key = FnKey::new(FnKind::Function, name, params);
    assert(key@.params =~= signature_2::<String, char>());
    Registration { key, func }
}

/// The registration of `append` under `name`.
fn appender(name: &str) -> (item: Registration)
    ensures
        item@.0 == function_key(name@, signature_2::<String, String>()),
        appends(item@.1),
{
    let func = NativeFn::from_result_method_1(append);
    let mut params: Vec<String> = Vec::new();
    params.push(<String>::type_tag());
    params.push(<String>::type_tag());
    let key = FnKey::new(FnKind::Function, name, params);
    assert(key@.params =~= signature_2::<String, String>());
    Registration { key, func }
}

/// The name of the concatenation operator.
pub const OP_CONCAT: &'static str = "+";

/// The name of the in-place append.
pub const FUNC_APPEND: &'static str = "append";

/// From `at` on: printing, conversion to a string and debug printing for `T`.
pub open spec fn shown<T: Variant + Display>(members: Seq<(FnKeyView, NativeFn)>, at: int) -> bool {
    &&& prints::<T>(members[at].1)
    &&& prints::<T>(members[at + 1].1)
    &&& debugs::<T>(members[at + 2].1)
}

/// The keys of printing, conversion to a string and debug printing for `T`.
pub open spec fn shown_keys<T: Variant + Display>() -> Seq<FnKeyView> {
    seq![
        function_key(KEYWORD_PRINT@, signature_1::<T>()),
        function_key(FUNC_TO_STRING@, signature_1::<T>()),
        function_key(KEYWORD_DEBUG@, signature_1::<T>()),
    ]
}

/// Adds these registrations to `items`.
fn push_shown<T>(items: &mut Vec<Registration>) where
    T: Variant + Display + Debug + 'static,

    ensures
        final(items)@.len() == old(items)@.len() + 3,
        forall|i: int| 0 <= i < old(items)@.len() ==> final(items)@[i] == old(items)@[i],
        shown::<T>(registrations(final(items)@), old(items)@.len() as int),
        keys_of(registrations(final(items)@)) == keys_of(registrations(old(items)@))
            + shown_keys::<T>(),
{
    items.push(printer::<T>(KEYWORD_PRINT));
    items.push(printer::<T>(FUNC_TO_STRING));
    items.push(debugger::<T>(KEYWORD_DEBUG));
    assert(keys_of(registrations(items@)) =~= keys_of(registrations(old(items)@))
        + shown_keys::<T>());
}

/// From `at` on: printing, conversion to a string and debug printing without
/// arguments and for the unit value, all as the empty string.
pub open spec fn unit_shown(members: Seq<(FnKeyView, NativeFn)>, at: int) -> bool {
    &&& gives_empty(members[at].1)
    &&& gives_empty(members[at + 1].1)
    &&& gives_empty(members[at + 2].1)
    &&& gives_empty_for_unit(members[at + 3].1)
    &&& gives_empty_for_unit(members[at + 4].1)
    &&& gives_empty_for_unit(members[at + 5].1)
}

/// The keys of printing, conversion to a string and debug printing without
/// arguments and for the unit value, all as the empty string.
pub open spec fn unit_shown_keys() -> Seq<FnKeyView> {
    seq![
        function_key(KEYWORD_PRINT@, signature_0()),
        function_key(FUNC_TO_STRING@, signature_0()),
        function_key(KEYWORD_DEBUG@, signature_0()),
        function_key(KEYWORD_PRINT@, signature_1::<()>()),
        function_key(FUNC_TO_STRING@, signature_1::<()>()),
        function_key(KEYWORD_DEBUG@, signature_1::<()>()),
    ]
}

/// Adds these registrations to `items`.
fn push_unit(items: &mut Vec<Registration>)
    ensures
        final(items)@.len() == old(items)@.len() + 6,
        forall|i: int| 0 <= i < old(items)@.len() ==> final(items)@[i] == old(items)@[i],
        unit_shown(registrations(final(items)@), old(items)@.len() as int),
        keys_of(registrations(final(items)@)) == keys_of(registrations(old(items)@))
            + unit_shown_keys(),
{
    items.push(nothing_printer(KEYWORD_PRINT));
    items.push(nothing_printer(FUNC_TO_STRING));
    items.push(nothing_printer(KEYWORD_DEBUG));
    items.push(unit_printer(KEYWORD_PRINT));
    items.push(unit_printer(FUNC_TO_STRING));
    items.push(unit_printer(KEYWORD_DEBUG));
    assert(keys_of(registrations(items@)) =~= keys_of(registrations(old(items)@))
        + unit_shown_keys());
}

/// From `at` on: printing, conversion to a string and debug printing for
/// strings.
pub open spec fn string_shown(members: Seq<(FnKeyView, NativeFn)>, at: int) -> bool {
    &&& echoes(members[at].1)
    &&& echoes(members[at + 1].1)
    &&& debugs::<String>(members[at + 2].1)
}

/// The keys of printing, conversion to a string and debug printing for
/// strings.
pub open spec fn string_shown_keys() -> Seq<FnKeyView> {
    seq![
        function_key(KEYWORD_PRINT@, signature_1::<String>()),
        function_key(FUNC_TO_STRING@, signature_1::<String>()),
        function_key(KEYWORD_DEBUG@, signature_1::<String>()),
    ]
}

/// Adds these registrations to `items`.
fn push_string(items: &mut Vec<Registration>)
    ensures
        final(items)@.len() == old(items)@.len() + 3,
        forall|i: int| 0 <= i < old(items)@.len() ==> final(items)@[i] == old(items)@[i],
        string_shown(registrations(final(items)@), old(items)@.len() as int),
        keys_of(registrations(final(items)@)) == keys_of(registrations(old(items)@))
            + string_shown_keys(),
{
    items.push(string_printer(KEYWORD_PRINT));
    items.push(string_printer(FUNC_TO_STRING));
    items.push(debugger::<String>(KEYWORD_DEBUG));
    assert(keys_of(registrations(items@)) =~= keys_of(registrations(old(items)@))
        + string_shown_keys());
}

/// From `at` on: concatenation and in-place append of a character or a string
/// to a string.
pub open spec fn string_joined(members: Seq<(FnKeyView, NativeFn)>, at: int) -> bool {
    &&& concats_char(members[at].1)
    &&& concats(members[at + 1].1)
    &&& appends_char(members[at + 2].1)
    &&& appends(members[at + 3].1)
}

/// The keys of concatenation and in-place append of a character or a string
/// to a string.
pub open spec fn string_joined_keys() -> Seq<FnKeyView> {
    seq![
        function_key(OP_CONCAT@, signature_2::<String, char>()),
        function_key(OP_CONCAT@, signature_2::<String, String>()),
        function_key(FUNC_APPEND@, signature_2::<String, char>()),
        function_key(FUNC_APPEND@, signature_2::<String, String>()),
    ]
}

/// Adds these registrations to `items`.
fn push_joined(items: &mut Vec<Registration>)
    ensures
        final(items)@.len() == old(items)@.len() + 4,
        forall|i: int| 0 <= i < old(items)@.len() ==> final(items)@[i] == old(items)@[i],
        string_joined(registrations(final(items)@), old(items)@.len() as int),
        keys_of(registrations(final(items)@)) == keys_of(registrations(old(items)@))
            + string_joined_keys(),
{
    items.push(char_concatenator(OP_CONCAT));
    items.push(concatenator(OP_CONCAT));
    items.push(char_appender(FUNC_APPEND));
    items.push(appender(FUNC_APPEND));
    assert(keys_of(registrations(items@)) =~= keys_of(registrations(old(items)@))
        + string_joined_keys());
}

/// From `at` on: printing, conversion to a string and debug printing for
/// arrays, all three by the debug text.
pub open spec fn array_shown(members: Seq<(FnKeyView, NativeFn)>, at: int) -> bool {
    &&& debugs::<Vec<Dynamic>>(members[at].1)
    &&& debugs::<Vec<Dynamic>>(members[at + 1].1)
    &&& debugs::<Vec<Dynamic>>(members[at + 2].1)
}

/// The keys of printing, conversion to a string and debug printing for
/// arrays, all three by the debug text.
pub open spec fn array_shown_keys() -> Seq<FnKeyView> {
    seq![
        function_key(KEYWORD_PRINT@, signature_1::<Vec<Dynamic>>()),
        function_key(FUNC_TO_STRING@, signature_1::<Vec<Dynamic>>()),
        function_key(KEYWORD_DEBUG@, signature_1::<Vec<Dynamic>>()),
    ]
}

/// Adds these registrations to `items`.
fn push_array(items: &mut Vec<Registration>)
    ensures
        final(items)@.len() == old(items)@.len() + 3,
        forall|i: int| 0 <= i < old(items)@.len() ==> final(items)@[i] == old(items)@[i],
        array_shown(registrations(final(items)@), old(items)@.len() as int),
        keys_of(registrations(final(items)@)) == keys_of(registrations(old(items)@))
            + array_shown_keys(),
{
    items.push(debugger::<Vec<Dynamic>>(KEYWORD_PRINT));
    items.push(debugger::<Vec<Dynamic>>(FUNC_TO_STRING));
    items.push(debugger::<Vec<Dynamic>>(KEYWORD_DEBUG));
    assert(keys_of(registrations(items@)) =~= keys_of(registrations(old(items)@))
        + array_shown_keys());
}

/// From `at` on: printing, conversion to a string and debug printing for
/// object maps, all three with the marker.
pub open spec fn map_shown(members: Seq<(FnKeyView, NativeFn)>, at: int) -> bool {
    &&& marks_map(members[at].1)
    &&& marks_map(members[at + 1].1)
    &&& marks_map(members[at + 2].1)
}

/// The keys of printing, conversion to a string and debug printing for
/// object maps, all three with the marker.
pub open spec fn map_shown_keys() -> Seq<FnKeyView> {
    seq![
        function_key(KEYWORD_PRINT@, signature_1::<Vec<(String, Dynamic)>>()),
        function_key(FUNC_TO_STRING@, signature_1::<Vec<(String, Dynamic)>>()),
        function_key(KEYWORD_DEBUG@, signature_1::<Vec<(String, Dynamic)>>()),
    ]
}

/// Adds these registrations to `items`.
fn push_map(items: &mut Vec<Registration>)
    ensures
        final(items)@.len() == old(items)@.len() + 3,
        forall|i: int| 0 <= i < old(items)@.len() ==> final(items)@[i] == old(items)@[i],
        map_shown(registrations(final(items)@), old(items)@.len() as int),
        keys_of(registrations(final(items)@)) == keys_of(registrations(old(items)@))
            + map_shown_keys(),
{
    items.push(map_formatter(KEYWORD_PRINT));
    items.push(map_formatter(FUNC_TO_STRING));
    items.push(map_formatter(KEYWORD_DEBUG));
    assert(keys_of(registrations(items@)) =~= keys_of(registrations(old(items)@))
        + map_shown_keys());
}

/// From `at` on: printing, conversion to a string and debug printing for the
/// integers of every width other than the runtime's own.
pub open spec fn sized_shown(members: Seq<(FnKeyView, NativeFn)>, at: int) -> bool {
    &&& shown::<i8>(members, at)
    &&& shown::<u8>(members, at + 3)
    &&& shown::<i16>(members, at + 6)
    &&& shown::<u16>(members, at + 9)
    &&& shown::<i32>(members, at + 12)
    &&& shown::<u32>(members, at + 15)
    &&& shown::<u64>(members, at + 18)
    &&& shown::<i128>(members, at + 21)
    &&& shown::<u128>(members, at + 24)
}

/// The keys of printing, conversion to a string and debug printing for the
/// integers of every width other than the runtime's own.
pub open spec fn sized_shown_keys() -> Seq<FnKeyView> {
    shown_keys::<i8>()
        + shown_keys::<u8>()
        + shown_keys::<i16>()
        + shown_keys::<u16>()
        + shown_keys::<i32>()
        + shown_keys::<u32>()
        + shown_keys::<u64>()
        + shown_keys::<i128>()
        + shown_keys::<u128>()
}

/// Adds these registrations to `items`.
fn push_sized(items: &mut Vec<Registration>)
    ensures
        final(items)@.len() == old(items)@.len() + 27,
        forall|i: int| 0 <= i < old(items)@.len() ==> final(items)@[i] == old(items)@[i],
        sized_shown(registrations(final(items)@), old(items)@.len() as int),
        keys_of(registrations(final(items)@)) == keys_of(registrations(old(items)@))
            + sized_shown_keys(),
{
    push_shown::<i8>(items);
    push_shown::<u8>(items);
    push_shown::<i16>(items);
    push_shown::<u16>(items);
    push_shown::<i32>(items);
    push_shown::<u32>(items);
    push_shown::<u64>(items);
    push_shown::<i128>(items);
    push_shown::<u128>(items);
    assert(keys_of(registrations(items@)) =~= keys_of(registrations(old(items)@))
        + sized_shown_keys());
}

/// Which optional types of the runtime a package registers for.
#[derive(Clone, Copy, Debug, PartialEq, Eq, Structural)]
pub struct Features {
    /// Integers of the widths other than the runtime's own.
    pub sized_integers: bool,
    /// Arrays.
    pub arrays: bool,
    /// Object maps.
    pub object_maps: bool,
}

impl Features {
    /// Every optional type.
    pub fn all() -> (f: Features)
        ensures
            f.sized_integers && f.arrays && f.object_maps,
    {
        Features { sized_integers: true, arrays: true, object_maps: true }
    }

    /// No optional type.
    pub fn none() -> (f: Features)
        ensures
            !f.sized_integers && !f.arrays && !f.object_maps,
    {
        Features { sized_integers: false, arrays: false, object_maps: false }
    }

    /// Where the entries for the sized integers start, if there are any.
    pub open spec fn sized_at(self) -> int {
        22
    }

    /// Where the entries for arrays start, if there are any.
    pub open spec fn arrays_at(self) -> int {
        self.sized_at() + if self.sized_integers {
            27int
        } else {
            0int
        }
    }

    /// Where the entries for object maps start, if there are any.
    pub open spec fn maps_at(self) -> int {
        self.arrays_at() + if self.arrays {
            3int
        } else {
            0int
        }
    }

    /// The number of entries.
    pub open spec fn count(self) -> int {
        self.maps_at() + if self.object_maps {
            3int
        } else {
            0int
        }
    }
}

/// Basic string utilities, including printing.
pub struct BasicStringPackage {
    pub features: Features,
}

impl BasicStringPackage {
    /// The package for a runtime with these optional types.
    pub fn new(features: Features) -> (p: BasicStringPackage)
        ensures
            p.features == features,
    {
        BasicStringPackage { features }
    }
}

/// What the functions that the package registers for a runtime with
/// `features` do: printing for the runtime's integers, booleans and
/// characters, for the unit value and for strings, then the string operations,
/// then printing for each optional type that the runtime has.
pub open spec fn basic_strings(features: Features, members: Seq<(FnKeyView, NativeFn)>) -> bool {
    &&& members.len() == features.count()
    &&& shown::<i64>(members, 0)
    &&& shown::<bool>(members, 3)
    &&& shown::<char>(members, 6)
    &&& unit_shown(members, 9)
    &&& string_shown(members, 15)
    &&& string_joined(members, 18)
    &&& features.sized_integers ==> sized_shown(members, features.sized_at())
    &&& features.arrays ==> array_shown(members, features.arrays_at())
    &&& features.object_maps ==> map_shown(members, features.maps_at())
}

/// The keys under which the package registers for a runtime with `features`,
/// in order.
pub open spec fn basic_string_keys(features: Features) -> Seq<FnKeyView> {
    shown_keys::<i64>() + shown_keys::<bool>() + shown_keys::<char>() + unit_shown_keys()
        + string_shown_keys() + string_joined_keys() + (if features.sized_integers {
        sized_shown_keys()
    } else {
        Seq::empty()
    }) + (if features.arrays {
        array_shown_keys()
    } else {
        Seq::empty()
    }) + (if features.object_maps {
        map_shown_keys()
    } else {
        Seq::empty()
    })
}

impl Package for BasicStringPackage {
    open spec fn keys(&self) -> Seq<FnKeyView> {
        basic_string_keys(self.features)
    }

    open spec fn describes(&self, members: Seq<(FnKeyView, NativeFn)>) -> bool {
        basic_strings(self.features, members)
    }

    open spec fn spec_name(&self) -> Seq<char> {
        "BasicStringPackage"@
    }

    open spec fn spec_description(&self) -> Seq<char> {
        "Basic string utilities, including printing."@
    }

    fn name(&self) -> (name: String) {
        "BasicStringPackage".to_owned()
    }

    fn description(&self) -> (line: String) {
        "Basic string utilities, including printing.".to_owned()
    }

    fn members(&self) -> (items: Vec<Registration>) {
        let mut items: Vec<Registration> = Vec::new();
        push_shown::<i64>(&mut items);
        push_shown::<bool>(&mut items);
        push_shown::<char>(&mut items);
        push_unit(&mut items);
        push_string(&mut items);
        push_joined(&mut items);
        if self.features.sized_integers {
            push_sized(&mut items);
        }
        if self.features.arrays {
            push_array(&mut items);
        }
        if self.features.object_maps {
            push_map(&mut items);
        }
        assert(keys_of(registrations(items@)) =~= basic_string_keys(self.features));
        items
    }

    fn init(&self, lib: &mut Module) {
        let items = self.members();
        lib.install(items);
    }
}

} // verus!
