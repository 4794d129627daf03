//! Conversion between native types and the dynamic value.
use crate::dynamic::{duplicate_all, lemma_array_content, Dynamic, SizedInt, Value};
use vstd::prelude::*;

verus! {

/// A native type whose values the runtime can hold: one that can be shared
/// between threads.
///
/// A type says under which tag its values are identified at run time, which
/// dynamic value stands for each of them, and which dynamic values it
/// recognises as its own. Turning a value into a dynamic value and back
/// gives the value again.
pub trait Variant: Sized + Send + Sync {
    /// The tag under which values of this type are identified at run time.
    /// A type that does not say has a tag of which nothing is known.
    open spec fn spec_type_tag() -> Seq<char> {
        arbitrary()
    }

    /// The content of the dynamic value that stands for `self`.
    open spec fn encode(self) -> Value {
        arbitrary()
    }

    /// Whether a dynamic value with this content holds a value of this type.
    open spec fn admits(v: Value) -> bool {
        arbitrary()
    }

    /// The tag under which values of this type are identified at run time.
    fn type_tag() -> (tag: String)
        ensures
            tag@ == Self::spec_type_tag(),
    ;

    /// Wraps a native value.
    fn into_dynamic(self) -> (d: Dynamic)
        ensures
            d@ == self.encode(),
            d@.type_tag() == Self::spec_type_tag(),
            Self::admits(d@),
    ;

    /// Takes the native value out of a dynamic value that holds one of this
    /// type; `None` for every other dynamic value.
    fn from_dynamic(d: &Dynamic) -> (r: Option<Self>)
        ensures
            r is Some <==> Self::admits(d@),
            r matches Some(x) ==> x.encode() == d@,
    ;
}

impl Variant for () {
    open spec fn spec_type_tag() -> Seq<char> {
        "()"@
    }

    open spec fn encode(self) -> Value {
        Value::Unit
    }

    open spec fn admits(v: Value) -> bool {
        v is Unit
    }

    fn type_tag() -> (tag: String) {
        "()".to_owned()
    }

    fn into_dynamic(self) -> (d: Dynamic) {
        Dynamic::Unit
    }

    fn from_dynamic(d: &Dynamic) -> (r: Option<Self>) {
        match d {
            Dynamic::Unit => Some(()),
            _ => None,
        }
    }
}

impl Variant for bool {
    open spec fn spec_type_tag() -> Seq<char> {
        "bool"@
    }

    open spec fn encode(self) -> Value {
        Value::Bool(self)
    }

    open spec fn admits(v: Value) -> bool {
        v is Bool
    }

    fn type_tag() -> (tag: String) {
        "bool".to_owned()
    }

    fn into_dynamic(self) -> (d: Dynamic) {
        Dynamic::Bool(self)
    }

    fn from_dynamic(d: &Dynamic) -> (r: Option<Self>) {
        match d {
            Dynamic::Bool(x) => Some(*x),
            _ => None,
        }
    }
}

impl Variant for i64 {
    open spec fn spec_type_tag() -> Seq<char> {
        "i64"@
    }

    open spec fn encode(self) -> Value {
        Value::Int(self)
    }

    open spec fn admits(v: Value) -> bool {
        v is Int
    }

    fn type_tag() -> (tag: String) {
        "i64".to_owned()
    }

    fn into_dynamic(self) -> (d: Dynamic) {
        Dynamic::Int(self)
    }

    fn from_dynamic(d: &Dynamic) -> (r: Option<Self>) {
        match d {
            Dynamic::Int(x) => Some(*x),
            _ => None,
        }
    }
}

impl Variant for char {
    open spec fn spec_type_tag() -> Seq<char> {
        "char"@
    }

    open spec fn encode(self) -> Value {
        Value::Char(self)
    }

    open spec fn admits(v: Value) -> bool {
        v is Char
    }

    fn type_tag() -> (tag: String) {
        "char".to_owned()
    }

    fn into_dynamic(self) -> (d: Dynamic) {
        Dynamic::from_char(self)
    }

    fn from_dynamic(d: &Dynamic) -> (r: Option<Self>) {
        match d {
            Dynamic::Char(x) => Some(*x),
            _ => None,
        }
    }
}

impl Variant for String {
    open spec fn spec_type_tag() -> Seq<char> {
        "string"@
    }

    open spec fn encode(self) -> Value {
        Value::Str(self@)
    }

    open spec fn admits(v: Value) -> bool {
        v is Str
    }

    fn type_tag() -> (tag: String) {
        "string".to_owned()
    }

    fn into_dynamic(self) -> (d: Dynamic) {
        Dynamic::Str(self)
    }

    fn from_dynamic(d: &Dynamic) -> (r: Option<Self>) {
        match d {
            Dynamic::Str(s) => Some(s.clone()),
            _ => None,
        }
    }
}

impl Variant for i8 {
    open spec fn spec_type_tag() -> Seq<char> {
        "i8"@
    }

    open spec fn encode(self) -> Value {
        Value::Sized(SizedInt::I8(self))
    }

    open spec fn admits(v: Value) -> bool {
        v matches Value::Sized(SizedInt::I8(_))
    }

    fn type_tag() -> (tag: String) {
        "i8".to_owned()
    }

    fn into_dynamic(self) -> (d: Dynamic) {
        Dynamic::Sized(SizedInt::I8(self))
    }

    fn from_dynamic(d: &Dynamic) -> (r: Option<Self>) {
        match d {
            Dynamic::Sized(SizedInt::I8(x)) => Some(*x),
            _ => None,
        }
    }
}

impl Variant for u8 {
    open spec fn spec_type_tag() -> Seq<char> {
        "u8"@
    }

    open spec fn encode(self) -> Value {
        Value::Sized(SizedInt::U8(self))
    }

    open spec fn admits(v: Value) -> bool {
        v matches Value::Sized(SizedInt::U8(_))
    }

    fn type_tag() -> (tag: String) {
        "u8".to_owned()
    }

    fn into_dynamic(self) -> (d: Dynamic) {
        Dynamic::Sized(SizedInt::U8(self))
    }

    fn from_dynamic(d: &Dynamic) -> (r: Option<Self>) {
        match d {
            Dynamic::Sized(SizedInt::U8(x)) => Some(*x),
            _ => None,
        }
    }
}

impl Variant for i16 {
    open spec fn spec_type_tag() -> Seq<char> {
        "i16"@
    }

    open spec fn encode(self) -> Value {
        Value::Sized(SizedInt::I16(self))
    }

    open spec fn admits(v: Value) -> bool {
        v matches Value::Sized(SizedInt::I16(_))
    }

    fn type_tag() -> (tag: String) {
        "i16".to_owned()
    }

    fn into_dynamic(self) -> (d: Dynamic) {
        Dynamic::Sized(SizedInt::I16(self))
    }

    fn from_dynamic(d: &Dynamic) -> (r: Option<Self>) {
        match d {
            Dynamic::Sized(SizedInt::I16(x)) => Some(*x),
            _ => None,
        }
    }
}

impl Variant for u16 {
    open spec fn spec_type_tag() -> Seq<char> {
        "u16"@
    }

    open spec fn encode(self) -> Value {
        Value::Sized(SizedInt::U16(self))
    }

    open spec fn admits(v: Value) -> bool {
        v matches Value::Sized(SizedInt::U16(_))
    }

    fn type_tag() -> (tag: String) {
        "u16".to_owned()
    }

    fn into_dynamic(self) -> (d: Dynamic) {
        Dynamic::Sized(SizedInt::U16(self))
    }

    fn from_dynamic(d: &Dynamic) -> (r: Option<Self>) {
        match d {
            Dynamic::Sized(SizedInt::U16(x)) => Some(*x),
            _ => None,
        }
    }
}

impl Variant for i32 {
    open spec fn spec_type_tag() -> Seq<char> {
        "i32"@
    }

    open spec fn encode(self) -> Value {
        Value::Sized(SizedInt::I32(self))
    }

    open spec fn admits(v: Value) -> bool {
        v matches Value::Sized(SizedInt::I32(_))
    }

    fn type_tag() -> (tag: String) {
        "i32".to_owned()
    }

    fn into_dynamic(self) -> (d: Dynamic) {
        Dynamic::Sized(SizedInt::I32(self))
    }

    fn from_dynamic(d: &Dynamic) -> (r: Option<Self>) {
        match d {
            Dynamic::Sized(SizedInt::I32(x)) => Some(*x),
            _ => None,
        }
    }
}

impl Variant for u32 {
    open spec fn spec_type_tag() -> Seq<char> {
        "u32"@
    }

    open spec fn encode(self) -> Value {
        Value::Sized(SizedInt::U32(self))
    }

    open spec fn admits(v: Value) -> bool {
        v matches Value::Sized(SizedInt::U32(_))
    }

    fn type_tag() -> (tag: String) {
        "u32".to_owned()
    }

    fn into_dynamic(self) -> (d: Dynamic) {
        Dynamic::Sized(SizedInt::U32(self))
    }

    fn from_dynamic(d: &Dynamic) -> (r: Option<Self>) {
        match d {
            Dynamic::Sized(SizedInt::U32(x)) => Some(*x),
            _ => None,
        }
    }
}

impl Variant for u64 {
    open spec fn spec_type_tag() -> Seq<char> {
        "u64"@
    }

    open spec fn encode(self) -> Value {
        Value::Sized(SizedInt::U64(self))
    }

    open spec fn admits(v: Value) -> bool {
        v matches Value::Sized(SizedInt::U64(_))
    }

    fn type_tag() -> (tag: String) {
        "u64".to_owned()
    }

    fn into_dynamic(self) -> (d: Dynamic) {
        Dynamic::Sized(SizedInt::U64(self))
    }

    fn from_dynamic(d: &Dynamic) -> (r: Option<Self>) {
        match d {
            Dynamic::Sized(SizedInt::U64(x)) => Some(*x),
            _ => None,
        }
    }
}

impl Variant for i128 {
    open spec fn spec_type_tag() -> Seq<char> {
        "i128"@
    }

    open spec fn encode(self) -> Value {
        Value::Sized(SizedInt::I128(self))
    }

    open spec fn admits(v: Value) -> bool {
        v matches Value::Sized(SizedInt::I128(_))
    }

    fn type_tag() -> (tag: String) {
        "i128".to_owned()
    }

    fn into_dynamic(self) -> (d: Dynamic) {
        Dynamic::Sized(SizedInt::I128(self))
    }

    fn from_dynamic(d: &Dynamic) -> (r: Option<Self>) {
        match d {
            Dynamic::Sized(SizedInt::I128(x)) => Some(*x),
            _ => None,
        }
    }
}

impl Variant for u128 {
    open spec fn spec_type_tag() -> Seq<char> {
        "u128"@
    }

    open spec fn encode(self) -> Value {
        Value::Sized(SizedInt::U128(self))
    }

    open spec fn admits(v: Value) -> bool {
        v matches Value::Sized(SizedInt::U128(_))
    }

    fn type_tag() -> (tag: String) {
        "u128".to_owned()
    }

    fn into_dynamic(self) -> (d: Dynamic) {
        Dynamic::Sized(SizedInt::U128(self))
    }

    fn from_dynamic(d: &Dynamic) -> (r: Option<Self>) {
        match d {
            Dynamic::Sized(SizedInt::U128(x)) => Some(*x),
            _ => None,
        }
    }
}

/// An array of the runtime.
impl Variant for Vec<Dynamic> {
    open spec fn spec_type_tag() -> Seq<char> {
        "array"@
    }

    open spec fn encode(self) -> Value {
        Dynamic::Array(self)@
    }

    open spec fn admits(v: Value) -> bool {
        v is Array
    }

    fn type_tag() -> (tag: String) {
        "array".to_owned()
    }

    fn into_dynamic(self) -> (d: Dynamic) {
        Dynamic::Array(self)
    }

    fn from_dynamic(d: &Dynamic) -> (r: Option<Self>) {
        match d {
            Dynamic::Array(items) => {
                let copy = duplicate_all(items);
                proof {
                    lemma_array_content(copy);
                    lemma_array_content(*items);
                }
                Some(copy)
            },
            _ => None,
        }
    }
}

/// An object map of the runtime.
impl Variant for Vec<(String, Dynamic)> {
    open spec fn spec_type_tag() -> Seq<char> {
        "map"@
    }

    open spec fn encode(self) -> Value {
        Dynamic::Object(self)@
    }

    open spec fn admits(v: Value) -> bool {
        v is Object
    }

    fn type_tag() -> (tag: String) {
        "map".to_owned()
    }

    fn into_dynamic(self) -> (d: Dynamic) {
        Dynamic::Object(self)
    }

    fn from_dynamic(d: &Dynamic) -> (r: Option<Self>) {
        match d {
            Dynamic::Object(_) => {
                match d.duplicate() {
                    Dynamic::Object(entries) => Some(entries),
                    _ => None,
                }
            },
            _ => None,
        }
    }
}

} // verus!
