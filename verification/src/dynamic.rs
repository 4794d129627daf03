//! The dynamic value: what the runtime passes to native functions and gets
//! back from them.
use vstd::prelude::*;

verus! {

/// An integer of a width other than the runtime's own integer type.
#[derive(Clone, Copy, Debug, PartialEq, Eq, Structural)]
pub enum SizedInt {
    I8(i8),
    U8(u8),
    I16(i16),
    U16(u16),
    I32(i32),
    U32(u32),
    U64(u64),
    I128(i128),
    U128(u128),
}

/// A value of any type the runtime can hold.
#[derive(Debug, PartialEq, Eq)]
pub enum Dynamic {
    Unit,
    Bool(bool),
    Int(i64),
    Char(char),
    Str(String),
    Sized(SizedInt),
    Array(Vec<Dynamic>),
    /// An object map: its entries in insertion order.
    Object(Vec<(String, Dynamic)>),
    /// A value of a native type of the host: the type's name and its fields.
    Native(String, Vec<Dynamic>),
}

/// The mathematical content of a [`Dynamic`].
pub enum Value {
    Unit,
    Bool(bool),
    Int(i64),
    Char(char),
    Str(Seq<char>),
    Sized(SizedInt),
    Array(Seq<Value>),
    Object(Seq<(Seq<char>, Value)>),
    Native(Seq<char>, Seq<Value>),
}

impl SizedInt {
    /// The name of the width's type.
    pub open spec fn spec_type_tag(self) -> Seq<char> {
        match self {
            SizedInt::I8(_) => "i8"@,
            SizedInt::U8(_) => "u8"@,
            SizedInt::I16(_) => "i16"@,
            SizedInt::U16(_) => "u16"@,
            SizedInt::I32(_) => "i32"@,
            SizedInt::U32(_) => "u32"@,
            SizedInt::U64(_) => "u64"@,
            SizedInt::I128(_) => "i128"@,
            SizedInt::U128(_) => "u128"@,
        }
    }

    /// The name of the width's type.
    pub fn type_tag(&self) -> (name: String)
        ensures
            name@ == self.spec_type_tag(),
    {
        match self {
            SizedInt::I8(_) => "i8".to_owned(),
            SizedInt::U8(_) => "u8".to_owned(),
            SizedInt::I16(_) => "i16".to_owned(),
            SizedInt::U16(_) => "u16".to_owned(),
            SizedInt::I32(_) => "i32".to_owned(),
            SizedInt::U32(_) => "u32".to_owned(),
            SizedInt::U64(_) => "u64".to_owned(),
            SizedInt::I128(_) => "i128".to_owned(),
            SizedInt::U128(_) => "u128".to_owned(),
        }
    }
}

impl Value {
    /// The name of the type of the value held: the run-time type identity.
    pub open spec fn type_tag(self) -> Seq<char> {
        match self {
            Value::Unit => "()"@,
            Value::Bool(_) => "bool"@,
            Value::Int(_) => "i64"@,
            Value::Char(_) => "char"@,
            Value::Str(_) => "string"@,
            Value::Sized(n) => n.spec_type_tag(),
            Value::Array(_) => "array"@,
            Value::Object(_) => "map"@,
            Value::Native(name, _) => name,
        }
    }
}

/// The contents of a sequence of dynamic values.
pub open spec fn values(items: Seq<Dynamic>) -> Seq<Value> {
    Seq::new(items.len(), |i: int| items[i]@)
}

/// The contents of the entries of an object map.
pub open spec fn entry_values(entries: Seq<(String, Dynamic)>) -> Seq<(Seq<char>, Value)> {
    Seq::new(entries.len(), |i: int| (entries[i].0@, entries[i].1@))
}

/// The type tags of a sequence of values, in order.
pub open spec fn type_tags(items: Seq<Value>) -> Seq<Seq<char>> {
    Seq::new(items.len(), |i: int| items[i].type_tag())
}

impl View for Dynamic {
    type V = Value;

    open spec fn view(&self) -> Value {
        self.content()
    }
}

impl Dynamic {
    /// The mathematical content: the same value with every string and every
    /// list inside it as a sequence.
    pub open spec fn content(&self) -> Value
        decreases self,
    {
        match self {
            Dynamic::Unit => Value::Unit,
            Dynamic::Bool(b) => Value::Bool(*b),
            Dynamic::Int(i) => Value::Int(*i),
            Dynamic::Char(c) => Value::Char(*c),
            Dynamic::Str(s) => Value::Str(s@),
            Dynamic::Sized(n) => Value::Sized(*n),
            Dynamic::Array(items) => Value::Array(
                Seq::new(
                    items@.len(),
                    |i: int|
                        if 0 <= i < items@.len() {
                            items@[i].content()
                        } else {
                            Value::Unit
                        },
                ),
            ),
            Dynamic::Object(entries) => Value::Object(
                Seq::new(
                    entries@.len(),
                    |i: int|
                        if 0 <= i < entries@.len() {
                            (entries@[i].0@, entries@[i].1.content())
                        } else {
                            (Seq::empty(), Value::Unit)
                        },
                ),
            ),
            Dynamic::Native(name, fields) => Value::Native(
                name@,
                Seq::new(
                    fields@.len(),
                    |i: int|
                        if 0 <= i < fields@.len() {
                            fields@[i].content()
                        } else {
                            Value::Unit
                        },
                ),
            ),
        }
    }
}

/// An array holds the contents of its items, in order.
pub proof fn lemma_array_content(items: Vec<Dynamic>)
    ensures
        Dynamic::Array(items)@ == Value::Array(values(items@)),
{
    reveal_with_fuel(Dynamic::content, 2);
    assert(Dynamic::Array(items)@->Array_0 =~= values(items@));
}

/// An object map holds the contents of its entries, in order.
pub proof fn lemma_object_content(entries: Vec<(String, Dynamic)>)
    ensures
        Dynamic::Object(entries)@ == Value::Object(entry_values(entries@)),
{
    reveal_with_fuel(Dynamic::content, 2);
    assert(Dynamic::Object(entries)@->Object_0 =~= entry_values(entries@));
}

/// A native value holds its type's name and the contents of its fields, in
/// order.
pub proof fn lemma_native_content(name: String, fields: Vec<Dynamic>)
    ensures
        Dynamic::Native(name, fields)@ == Value::Native(name@, values(fields@)),
{
    reveal_with_fuel(Dynamic::content, 2);
    assert(Dynamic::Native(name, fields)@->Native_1 =~= values(fields@));
}

/// A copy of a list of dynamic values, item by item.
#[verifier::loop_isolation(false)]
pub fn duplicate_all(items: &Vec<Dynamic>) -> (copy: Vec<Dynamic>)
    ensures
        copy@.len() == items@.len(),
        forall|i: int| 0 <= i < items@.len() ==> copy@[i]@ == items@[i]@,
        values(copy@) == values(items@),
    decreases items,
{
    let mut copy: Vec<Dynamic> = Vec::new();
    let mut i: usize = 0;
    while i < items.len()
        invariant
            i <= items.len(),
            copy@.len() == i,
            forall|j: int| 0 <= j < i ==> copy@[j]@ == items@[j]@,
        decreases items.len() - i,
    {
        let item = items[i].duplicate();
        copy.push(item);
        i = i + 1;
    }
    assert(values(copy@) =~= values(items@));
    copy
}

impl Dynamic {
    /// The dynamic value that holds a character.
    pub fn from_char(c: char) -> (d: Dynamic)
        ensures
            d@ == Value::Char(c),
    {
        Dynamic::Char(c)
    }

    /// The dynamic value that holds a value of the native type `name` with
    /// these fields.
    pub fn native(name: &str, fields: Vec<Dynamic>) -> (d: Dynamic)
        ensures
            d@ == Value::Native(name@, values(fields@)),
    {
        let owned = name.to_owned();
        proof {
            lemma_native_content(owned, fields);
        }
        Dynamic::Native(owned, fields)
    }

    /// The fields of a value of the native type `name`; `None` where the
    /// value is of another type.
    pub fn native_fields(&self, name: &str) -> (r: Option<&Vec<Dynamic>>)
        ensures
            r is Some <==> (self@ matches Value::Native(n, _) && n == name@),
            r matches Some(fields) ==> self@ == Value::Native(name@, values(fields@)),
    {
        match self {
            Dynamic::Native(held, fields) => {
                if *held == name.to_owned() {
                    proof {
                        lemma_native_content(*held, *fields);
                    }
                    Some(fields)
                } else {
                    None
                }
            },
            _ => None,
        }
    }

    /// The integer held; `None` where the value is no integer of the
    /// runtime's own width.
    pub fn as_int(&self) -> (r: Option<i64>)
        ensures
            r is Some <==> self@ is Int,
            r matches Some(i) ==> self@ == Value::Int(i),
    {
        match self {
            Dynamic::Int(i) => Some(*i),
            _ => None,
        }
    }

    /// The name of the type of the value held.
    pub fn type_tag(&self) -> (name: String)
        ensures
            name@ == self@.type_tag(),
    {
        match self {
            Dynamic::Unit => "()".to_owned(),
            Dynamic::Bool(_) => "bool".to_owned(),
            Dynamic::Int(_) => "i64".to_owned(),
            Dynamic::Char(_) => "char".to_owned(),
            Dynamic::Str(_) => "string".to_owned(),
            Dynamic::Sized(n) => n.type_tag(),
            Dynamic::Array(_) => "array".to_owned(),
            Dynamic::Object(_) => "map".to_owned(),
            Dynamic::Native(name, _) => name.clone(),
        }
    }

    /// A copy with the same content.
    #[verifier::loop_isolation(false)]
    pub fn duplicate(&self) -> (copy: Dynamic)
        ensures
            copy@ == self@,
        decreases self,
    {
        match self {
            Dynamic::Unit => Dynamic::Unit,
            Dynamic::Bool(b) => Dynamic::Bool(*b),
            Dynamic::Int(i) => Dynamic::Int(*i),
            Dynamic::Char(c) => Dynamic::Char(*c),
            Dynamic::Str(s) => Dynamic::Str(s.clone()),
            Dynamic::Sized(n) => Dynamic::Sized(*n),
            Dynamic::Array(items) => {
                let copy = Dynamic::Array(duplicate_all(items));
                assert(copy@->Array_0 =~= self@->Array_0);
                copy
            },
            Dynamic::Object(entries) => {
                let mut out: Vec<(String, Dynamic)> = Vec::new();
                let mut i: usize = 0;
                while i < entries.len()
                    invariant
                        i <= entries.len(),
                        out@.len() == i,
                        forall|j: int|
                            0 <= j < i ==> out@[j].0@ == entries@[j].0@ && out@[j].1@
                                == entries@[j].1@,
                    decreases entries.len() - i,
                {
                    let key = entries[i].0.clone();
                    let item = entries[i].1.duplicate();
                    out.push((key, item));
                    i = i + 1;
                }
                let copy = Dynamic::Object(out);
                assert(copy@->Object_0 =~= self@->Object_0);
                copy
            },
            Dynamic::Native(name, fields) => {
                let copy = Dynamic::Native(name.clone(), duplicate_all(fields));
                assert(copy@->Native_1 =~= self@->Native_1);
                copy
            },
        }
    }
}

impl Clone for Dynamic {
    /// A copy with the same content.
    fn clone(&self) -> (copy: Self)
        ensures
            copy@ == self@,
    {
        self.duplicate()
    }
}

} // verus!
