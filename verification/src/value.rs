//! The two shapes of a value: the dynamic value that the engine works with, and
//! the flat value that crosses the boundary.
//!
//! A number is held by the 64 bits of its double-precision encoding, so that a
//! value is carried across bit for bit. A pointer of the flat layout is an
//! owned buffer here: `None` is the null pointer, and a pointer with its length
//! is a `Vec`. Text of the flat layout is the bytes before its terminator.

use vstd::prelude::*;

verus! {

/// A dynamic value of the storage engine.
#[derive(Debug, PartialEq)]
pub enum KvsValue {
    /// A double-precision number, by its bits.
    Number(u64),
    /// A truth value.
    Boolean(bool),
    /// Owned text.
    String(String),
    /// The null value.
    Null,
    /// Values in order.
    Array(Vec<KvsValue>),
    /// Entries of key and value. No key occurs twice in a valid object, and the
    /// order of the entries carries no meaning.
    Object(Vec<(String, KvsValue)>),
}

/// The mathematical content of a dynamic value.
pub enum Value {
    Number(u64),
    Boolean(bool),
    Text(Seq<char>),
    Null,
    Array(Seq<Value>),
    Object(Seq<(Seq<char>, Value)>),
}

/// Which payload slot of a flat value is meant.
#[allow(non_camel_case_types)]
#[derive(Debug, Copy, Clone, PartialEq, Eq, Structural)]
pub enum FFI_KvsValueType {
    Number,
    Boolean,
    String,
    Null,
    Array,
    Object,
}

/// A value in the flat layout: a discriminant and one slot per kind of payload.
#[allow(non_camel_case_types)]
#[derive(Debug, PartialEq)]
pub struct FFI_KvsValue {
    /// The slot that is meant.
    pub type_: FFI_KvsValueType,
    /// The bits of the number.
    pub number: u64,
    /// Zero for false, anything else for true.
    pub boolean: u8,
    /// The text, without its terminator.
    pub string: Option<Vec<u8>>,
    /// The elements of an array.
    pub array: Option<Vec<FFI_KvsValue>>,
    /// The keys of an object, each a text of its own.
    pub obj_keys: Option<Vec<Option<Vec<u8>>>>,
    /// The values of an object, in the order of its keys.
    pub obj_values: Option<Vec<FFI_KvsValue>>,
}

/// The mathematical content of a flat value.
pub struct Flat {
    pub tag: FFI_KvsValueType,
    pub number: u64,
    pub boolean: u8,
    pub string: Option<Seq<u8>>,
    pub array: Option<Seq<Flat>>,
    pub obj_keys: Option<Seq<Option<Seq<u8>>>>,
    pub obj_values: Option<Seq<Flat>>,
}

/// The content of a run of dynamic values.
pub open spec fn values_view(items: Seq<KvsValue>) -> Seq<Value>
    decreases items,
{
    Seq::new(
        items.len(),
        |i: int|
            if 0 <= i < items.len() {
                items[i].view()
            } else {
                Value::Null
            },
    )
}

/// The content of the entries of an object.
pub open spec fn entries_view(entries: Seq<(String, KvsValue)>) -> Seq<(Seq<char>, Value)>
    decreases entries,
{
    Seq::new(
        entries.len(),
        |i: int|
            if 0 <= i < entries.len() {
                (entries[i].0@, entries[i].1.view())
            } else {
                (Seq::empty(), Value::Null)
            },
    )
}

impl View for KvsValue {
    type V = Value;

    open spec fn view(&self) -> Value
        decreases self,
    {
        match self {
            KvsValue::Number(bits) => Value::Number(*bits),
            KvsValue::Boolean(flag) => Value::Boolean(*flag),
            KvsValue::String(text) => Value::Text(text@),
            KvsValue::Null => Value::Null,
            KvsValue::Array(items) => Value::Array(values_view(items@)),
            KvsValue::Object(entries) => Value::Object(entries_view(entries@)),
        }
    }
}

/// The content of a run of texts, each of which may be null.
pub open spec fn texts_view(texts: Seq<Option<Vec<u8>>>) -> Seq<Option<Seq<u8>>> {
    Seq::new(
        texts.len(),
        |i: int|
            match texts[i] {
                Some(bytes) => Some(bytes@),
                None => None,
            },
    )
}

/// The content of a run of flat values.
pub open spec fn flats_view(items: Seq<FFI_KvsValue>) -> Seq<Flat>
    decreases items,
{
    Seq::new(
        items.len(),
        |i: int|
            if 0 <= i < items.len() {
                items[i].view()
            } else {
                Flat::null()
            },
    )
}

impl View for FFI_KvsValue {
    type V = Flat;

    open spec fn view(&self) -> Flat
        decreases self,
    {
        Flat {
            tag: self.type_,
            number: self.number,
            boolean: self.boolean,
            string: match self.string {
                Some(bytes) => Some(bytes@),
                None => None,
            },
            array: match self.array {
                Some(items) => Some(flats_view(items@)),
                None => None,
            },
            obj_keys: match self.obj_keys {
                Some(keys) => Some(texts_view(keys@)),
                None => None,
            },
            obj_values: match self.obj_values {
                Some(items) => Some(flats_view(items@)),
                None => None,
            },
        }
    }
}

impl Flat {
    /// The flat null value: every slot zero or null.
    pub open spec fn null() -> Flat {
        Flat {
            tag: FFI_KvsValueType::Null,
            number: 0,
            boolean: 0,
            string: None,
            array: None,
            obj_keys: None,
            obj_values: None,
        }
    }
}

impl FFI_KvsValue {
    /// The flat null value: every slot zero or null.
    pub fn null() -> (flat: FFI_KvsValue)
        ensures
            flat@ == Flat::null(),
    {
        FFI_KvsValue {
            type_: FFI_KvsValueType::Null,
            number: 0,
            boolean: 0,
            string: None,
            array: None,
            obj_keys: None,
            obj_values: None,
        }
    }
}

} // verus!
