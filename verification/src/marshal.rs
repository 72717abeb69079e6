//! Marshalling of a dynamic value into the flat layout and back.
//!
//! Marshalling walks the value depth first and gives every node buffers of its
//! own: one per text, one per array, and two per object, whose keys and values
//! lie in two arrays of one length. Unmarshalling walks the flat value once per
//! node; text that is not valid UTF-8 is decoded with replacement characters.

use vstd::prelude::*;
use vstd::utf8::*;
use crate::value::{
    entries_view, flats_view, texts_view, values_view, FFI_KvsValue, FFI_KvsValueType, Flat, KvsValue,
    Value,
};

verus! {

/// What lossy decoding makes of bytes that are no valid UTF-8: each invalid
/// sequence is replaced by U+FFFD.
pub uninterp spec fn lossy_text(bytes: Seq<u8>) -> Seq<char>;

/// The text that bytes are read as: their decoding where they are valid UTF-8,
/// the lossy decoding otherwise.
pub open spec fn text_of_bytes(bytes: Seq<u8>) -> Seq<char> {
    if valid_utf8(bytes) {
        decode_utf8(bytes)
    } else {
        lossy_text(bytes)
    }
}

/// The bytes can stand before a terminator: none of them is zero.
pub open spec fn is_c_text(bytes: Seq<u8>) -> bool {
    forall|i: int| 0 <= i < bytes.len() ==> bytes[i] != 0
}

/// Every text and key of the value can cross the boundary as terminated text.
pub open spec fn nul_free(v: Value) -> bool
    decreases v,
{
    match v {
        Value::Text(text) => is_c_text(encode_utf8(text)),
        Value::Array(items) => forall|i: int| 0 <= i < items.len() ==> nul_free(#[trigger] items[i]),
        Value::Object(entries) => forall|i: int|
            0 <= i < entries.len() ==> is_c_text(encode_utf8((#[trigger] entries[i]).0))
                && nul_free(entries[i].1),
        _ => true,
    }
}

/// No key occurs twice among the entries.
pub open spec fn distinct_keys(entries: Seq<(Seq<char>, Value)>) -> bool {
    forall|i: int, j: int|
        0 <= i < j < entries.len() ==> (#[trigger] entries[i]).0 != (#[trigger] entries[j]).0
}

/// The value is valid: in every object of it, no key occurs twice.
pub open spec fn unique_keys(v: Value) -> bool
    decreases v,
{
    match v {
        Value::Array(items) => forall|i: int|
            0 <= i < items.len() ==> unique_keys(#[trigger] items[i]),
        Value::Object(entries) => distinct_keys(entries) && forall|i: int|
            0 <= i < entries.len() ==> unique_keys((#[trigger] entries[i]).1),
        _ => true,
    }
}

/// The flat values of a run of values, in order.
pub open spec fn flats_of(items: Seq<Value>) -> Seq<Flat>
    decreases items,
{
    Seq::new(
        items.len(),
        |i: int|
            if 0 <= i < items.len() {
                flat_of(items[i])
            } else {
                Flat::null()
            },
    )
}

/// The keys of an object's entries as terminated text, in the order of the
/// entries.
pub open spec fn flat_keys_of(entries: Seq<(Seq<char>, Value)>) -> Seq<Option<Seq<u8>>> {
    Seq::new(entries.len(), |i: int| Some(encode_utf8(entries[i].0)))
}

/// The flat values of an object's entries, in the order of the entries.
pub open spec fn flat_values_of(entries: Seq<(Seq<char>, Value)>) -> Seq<Flat>
    decreases entries,
{
    Seq::new(
        entries.len(),
        |i: int|
            if 0 <= i < entries.len() {
                flat_of(entries[i].1)
            } else {
                Flat::null()
            },
    )
}

/// The flat value that a dynamic value is marshalled into. Only the slot that
/// the discriminant names is filled; all others are zero or null.
pub open spec fn flat_of(v: Value) -> Flat
    decreases v,
{
    match v {
        Value::Number(bits) => Flat { tag: FFI_KvsValueType::Number, number: bits, ..Flat::null() },
        Value::Boolean(flag) => Flat {
            tag: FFI_KvsValueType::Boolean,
            boolean: if flag {
                1
            } else {
                0
            },
            ..Flat::null()
        },
        Value::Text(text) => Flat {
            tag: FFI_KvsValueType::String,
            string: Some(encode_utf8(text)),
            ..Flat::null()
        },
        Value::Null => Flat::null(),
        Value::Array(items) => Flat {
            tag: FFI_KvsValueType::Array,
            array: Some(flats_of(items)),
            ..Flat::null()
        },
        Value::Object(entries) => Flat {
            tag: FFI_KvsValueType::Object,
            obj_keys: Some(flat_keys_of(entries)),
            obj_values: Some(flat_values_of(entries)),
            ..Flat::null()
        },
    }
}

/// The slot that the discriminant names holds what unmarshalling reads: the
/// text, the array, or both arrays of an object in one length with no null
/// key; and so on down the tree.
pub open spec fn readable(f: Flat) -> bool
    decreases f,
{
    match f.tag {
        FFI_KvsValueType::String => f.string is Some,
        FFI_KvsValueType::Array => f.array is Some && forall|i: int|
            0 <= i < f.array->0.len() ==> readable(#[trigger] f.array->0[i]),
        FFI_KvsValueType::Object => f.obj_keys is Some && f.obj_values is Some
            && f.obj_keys->0.len() == f.obj_values->0.len() && (forall|i: int|
            0 <= i < f.obj_keys->0.len() ==> (#[trigger] f.obj_keys->0[i]) is Some) && (forall|
            i: int,
        | 0 <= i < f.obj_values->0.len() ==> readable(#[trigger] f.obj_values->0[i])),
        _ => true,
    }
}

/// The flat value is in the form that marshalling gives: the slot that the
/// discriminant names is filled, with terminated text where it holds text, and
/// every other slot is zero or null; and so on down the tree.
pub open spec fn canonical(f: Flat) -> bool
    decreases f,
{
    match f.tag {
        FFI_KvsValueType::Number => f == (Flat { tag: f.tag, number: f.number, ..Flat::null() }),
        FFI_KvsValueType::Boolean => f.boolean <= 1 && f == (Flat {
            tag: f.tag,
            boolean: f.boolean,
            ..Flat::null()
        }),
        FFI_KvsValueType::String => f.string is Some && is_c_text(f.string->0) && f == (Flat {
            tag: f.tag,
            string: f.string,
            ..Flat::null()
        }),
        FFI_KvsValueType::Null => f == Flat::null(),
        FFI_KvsValueType::Array => f.array is Some && f == (Flat {
            tag: f.tag,
            array: f.array,
            ..Flat::null()
        }) && forall|i: int| 0 <= i < f.array->0.len() ==> canonical(#[trigger] f.array->0[i]),
        FFI_KvsValueType::Object => f.obj_keys is Some && f.obj_values is Some && f == (Flat {
            tag: f.tag,
            obj_keys: f.obj_keys,
            obj_values: f.obj_values,
            ..Flat::null()
        }) && f.obj_keys->0.len() == f.obj_values->0.len() && (forall|i: int|
            0 <= i < f.obj_keys->0.len() ==> (#[trigger] f.obj_keys->0[i]) is Some && is_c_text(
                f.obj_keys->0[i]->0,
            )) && (forall|i: int|
            0 <= i < f.obj_values->0.len() ==> canonical(#[trigger] f.obj_values->0[i])),
    }
}

/// The index of the first entry from `from` on that has the key, or the number
/// of entries if there is none.
pub open spec fn position(entries: Seq<(Seq<char>, Value)>, key: Seq<char>, from: int) -> int
    decreases entries.len() - from,
{
    if from < 0 || from >= entries.len() {
        entries.len() as int
    } else if entries[from].0 == key {
        from
    } else {
        position(entries, key, from + 1)
    }
}

/// The entries after `key` was set to `v`: an entry that has the key keeps its
/// place and takes the value, otherwise a new entry comes last.
pub open spec fn upsert(entries: Seq<(Seq<char>, Value)>, key: Seq<char>, v: Value) -> Seq<
    (Seq<char>, Value),
> {
    let at = position(entries, key, 0);
    if at < entries.len() {
        entries.update(at, (key, v))
    } else {
        entries.push((key, v))
    }
}

/// The entries of the object that pairs of key and value make when they are set
/// one after the other: of two pairs with one key, the later one decides.
pub open spec fn collapse(pairs: Seq<(Seq<char>, Value)>) -> Seq<(Seq<char>, Value)>
    decreases pairs.len(),
{
    if pairs.len() == 0 {
        Seq::empty()
    } else {
        upsert(collapse(pairs.drop_last()), pairs.last().0, pairs.last().1)
    }
}

/// The values of a run of flat values, in order.
pub open spec fn values_of(items: Seq<Flat>) -> Seq<Value>
    decreases items,
{
    Seq::new(
        items.len(),
        |i: int|
            if 0 <= i < items.len() {
                value_of(items[i])
            } else {
                Value::Null
            },
    )
}

/// The pairs of key and value that the two arrays of a flat object hold, in
/// order.
pub open spec fn pairs_of(keys: Seq<Option<Seq<u8>>>, items: Seq<Flat>) -> Seq<(Seq<char>, Value)>
    decreases items,
{
    Seq::new(
        items.len(),
        |i: int|
            if 0 <= i < items.len() {
                (text_of_bytes(keys[i]->0), value_of(items[i]))
            } else {
                (Seq::empty(), Value::Null)
            },
    )
}

/// The dynamic value that a readable flat value is unmarshalled into. Of a
/// flat value that is not readable it says nothing that anything relies on.
pub open spec fn value_of(f: Flat) -> Value
    decreases f,
{
    match f.tag {
        FFI_KvsValueType::Number => Value::Number(f.number),
        FFI_KvsValueType::Boolean => Value::Boolean(f.boolean != 0),
        FFI_KvsValueType::String => Value::Text(text_of_bytes(f.string->0)),
        FFI_KvsValueType::Null => Value::Null,
        FFI_KvsValueType::Array => match f.array {
            Some(items) => Value::Array(values_of(items)),
            None => Value::Null,
        },
        FFI_KvsValueType::Object => match f.obj_values {
            Some(items) => Value::Object(collapse(pairs_of(f.obj_keys->0, items))),
            None => Value::Null,
        },
    }
}

/// Decodes bytes as text by `String::from_utf8_lossy`: valid UTF-8 is decoded as
/// it stands, and in anything else each invalid sequence becomes U+FFFD.
#[verifier::external_body]
fn decode_lossy(bytes: &[u8]) -> (text: String)
    ensures
        valid_utf8(bytes@) ==> text@ == decode_utf8(bytes@),
        !valid_utf8(bytes@) ==> text@ == lossy_text(bytes@),
{
    String::from_utf8_lossy(bytes).into_owned()
}

/// The bytes of a text, in a buffer of their own.
pub(crate) fn text_bytes(text: &str) -> (bytes: Vec<u8>)
    ensures
        bytes@ == encode_utf8(text@),
{
    vstd::slice::slice_to_vec(text.as_bytes())
}

/// What can cross the boundary as an array can do so element by element.
proof fn lemma_nul_free_item(items: Seq<Value>, i: int)
    requires
        nul_free(Value::Array(items)),
        0 <= i < items.len(),
    ensures
        nul_free(items[i]),
{
    let v = Value::Array(items);
    assert(v->Array_0[i] == items[i]);
}

/// What can cross the boundary as an object can do so entry by entry.
proof fn lemma_nul_free_entry(entries: Seq<(Seq<char>, Value)>, i: int)
    requires
        nul_free(Value::Object(entries)),
        0 <= i < entries.len(),
    ensures
        is_c_text(encode_utf8(entries[i].0)),
        nul_free(entries[i].1),
{
    let v = Value::Object(entries);
    assert(v->Object_0[i] == entries[i]);
}

/// Marshals a dynamic value into a flat value that owns all its buffers.
///
/// Array elements keep their order. The entries of an object go into two
/// arrays of one length, in the order in which the object holds them, which
/// carries no meaning.
pub fn kvsvalue_to_ffi_kvsvalue(value: &KvsValue) -> (flat: FFI_KvsValue)
    requires
        nul_free(value@),
    ensures
        flat@ == flat_of(value@),
        canonical(flat@),
        readable(flat@),
    decreases value,
{
    proof {
        crate::roundtrip::lemma_marshalled_is_canonical(value@);
        crate::roundtrip::lemma_canonical_is_readable(flat_of(value@));
    }
    let mut result = FFI_KvsValue::null();
    match value {
        KvsValue::Number(bits) => {
            result.type_ = FFI_KvsValueType::Number;
            result.number = *bits;
        },
        KvsValue::Boolean(flag) => {
            result.type_ = FFI_KvsValueType::Boolean;
            result.boolean = if *flag {
                1
            } else {
                0
            };
        },
        KvsValue::String(text) => {
            result.type_ = FFI_KvsValueType::String;
            result.string = Some(text_bytes(text.as_str()));
        },
        KvsValue::Null => {},
        KvsValue::Array(items) => {
            let mut flats: Vec<FFI_KvsValue> = Vec::new();
            let mut i: usize = 0;
            while i < items.len()
                invariant
                    i <= items.len(),
                    flats.len() == i,
                    *value == KvsValue::Array(*items),
                    nul_free(value@),
                    forall|j: int| 0 <= j < i ==> (#[trigger] flats@[j])@ == flat_of(items@[j]@),
                decreases items.len() - i,
            {
                assert(value@ == Value::Array(values_view(items@)));
                proof {
                    lemma_nul_free_item(values_view(items@), i as int);
                }
                assert(values_view(items@)[i as int] == items@[i as int]@);
                let flat = kvsvalue_to_ffi_kvsvalue(&items[i]);
                flats.push(flat);
                i += 1;
            }
            assert(flats_view(flats@) =~= flats_of(values_view(items@)));
            result.type_ = FFI_KvsValueType::Array;
            result.array = Some(flats);
        },
        KvsValue::Object(entries) => {
            let mut keys: Vec<Option<Vec<u8>>> = Vec::new();
            let mut flats: Vec<FFI_KvsValue> = Vec::new();
            let mut i: usize = 0;
            while i < entries.len()
                invariant
                    i <= entries.len(),
                    keys.len() == i,
                    flats.len() == i,
                    *value == KvsValue::Object(*entries),
                    nul_free(value@),
                    forall|j: int|
                        0 <= j < i ==> (#[trigger] keys@[j]) is Some && keys@[j]->0@ == encode_utf8(
                            entries@[j].0@,
                        ),
                    forall|j: int|
                        0 <= j < i ==> (#[trigger] flats@[j])@ == flat_of(entries@[j].1@),
                decreases entries.len() - i,
            {
                assert(value@ == Value::Object(entries_view(entries@)));
                proof {
                    lemma_nul_free_entry(entries_view(entries@), i as int);
                }
                assert(entries_view(entries@)[i as int] == (
                    entries@[i as int].0@,
                    entries@[i as int].1@,
                ));
                keys.push(Some(text_bytes(entries[i].0.as_str())));
                flats.push(kvsvalue_to_ffi_kvsvalue(&entries[i].1));
                i += 1;
            }
            assert(texts_view(keys@) =~= flat_keys_of(entries_view(entries@)));
            assert(flats_view(flats@) =~= flat_values_of(entries_view(entries@)));
            result.type_ = FFI_KvsValueType::Object;
            result.obj_keys = Some(keys);
            result.obj_values = Some(flats);
        },
    }
    result
}

/// The index of the first entry that has the key, or the number of entries.
fn find_key(entries: &Vec<(String, KvsValue)>, key: &String) -> (at: usize)
    ensures
        at == position(entries_view(entries@), key@, 0),
{
    let mut at: usize = 0;
    while at < entries.len()
        invariant
            at <= entries.len(),
            position(entries_view(entries@), key@, 0) == position(
                entries_view(entries@),
                key@,
                at as int,
            ),
        decreases entries.len() - at,
    {
        if entries[at].0 == *key {
            return at;
        }
        at += 1;
    }
    at
}

/// Sets `key` to `v` among the entries of an object: an entry that has the key
/// takes the value, otherwise a new entry comes last.
fn set_entry(entries: &mut Vec<(String, KvsValue)>, key: String, v: KvsValue)
    ensures
        entries_view(final(entries)@) == upsert(entries_view(old(entries)@), key@, v@),
{
    let at = find_key(entries, &key);
    if at < entries.len() {
        entries.set(at, (key, v));
    } else {
        entries.push((key, v));
    }
    assert(entries_view(entries@) =~= upsert(entries_view(old(entries)@), key@, v@));
}

/// Unmarshals a flat value into a dynamic value.
///
/// Text is decoded lossily and never fails. The pairs of an object are set one
/// after the other, so of two pairs with one key the later one decides.
pub fn ffi_kvsvalue_to_kvsvalue(value: &FFI_KvsValue) -> (result: KvsValue)
    requires
        readable(value@),
    ensures
        result@ == value_of(value@),
        unique_keys(result@),
    decreases value,
{
    proof {
        crate::roundtrip::lemma_unmarshalled_is_valid(value@);
    }
    match value.type_ {
        FFI_KvsValueType::Number => KvsValue::Number(value.number),
        FFI_KvsValueType::Boolean => KvsValue::Boolean(value.boolean != 0),
        FFI_KvsValueType::String => {
            let bytes = value.string.as_ref().unwrap();
            KvsValue::String(decode_lossy(bytes.as_slice()))
        },
        FFI_KvsValueType::Null => KvsValue::Null,
        FFI_KvsValueType::Array => {
            let flats = value.array.as_ref().unwrap();
            let mut items: Vec<KvsValue> = Vec::new();
            let mut i: usize = 0;
            while i < flats.len()
                invariant
                    i <= flats.len(),
                    items.len() == i,
                    value.array == Some(*flats),
                    value.type_ == FFI_KvsValueType::Array,
                    readable(value@),
                    forall|j: int| 0 <= j < i ==> (#[trigger] items@[j])@ == value_of(flats@[j]@),
                decreases flats.len() - i,
            {
                assert(value@.array == Some(flats_view(flats@)));
                assert(readable(value@.array->0[i as int]));
                assert(flats_view(flats@)[i as int] == flats@[i as int]@);
                let item = ffi_kvsvalue_to_kvsvalue(&flats[i]);
                items.push(item);
                i += 1;
            }
            assert(values_view(items@) =~= values_of(flats_view(flats@)));
            KvsValue::Array(items)
        },
        FFI_KvsValueType::Object => {
            let keys = value.obj_keys.as_ref().unwrap();
            let flats = value.obj_values.as_ref().unwrap();
            let ghost pairs = pairs_of(texts_view(keys@), flats_view(flats@));
            let mut entries: Vec<(String, KvsValue)> = Vec::new();
            let mut i: usize = 0;
            assert(entries_view(entries@) =~= collapse(pairs.take(0)));
            while i < flats.len()
                invariant
                    i <= flats.len(),
                    keys.len() == flats.len(),
                    value.obj_keys == Some(*keys),
                    value.obj_values == Some(*flats),
                    value.type_ == FFI_KvsValueType::Object,
                    readable(value@),
                    pairs == pairs_of(texts_view(keys@), flats_view(flats@)),
                    entries_view(entries@) == collapse(pairs.take(i as int)),
                decreases flats.len() - i,
            {
                assert(flats_view(flats@)[i as int] == flats@[i as int]@);
                assert(texts_view(keys@)[i as int] is Some);
                let key = decode_lossy(keys[i].as_ref().unwrap().as_slice());
                let item = ffi_kvsvalue_to_kvsvalue(&flats[i]);
                proof {
                    assert(pairs.take(i + 1).drop_last() =~= pairs.take(i as int));
                    assert(pairs.take(i + 1).last() == (key@, item@));
                }
                set_entry(&mut entries, key, item);
                i += 1;
            }
            assert(pairs.take(i as int) =~= pairs);
            KvsValue::Object(entries)
        },
    }
}

/// Whether the bytes can stand before a terminator: whether none is zero.
pub fn is_c_bytes(bytes: &[u8]) -> (ok: bool)
    ensures
        ok == is_c_text(bytes@),
{
    let mut i: usize = 0;
    while i < bytes.len()
        invariant
            i <= bytes.len(),
            forall|j: int| 0 <= j < i ==> bytes@[j] != 0,
        decreases bytes.len() - i,
    {
        if bytes[i] == 0 {
            return false;
        }
        i += 1;
    }
    true
}

/// The bytes of a text in a buffer of their own, if they can stand before a
/// terminator.
pub fn c_text_of(text: &str) -> (bytes: Option<Vec<u8>>)
    ensures
        bytes is Some <==> is_c_text(encode_utf8(text@)),
        bytes is Some ==> bytes->0@ == encode_utf8(text@),
{
    if is_c_bytes(text.as_bytes()) {
        Some(text_bytes(text))
    } else {
        None
    }
}

impl KvsValue {
    /// Whether the value can be marshalled: whether every text and key of it
    /// can cross the boundary as terminated text.
    pub fn can_cross(&self) -> (ok: bool)
        ensures
            ok == nul_free(self@),
        decreases self,
    {
        match self {
            KvsValue::String(text) => is_c_bytes(text.as_str().as_bytes()),
            KvsValue::Array(items) => {
                let mut i: usize = 0;
                while i < items.len()
                    invariant
                        i <= items.len(),
                        *self == KvsValue::Array(*items),
                        self@ == Value::Array(values_view(items@)),
                        forall|j: int| 0 <= j < i ==> nul_free(#[trigger] values_view(items@)[j]),
                    decreases items.len() - i,
                {
                    assert(values_view(items@)[i as int] == items@[i as int]@);
                    if !items[i].can_cross() {
                        proof {
                            assert(self@->Array_0[i as int] == items@[i as int]@);
                        }
                        return false;
                    }
                    i += 1;
                }
                proof {
                    assert forall|j: int| 0 <= j < self@->Array_0.len() implies nul_free(
                        #[trigger] self@->Array_0[j],
                    ) by {
                        assert(nul_free(values_view(items@)[j]));
                    }
                }
                true
            },
            KvsValue::Object(entries) => {
                let mut i: usize = 0;
                while i < entries.len()
                    invariant
                        i <= entries.len(),
                        *self == KvsValue::Object(*entries),
                        self@ == Value::Object(entries_view(entries@)),
                        forall|j: int|
                            0 <= j < i ==> is_c_text(
                                encode_utf8((#[trigger] entries_view(entries@)[j]).0),
                            ) && nul_free(entries_view(entries@)[j].1),
                    decreases entries.len() - i,
                {
                    assert(entries_view(entries@)[i as int] == (
                        entries@[i as int].0@,
                        entries@[i as int].1@,
                    ));
                    if !is_c_bytes(entries[i].0.as_str().as_bytes()) || !entries[i].1.can_cross() {
                        proof {
                            assert(self@->Object_0[i as int] == (
                                entries@[i as int].0@,
                                entries@[i as int].1@,
                            ));
                        }
                        return false;
                    }
                    i += 1;
                }
                proof {
                    assert forall|j: int| 0 <= j < self@->Object_0.len() implies is_c_text(
                        encode_utf8((#[trigger] self@->Object_0[j]).0),
                    ) && nul_free(self@->Object_0[j].1) by {
                        assert(nul_free(entries_view(entries@)[j].1));
                    }
                }
                true
            },
            _ => true,
        }
    }
}

impl FFI_KvsValue {
    /// Whether the flat value can be unmarshalled: whether no pointer that
    /// unmarshalling follows is null, and the two arrays of every object have
    /// one length.
    pub fn is_readable(&self) -> (ok: bool)
        ensures
            ok == readable(self@),
        decreases self,
    {
        match self.type_ {
            FFI_KvsValueType::String => {
                assert(self@.string is Some == self.string is Some);
                self.string.is_some()
            },
            FFI_KvsValueType::Array => {
                if self.array.is_none() {
                    assert(self@.array is None);
                    return false;
                }
                let items = self.array.as_ref().unwrap();
                assert(self@.array == Some(flats_view(items@)));
                let ok = items_readable(items, Ghost(*self));
                proof {
                    if !ok {
                        let j = choose|j: int|
                            0 <= j < items.len() && !readable(#[trigger] flats_view(items@)[j]);
                        assert(self@.array->0[j] == flats_view(items@)[j]);
                    }
                }
                ok
            },
            FFI_KvsValueType::Object => {
                if self.obj_keys.is_none() || self.obj_values.is_none() {
                    assert(self@.obj_keys is None || self@.obj_values is None);
                    return false;
                }
                let keys = self.obj_keys.as_ref().unwrap();
                let items = self.obj_values.as_ref().unwrap();
                assert(self@.obj_keys == Some(texts_view(keys@)));
                assert(self@.obj_values == Some(flats_view(items@)));
                if keys.len() != items.len() {
                    return false;
                }
                let mut k: usize = 0;
                while k < keys.len()
                    invariant
                        k <= keys.len(),
                        self@.obj_keys == Some(texts_view(keys@)),
                        self@.obj_values == Some(flats_view(items@)),
                        self@.tag == FFI_KvsValueType::Object,
                        forall|j: int| 0 <= j < k ==> (#[trigger] texts_view(keys@)[j]) is Some,
                    decreases keys.len() - k,
                {
                    assert(texts_view(keys@)[k as int] is Some == keys@[k as int] is Some);
                    if keys[k].is_none() {
                        proof {
                            assert(self@.obj_keys->0[k as int] is None);
                        }
                        return false;
                    }
                    k += 1;
                }
                let ok = items_readable(items, Ghost(*self));
                proof {
                    if !ok {
                        let j = choose|j: int|
                            0 <= j < items.len() && !readable(#[trigger] flats_view(items@)[j]);
                        assert(self@.obj_values->0[j] == flats_view(items@)[j]);
                    }
                }
                ok
            },
            _ => true,
        }
    }
}

/// Whether each of the flat values below `above` can be unmarshalled.
fn items_readable(items: &Vec<FFI_KvsValue>, Ghost(above): Ghost<FFI_KvsValue>) -> (ok: bool)
    requires
        above.array == Some(*items) || above.obj_values == Some(*items),
    ensures
        ok == (forall|j: int| 0 <= j < items.len() ==> readable(#[trigger] flats_view(items@)[j])),
    decreases above, 0nat,
{
    let mut i: usize = 0;
    while i < items.len()
        invariant
            i <= items.len(),
            above.array == Some(*items) || above.obj_values == Some(*items),
            forall|j: int| 0 <= j < i ==> readable(#[trigger] flats_view(items@)[j]),
        decreases items.len() - i,
    {
        assert(flats_view(items@)[i as int] == items@[i as int]@);
        assert(above.array == Some(*items) ==> above.array->0@[i as int] == items@[i as int]);
        assert(above.obj_values == Some(*items) ==> above.obj_values->0@[i as int]
            == items@[i as int]);
        if !items[i].is_readable() {
            return false;
        }
        i += 1;
    }
    true
}

} // verus!
