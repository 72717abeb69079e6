//! Release of what marshalling made, and the books that the two keep.
//!
//! Every buffer of a flat value has one owner, so giving the value up gives up
//! each buffer once. The release takes the value and goes into every element
//! of an array before the array itself, into every value and key of an object
//! before its two arrays. It returns how many buffers went, so that a caller
//! can hold the number against what marshalling made.

use vstd::prelude::*;
use crate::marshal::{flat_keys_of, flat_of, flat_values_of, flats_of};
use crate::value::{flats_view, texts_view, FFI_KvsValue, FFI_KvsValueType, Flat, Value};

verus! {

/// The buffers that marshalling makes for a value: one per text, one per
/// array, and for an object two arrays and one text per key; each with what
/// the values below need.
pub open spec fn allocations(v: Value) -> nat
    decreases v, 0nat,
{
    match v {
        Value::Text(_) => 1,
        Value::Array(items) => 1 + allocations_among(items, items.len()),
        Value::Object(entries) => 2 + entries.len() + allocations_under(entries, entries.len()),
        _ => 0,
    }
}

/// The buffers that marshalling makes for the first `n` of the values.
pub open spec fn allocations_among(items: Seq<Value>, n: nat) -> nat
    decreases items, n,
{
    if n == 0 || n > items.len() {
        0
    } else {
        allocations_among(items, (n - 1) as nat) + allocations(items[n - 1])
    }
}

/// The buffers that marshalling makes for the values of the first `n` of the
/// entries.
pub open spec fn allocations_under(entries: Seq<(Seq<char>, Value)>, n: nat) -> nat
    decreases entries, n,
{
    if n == 0 || n > entries.len() {
        0
    } else {
        allocations_under(entries, (n - 1) as nat) + allocations(entries[n - 1].1)
    }
}

/// The buffers that go when a flat value is released: those under the slot that
/// the discriminant names, and nothing where that slot is null. Of an object
/// nothing goes unless both its arrays are there.
pub open spec fn owned_buffers(f: Flat) -> nat
    decreases f, 0nat,
{
    match f.tag {
        FFI_KvsValueType::String => if f.string is Some {
            1
        } else {
            0
        },
        FFI_KvsValueType::Array => match f.array {
            Some(items) => 1 + owned_among(items, items.len()),
            None => 0,
        },
        FFI_KvsValueType::Object => match f.obj_values {
            Some(items) => match f.obj_keys {
                Some(keys) => 2 + present_among(keys, keys.len()) + owned_among(
                    items,
                    items.len(),
                ),
                None => 0,
            },
            None => 0,
        },
        _ => 0,
    }
}

/// The buffers that go with the first `n` of the flat values.
pub open spec fn owned_among(items: Seq<Flat>, n: nat) -> nat
    decreases items, n,
{
    if n == 0 || n > items.len() {
        0
    } else {
        owned_among(items, (n - 1) as nat) + owned_buffers(items[n - 1])
    }
}

/// How many of the first `n` texts are not null.
pub open spec fn present_among(texts: Seq<Option<Seq<u8>>>, n: nat) -> nat
    decreases n,
{
    if n == 0 || n > texts.len() {
        0
    } else {
        present_among(texts, (n - 1) as nat) + if texts[n - 1] is Some {
            1nat
        } else {
            0nat
        }
    }
}

/// A count as a machine word holds it: itself, or the largest word where it is
/// larger.
pub open spec fn clip(n: nat) -> usize {
    if n > usize::MAX {
        usize::MAX
    } else {
        n as usize
    }
}

/// The sum of two counts, held at the largest word.
fn add_clipped(a: usize, b: usize, Ghost(x): Ghost<nat>, Ghost(y): Ghost<nat>) -> (sum: usize)
    requires
        a == clip(x),
        b == clip(y),
    ensures
        sum == clip(x + y),
{
    if a > usize::MAX - b {
        usize::MAX
    } else {
        a + b
    }
}

/// Releases the flat values of an array one by one, the last first, each with
/// everything below it, and then the array itself.
fn release_items(items: Vec<FFI_KvsValue>, Ghost(above): Ghost<FFI_KvsValue>) -> (released: usize)
    requires
        above.array == Some(items) || above.obj_values == Some(items),
    ensures
        released == clip(1 + owned_among(flats_view(items@), items@.len())),
    decreases above, 0nat,
{
    let ghost all = flats_view(items@);
    let ghost mut gone: nat = 1;
    let mut rest = items;
    let mut released: usize = 1;
    while rest.len() > 0
        invariant
            rest.len() <= items.len(),
            above.array == Some(items) || above.obj_values == Some(items),
            all == flats_view(items@),
            rest@ == items@.take(rest.len() as int),
            released == clip(gone),
            gone + owned_among(all, rest@.len()) == 1 + owned_among(all, items@.len()),
        decreases rest.len(),
    {
        let ghost at = rest.len() - 1;
        assert(all[at] == items@[at]@);
        assert(above.array == Some(items) ==> above.array->0@[at] == items@[at]);
        assert(above.obj_values == Some(items) ==> above.obj_values->0@[at] == items@[at]);
        let item = rest.pop().unwrap();
        assert(item == items@[at]);
        let below = release(item);
        released = add_clipped(released, below, Ghost(gone), Ghost(owned_buffers(items@[at]@)));
        proof {
            gone = gone + owned_buffers(items@[at]@);
            assert(rest@ =~= items@.take(at));
        }
    }
    released
}

/// Releases the texts of an array one by one, the last first, and says how
/// many went. The array itself goes with the object that owned it.
fn release_texts(texts: Vec<Option<Vec<u8>>>) -> (released: usize)
    ensures
        released == clip(present_among(texts_view(texts@), texts@.len())),
{
    let ghost all = texts_view(texts@);
    let ghost mut gone: nat = 0;
    let mut rest = texts;
    let mut released: usize = 0;
    while rest.len() > 0
        invariant
            rest.len() <= texts.len(),
            all == texts_view(texts@),
            rest@ == texts@.take(rest.len() as int),
            released == clip(gone),
            gone + present_among(all, rest@.len()) == present_among(all, texts@.len()),
        decreases rest.len(),
    {
        let ghost at = rest.len() - 1;
        let text = rest.pop().unwrap();
        assert(text == texts@[at]);
        let one: usize = if text.is_some() {
            1
        } else {
            0
        };
        released = add_clipped(released, one, Ghost(gone), Ghost(one as nat));
        proof {
            gone = gone + one as nat;
            assert(rest@ =~= texts@.take(at));
        }
    }
    released
}

/// Releases a flat value with everything below it, and says how many buffers
/// went.
fn release(value: FFI_KvsValue) -> (released: usize)
    ensures
        released == clip(owned_buffers(value@)),
    decreases value, 1nat,
{
    let ghost whole = value;
    match value.type_ {
        FFI_KvsValueType::String => {
            if value.string.is_some() {
                1
            } else {
                0
            }
        },
        FFI_KvsValueType::Array => {
            if value.array.is_none() {
                return 0;
            }
            let items = value.array.unwrap();
            release_items(items, Ghost(whole))
        },
        FFI_KvsValueType::Object => {
            if value.obj_values.is_none() || value.obj_keys.is_none() {
                return 0;
            }
            let keys = value.obj_keys.unwrap();
            let items = value.obj_values.unwrap();
            let below = release_items(items, Ghost(whole));
            let texts = release_texts(keys);
            let ghost x = 1 + owned_among(flats_view(items@), items@.len());
            let ghost y = present_among(texts_view(keys@), keys@.len());
            let most = add_clipped(below, texts, Ghost(x), Ghost(y));
            add_clipped(most, 1, Ghost(x + y), Ghost(1nat))
        },
        _ => 0,
    }
}

/// Releases a flat value with everything below it, and says how many buffers
/// went. A null argument releases nothing.
///
/// Only what lies under the slot that the discriminant names is followed: the
/// text; every element of an array and then the array; every value and key of
/// an object and then its two arrays. The value is taken, so it cannot be
/// released twice.
pub fn free_ffi_kvsvalue_rust(ptr: Option<FFI_KvsValue>) -> (released: usize)
    ensures
        released == clip(
            match ptr {
                Some(value) => owned_buffers(value@),
                None => 0,
            },
        ),
{
    match ptr {
        Some(value) => release(value),
        None => 0,
    }
}

/// Balanced books for a run of values.
proof fn lemma_balanced_among(items: Seq<Value>, n: nat)
    requires
        n <= items.len(),
    ensures
        owned_among(flats_of(items), n) == allocations_among(items, n),
    decreases items, n,
{
    if n > 0 {
        lemma_balanced_among(items, (n - 1) as nat);
        lemma_balanced(items[n - 1]);
    }
}

/// Balanced books for the entries of an object.
proof fn lemma_balanced_under(entries: Seq<(Seq<char>, Value)>, n: nat)
    requires
        n <= entries.len(),
    ensures
        owned_among(flat_values_of(entries), n) == allocations_under(entries, n),
        present_among(flat_keys_of(entries), n) == n,
    decreases entries, n,
{
    if n > 0 {
        lemma_balanced_under(entries, (n - 1) as nat);
        lemma_balanced(entries[n - 1].1);
    }
}

/// Balanced allocation: releasing what marshalling made of a value gives up
/// exactly the buffers that marshalling made for it.
pub proof fn lemma_balanced(v: Value)
    ensures
        owned_buffers(flat_of(v)) == allocations(v),
    decreases v, 0nat,
{
    match v {
        Value::Array(items) => {
            lemma_balanced_among(items, items.len());
        },
        Value::Object(entries) => {
            lemma_balanced_under(entries, entries.len());
        },
        _ => {},
    }
}

} // verus!
