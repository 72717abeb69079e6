//! What marshalling and unmarshalling owe each other.

use vstd::prelude::*;
use vstd::utf8::*;
use crate::marshal::{
    canonical, is_c_text, nul_free, collapse, distinct_keys, flat_keys_of, flat_of, flat_values_of, flats_of, pairs_of, position,
    readable, text_of_bytes, unique_keys, upsert, value_of, values_of,
};
use crate::value::{Flat, Value};

verus! {

/// Text that was encoded reads back as itself.
pub proof fn lemma_text_round_trip(text: Seq<char>)
    ensures
        text_of_bytes(encode_utf8(text)) == text,
{
    encode_utf8_valid_utf8(text);
    encode_utf8_decode_utf8(text);
}

/// Where the search for a key ends: within the entries, at the first entry
/// from `from` on that has the key, or behind the last entry if none has it.
pub proof fn lemma_position(entries: Seq<(Seq<char>, Value)>, key: Seq<char>, from: int)
    requires
        0 <= from <= entries.len(),
    ensures
        from <= position(entries, key, from) <= entries.len(),
        position(entries, key, from) < entries.len() ==> entries[position(
            entries,
            key,
            from,
        )].0 == key,
        forall|j: int| from <= j < position(entries, key, from) ==> (#[trigger] entries[j]).0 != key,
    decreases entries.len() - from,
{
    if from < entries.len() && entries[from].0 != key {
        lemma_position(entries, key, from + 1);
    }
}

/// Setting a key keeps the keys distinct, and puts the value under the key.
pub proof fn lemma_upsert(entries: Seq<(Seq<char>, Value)>, key: Seq<char>, v: Value)
    requires
        distinct_keys(entries),
    ensures
        distinct_keys(upsert(entries, key, v)),
        exists|at: int|
            0 <= at < upsert(entries, key, v).len() && #[trigger] upsert(entries, key, v)[at] == (
                key,
                v,
            ),
        forall|j: int|
            0 <= j < upsert(entries, key, v).len() ==> (#[trigger] upsert(entries, key, v)[j]) == (
                key,
                v,
            ) || (j < entries.len() && upsert(entries, key, v)[j] == entries[j]),
{
    lemma_position(entries, key, 0);
    let at = position(entries, key, 0);
    let after = upsert(entries, key, v);
    assert(after[at] == (key, v));
    assert forall|i: int, j: int| 0 <= i < j < after.len() implies (#[trigger] after[i]).0 != (
        #[trigger] after[j]
    ).0 by {
        if at < entries.len() {
            assert(after[i].0 == entries[i].0);
            assert(after[j].0 == entries[j].0);
        } else if j < entries.len() {
            assert(after[i] == entries[i]);
            assert(after[j] == entries[j]);
        } else {
            assert(after[i] == entries[i]);
        }
    }
}

/// Entries whose keys are distinct make the object that holds just them, in
/// their order.
pub proof fn lemma_collapse_distinct(entries: Seq<(Seq<char>, Value)>)
    requires
        distinct_keys(entries),
    ensures
        collapse(entries) == entries,
    decreases entries.len(),
{
    if entries.len() == 0 {
        assert(collapse(entries) =~= entries);
    } else {
        let front = entries.drop_last();
        assert forall|i: int, j: int| 0 <= i < j < front.len() implies (#[trigger] front[i]).0 != (
            #[trigger] front[j]
        ).0 by {
            assert(front[i] == entries[i]);
            assert(front[j] == entries[j]);
        }
        lemma_collapse_distinct(front);
        lemma_position(front, entries.last().0, 0);
        if position(front, entries.last().0, 0) < front.len() {
            let at = position(front, entries.last().0, 0);
            assert(front[at] == entries[at]);
            assert(entries[at].0 != entries[entries.len() - 1].0);
        }
        assert(front.push(entries.last()) =~= entries);
    }
}

/// Whatever pairs an object is made of, its keys are distinct, and each of its
/// values is the value of one of the pairs.
pub proof fn lemma_collapse(pairs: Seq<(Seq<char>, Value)>)
    ensures
        distinct_keys(collapse(pairs)),
        forall|j: int|
            0 <= j < collapse(pairs).len() ==> exists|i: int|
                0 <= i < pairs.len() && (#[trigger] collapse(pairs)[j]) == #[trigger] pairs[i],
    decreases pairs.len(),
{
    if pairs.len() > 0 {
        let front = pairs.drop_last();
        lemma_collapse(front);
        lemma_upsert(collapse(front), pairs.last().0, pairs.last().1);
        let after = collapse(pairs);
        assert forall|j: int| 0 <= j < after.len() implies exists|i: int|
            0 <= i < pairs.len() && (#[trigger] after[j]) == #[trigger] pairs[i] by {
            if after[j] == (pairs.last().0, pairs.last().1) {
                assert(after[j] == pairs[pairs.len() - 1]);
            } else {
                assert(after[j] == collapse(front)[j]);
                let i = choose|i: int|
                    0 <= i < front.len() && (#[trigger] collapse(front)[j]) == #[trigger] front[i];
                assert(front[i] == pairs[i]);
            }
        }
    }
}

/// What unmarshalling returns is a valid value: in every object of it, no key
/// occurs twice.
pub proof fn lemma_unmarshalled_is_valid(f: Flat)
    requires
        readable(f),
    ensures
        unique_keys(value_of(f)),
    decreases f,
{
    let v = value_of(f);
    if f.tag == crate::value::FFI_KvsValueType::Array {
        let flats = f.array->0;
        assert forall|i: int| 0 <= i < v->Array_0.len() implies unique_keys(
            #[trigger] v->Array_0[i],
        ) by {
            assert(readable(f.array->0[i]));
            lemma_unmarshalled_is_valid(flats[i]);
        }
    } else if f.tag == crate::value::FFI_KvsValueType::Object {
        let flats = f.obj_values->0;
        let pairs = pairs_of(f.obj_keys->0, flats);
        lemma_collapse(pairs);
        assert forall|j: int| 0 <= j < v->Object_0.len() implies unique_keys(
            (#[trigger] v->Object_0[j]).1,
        ) by {
            let i = choose|i: int|
                0 <= i < pairs.len() && (#[trigger] collapse(pairs)[j]) == #[trigger] pairs[i];
            assert(readable(f.obj_values->0[i]));
            lemma_unmarshalled_is_valid(flats[i]);
        }
    }
}

/// What marshalling returns is in canonical form: exactly the slot that the
/// discriminant names is filled, and every other slot is zero or null.
pub proof fn lemma_marshalled_is_canonical(v: Value)
    requires
        nul_free(v),
    ensures
        canonical(flat_of(v)),
    decreases v,
{
    let f = flat_of(v);
    match v {
        Value::Array(items) => {
            assert forall|i: int| 0 <= i < f.array->0.len() implies canonical(
                #[trigger] f.array->0[i],
            ) by {
                assert(v->Array_0[i] == items[i]);
                lemma_marshalled_is_canonical(items[i]);
            }
        },
        Value::Object(entries) => {
            assert forall|i: int| 0 <= i < f.obj_values->0.len() implies canonical(
                #[trigger] f.obj_values->0[i],
            ) by {
                assert(v->Object_0[i] == entries[i]);
                lemma_marshalled_is_canonical(entries[i].1);
            }
            assert forall|i: int| 0 <= i < f.obj_keys->0.len() implies (
            #[trigger] f.obj_keys->0[i]) is Some && is_c_text(f.obj_keys->0[i]->0) by {
                assert(v->Object_0[i] == entries[i]);
            }
        },
        _ => {},
    }
}

/// A flat value in canonical form can be unmarshalled.
pub proof fn lemma_canonical_is_readable(f: Flat)
    requires
        canonical(f),
    ensures
        readable(f),
    decreases f,
{
    if f.tag == crate::value::FFI_KvsValueType::Array {
        assert forall|i: int| 0 <= i < f.array->0.len() implies readable(
            #[trigger] f.array->0[i],
        ) by {
            lemma_canonical_is_readable(f.array->0[i]);
        }
    } else if f.tag == crate::value::FFI_KvsValueType::Object {
        assert forall|i: int| 0 <= i < f.obj_values->0.len() implies readable(
            #[trigger] f.obj_values->0[i],
        ) by {
            lemma_canonical_is_readable(f.obj_values->0[i]);
        }
    }
}

/// Round trip: what marshalling makes of a valid value can be unmarshalled, and
/// unmarshalling gives the value back: every number bit for bit, every text
/// and array as it was, every object with the same keys and values.
pub proof fn lemma_round_trip(v: Value)
    requires
        unique_keys(v),
    ensures
        readable(flat_of(v)),
        value_of(flat_of(v)) == v,
    decreases v,
{
    let f = flat_of(v);
    match v {
        Value::Text(text) => {
            lemma_text_round_trip(text);
        },
        Value::Array(items) => {
            let flats = flats_of(items);
            assert forall|i: int| 0 <= i < items.len() implies readable(#[trigger] flats[i])
                && value_of(flats[i]) == items[i] by {
                assert(v->Array_0[i] == items[i]);
                lemma_round_trip(items[i]);
            }
            assert(f.array->0 == flats);
            assert(values_of(flats) =~= items);
        },
        Value::Object(entries) => {
            let keys = flat_keys_of(entries);
            let flats = flat_values_of(entries);
            assert forall|i: int| 0 <= i < entries.len() implies readable(#[trigger] flats[i])
                && value_of(flats[i]) == entries[i].1 && text_of_bytes(keys[i]->0)
                == entries[i].0 by {
                assert(v->Object_0[i] == entries[i]);
                lemma_round_trip(entries[i].1);
                lemma_text_round_trip(entries[i].0);
            }
            assert(f.obj_keys->0 == keys);
            assert(f.obj_values->0 == flats);
            assert(pairs_of(keys, flats) =~= entries);
            lemma_collapse_distinct(entries);
        },
        _ => {},
    }
}

} // verus!
