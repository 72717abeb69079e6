//! The operations of the store as they look at the boundary.
//!
//! The engine lives outside this library, so every operation comes in two
//! halves. The first half carries the operation's name. It looks at what the
//! caller handed over, a pointer being `None` where it is null, and either
//! rejects the call with a code, before the engine is asked anything, or says
//! what to ask the engine. The second half takes the engine's answer, fills the
//! caller's slot and gives the status code.
//!
//! The first half checks in a fixed order: a null handle, then any other null
//! pointer, then what the arguments hold.

use vstd::prelude::*;
use vstd::utf8::*;
use crate::codes::{ErrorCode, FFIErrorCode};
use crate::marshal::{
    c_text_of, ffi_kvsvalue_to_kvsvalue, flat_of, is_c_text, kvsvalue_to_ffi_kvsvalue, nul_free,
    readable, value_of,
};
use crate::value::{FFI_KvsValue, Flat, KvsValue, Value};

verus! {

/// Which engine instance is meant.
#[derive(Debug, Copy, Clone, PartialEq, Eq, Structural)]
pub struct InstanceId(pub usize);

/// Which retained snapshot is meant.
#[derive(Debug, Copy, Clone, PartialEq, Eq, Structural)]
pub struct SnapshotId(pub usize);

/// Whether the engine must find the file of default values when it opens.
#[derive(Debug, Copy, Clone, PartialEq, Eq, Structural)]
pub enum OpenNeedDefaults {
    /// Open with no defaults where the file is absent.
    Optional,
    /// Fail where the file is absent or invalid.
    Required,
}

/// Whether the engine must find the store's own file when it opens.
#[derive(Debug, Copy, Clone, PartialEq, Eq, Structural)]
pub enum OpenNeedKvs {
    /// Open an empty store where the file is absent.
    Optional,
    /// Fail where the file is absent or invalid.
    Required,
}

/// What the engine is asked when an instance is opened.
#[derive(Debug, Copy, Clone, PartialEq, Eq, Structural)]
pub struct OpenRequest {
    pub instance_id: InstanceId,
    pub need_defaults: OpenNeedDefaults,
    pub need_kvs: OpenNeedKvs,
}

/// The content of a step that asks the engine about a key.
pub open spec fn key_step_view(step: Result<String, FFIErrorCode>) -> Result<
    Seq<char>,
    FFIErrorCode,
> {
    match step {
        Ok(key) => Ok(key@),
        Err(code) => Err(code),
    }
}

/// The first half of an operation on a key: a null handle is rejected first,
/// then a null key or slot, then a key that is no valid UTF-8; otherwise the
/// engine is asked about the decoded key.
pub open spec fn key_step(handle_null: bool, key: Option<Seq<u8>>, slot_null: bool) -> Result<
    Seq<char>,
    FFIErrorCode,
> {
    if handle_null {
        Err(FFIErrorCode::InvalidKvsHandle)
    } else if key is None || slot_null {
        Err(FFIErrorCode::InvalidArgument)
    } else if !valid_utf8(key->0) {
        Err(FFIErrorCode::ConversionFailed)
    } else {
        Ok(decode_utf8(key->0))
    }
}

/// The content of a key argument.
pub open spec fn key_view(key: Option<&[u8]>) -> Option<Seq<u8>> {
    match key {
        Some(bytes) => Some(bytes@),
        None => None,
    }
}

/// The status code for an answer of the engine that carries no value.
pub open spec fn status_of(reply: Result<(), ErrorCode>) -> FFIErrorCode {
    match reply {
        Ok(_) => FFIErrorCode::Success,
        Err(err) => FFIErrorCode::of_engine(err),
    }
}

/// Reads bytes as text by `std::str::from_utf8`, which accepts exactly the
/// valid UTF-8 and hands out the text that the bytes encode.
#[verifier::external_body]
fn decode_strict(bytes: &[u8]) -> (text: Option<&str>)
    ensures
        text is Some <==> valid_utf8(bytes@),
        text is Some ==> text->0@ == decode_utf8(bytes@),
{
    match std::str::from_utf8(bytes) {
        Ok(text) => Some(text),
        Err(_) => None,
    }
}

/// The checks that all operations on a key share.
fn check_key(handle_null: bool, key: Option<&[u8]>, slot_null: bool) -> (step: Result<
    String,
    FFIErrorCode,
>)
    ensures
        key_step_view(step) == key_step(handle_null, key_view(key), slot_null),
{
    if handle_null {
        return Err(FFIErrorCode::InvalidKvsHandle);
    }
    if slot_null {
        return Err(FFIErrorCode::InvalidArgument);
    }
    match key {
        None => Err(FFIErrorCode::InvalidArgument),
        Some(bytes) => match decode_strict(bytes) {
            Some(text) => Ok(text.to_owned()),
            None => Err(FFIErrorCode::ConversionFailed),
        },
    }
}

/// Releases an instance. A null handle releases nothing. Says whether an
/// instance was released.
///
/// The handle is taken, so an instance cannot be released twice.
pub fn drop_kvs<H>(kvshandle: Option<H>) -> (released: bool)
    ensures
        released == kvshandle is Some,
{
    kvshandle.is_some()
}

/// Opening, first half: rejects a null slot for the handle, and otherwise says
/// which instance to open and what it must find. A requirement is `Required`
/// where its argument is 1 and `Optional` for every other number.
pub fn open_ffi<H>(
    instance_id: usize,
    need_defaults: u32,
    need_kvs: u32,
    kvshandle: Option<&Option<H>>,
) -> (step: Result<OpenRequest, FFIErrorCode>)
    ensures
        kvshandle is None ==> step == Err::<OpenRequest, FFIErrorCode>(
            FFIErrorCode::InvalidKvsHandle,
        ),
        kvshandle is Some ==> step == Ok::<OpenRequest, FFIErrorCode>(
            (OpenRequest {
                instance_id: InstanceId(instance_id),
                need_defaults: if need_defaults == 1 {
                    OpenNeedDefaults::Required
                } else {
                    OpenNeedDefaults::Optional
                },
                need_kvs: if need_kvs == 1 {
                    OpenNeedKvs::Required
                } else {
                    OpenNeedKvs::Optional
                },
            }),
        ),
{
    if kvshandle.is_none() {
        Err(FFIErrorCode::InvalidKvsHandle)
    } else {
        let defaults = if need_defaults == 1 {
            OpenNeedDefaults::Required
        } else {
            OpenNeedDefaults::Optional
        };
        let kvs_flag = if need_kvs == 1 {
            OpenNeedKvs::Required
        } else {
            OpenNeedKvs::Optional
        };
        Ok(
            OpenRequest {
                instance_id: InstanceId(instance_id),
                need_defaults: defaults,
                need_kvs: kvs_flag,
            },
        )
    }
}

/// Opening, second half: an instance that the engine opened goes into the
/// caller's slot, whose owner the caller then is; a failure leaves the slot as
/// it was.
pub fn open_reply<H>(reply: Result<H, ErrorCode>, kvshandle: &mut Option<H>) -> (code:
    FFIErrorCode)
    ensures
        match reply {
            Ok(kvs) => code == FFIErrorCode::Success && *final(kvshandle) == Some(kvs),
            Err(err) => code == FFIErrorCode::of_engine(err)
                && *final(kvshandle) == *old(kvshandle),
        },
{
    match reply {
        Ok(kvs) => {
            *kvshandle = Some(kvs);
            FFIErrorCode::Success
        },
        Err(err) => FFIErrorCode::from(err),
    }
}

/// The second half of every operation whose answer carries no value: success,
/// or the engine's failure under its own code.
pub fn status_reply(reply: Result<(), ErrorCode>) -> (code: FFIErrorCode)
    ensures
        code == status_of(reply),
{
    match reply {
        Ok(_) => FFIErrorCode::Success,
        Err(err) => FFIErrorCode::from(err),
    }
}

/// Reset, first half: rejects a null handle. Reset is the one operation that
/// needs the instance for itself alone.
pub fn reset_ffi<H>(kvshandle: Option<&mut H>) -> (step: Result<(), FFIErrorCode>)
    ensures
        kvshandle is None ==> step == Err::<(), FFIErrorCode>(FFIErrorCode::InvalidKvsHandle),
        kvshandle is Some ==> step is Ok,
{
    if kvshandle.is_none() {
        Err(FFIErrorCode::InvalidKvsHandle)
    } else {
        Ok(())
    }
}

/// Flush, first half: rejects a null handle.
pub fn flush_ffi<H>(kvshandle: Option<&H>) -> (step: Result<(), FFIErrorCode>)
    ensures
        kvshandle is None ==> step == Err::<(), FFIErrorCode>(FFIErrorCode::InvalidKvsHandle),
        kvshandle is Some ==> step is Ok,
{
    if kvshandle.is_none() {
        Err(FFIErrorCode::InvalidKvsHandle)
    } else {
        Ok(())
    }
}

/// Whether a key exists, first half. `Ok` holds the key to ask the engine
/// about.
pub fn key_exists_ffi<H>(kvshandle: Option<&H>, key: Option<&[u8]>, key_exists: Option<&u8>) -> (step:
    Result<String, FFIErrorCode>)
    ensures
        kvshandle is None ==> step == Err::<String, FFIErrorCode>(FFIErrorCode::InvalidKvsHandle),
        key_step_view(step) == key_step(kvshandle is None, key_view(key), key_exists is None),
{
    check_key(kvshandle.is_none(), key, key_exists.is_none())
}

/// Whether a key still has its default value, first half. `Ok` holds the key
/// to ask the engine about.
pub fn is_value_default_ffi<H>(
    kvshandle: Option<&H>,
    key: Option<&[u8]>,
    is_default: Option<&u8>,
) -> (step: Result<String, FFIErrorCode>)
    ensures
        kvshandle is None ==> step == Err::<String, FFIErrorCode>(FFIErrorCode::InvalidKvsHandle),
        key_step_view(step) == key_step(kvshandle is None, key_view(key), is_default is None),
{
    check_key(kvshandle.is_none(), key, is_default.is_none())
}

/// The second half of the two operations that answer yes or no: the caller's
/// slot takes 1 for yes and 0 for no; a failure leaves it as it was.
pub fn flag_reply(reply: Result<bool, ErrorCode>, flag: &mut u8) -> (code: FFIErrorCode)
    ensures
        match reply {
            Ok(yes) => code == FFIErrorCode::Success && *final(flag) == (if yes {
                1u8
            } else {
                0u8
            }),
            Err(err) => code == FFIErrorCode::of_engine(err) && *final(flag) == *old(flag),
        },
{
    match reply {
        Ok(yes) => {
            *flag = if yes {
                1
            } else {
                0
            };
            FFIErrorCode::Success
        },
        Err(err) => FFIErrorCode::from(err),
    }
}

/// The default value of a key, first half. `Ok` holds the key to ask the
/// engine about.
pub fn get_default_value_ffi<H>(
    kvshandle: Option<&H>,
    key: Option<&[u8]>,
    out: Option<&FFI_KvsValue>,
) -> (step: Result<String, FFIErrorCode>)
    ensures
        kvshandle is None ==> step == Err::<String, FFIErrorCode>(FFIErrorCode::InvalidKvsHandle),
        key_step_view(step) == key_step(kvshandle is None, key_view(key), out is None),
{
    check_key(kvshandle.is_none(), key, out.is_none())
}

/// What the second half of reading a value does with the engine's answer: a
/// value that can cross the boundary is marshalled into the caller's slot; one
/// that holds a zero byte in a text or key is refused as `ConversionFailed`;
/// that and an engine failure leave the slot as it was.
pub open spec fn value_reply_spec(reply: Result<Value, ErrorCode>, before: Flat) -> (
    FFIErrorCode,
    Flat,
) {
    match reply {
        Ok(v) => if nul_free(v) {
            (FFIErrorCode::Success, flat_of(v))
        } else {
            (FFIErrorCode::ConversionFailed, before)
        },
        Err(err) => (FFIErrorCode::of_engine(err), before),
    }
}

/// The content of the engine's answer to a question for a value.
pub open spec fn value_reply_view(reply: Result<KvsValue, ErrorCode>) -> Result<Value, ErrorCode> {
    match reply {
        Ok(v) => Ok(v@),
        Err(err) => Err(err),
    }
}

/// The default value of a key, second half. The caller owns what the slot
/// holds afterwards and releases it.
pub fn value_reply(reply: Result<KvsValue, ErrorCode>, out: &mut FFI_KvsValue) -> (code:
    FFIErrorCode)
    ensures
        (code, final(out)@) == value_reply_spec(value_reply_view(reply), old(out)@),
{
    match reply {
        Ok(v) => {
            if v.can_cross() {
                *out = kvsvalue_to_ffi_kvsvalue(&v);
                FFIErrorCode::Success
            } else {
                FFIErrorCode::ConversionFailed
            }
        },
        Err(err) => FFIErrorCode::from(err),
    }
}

/// The first half of setting a value: a null handle is rejected first, then a
/// null key or value, then a key that is no valid UTF-8, then a value with a
/// null pointer where unmarshalling would follow one; otherwise the engine is
/// asked to set the decoded key to the unmarshalled value.
pub open spec fn set_value_step(handle_null: bool, key: Option<Seq<u8>>, v: Option<Flat>) -> Result<
    (Seq<char>, Value),
    FFIErrorCode,
> {
    if handle_null {
        Err(FFIErrorCode::InvalidKvsHandle)
    } else if key is None || v is None {
        Err(FFIErrorCode::InvalidArgument)
    } else if !valid_utf8(key->0) {
        Err(FFIErrorCode::ConversionFailed)
    } else if !readable(v->0) {
        Err(FFIErrorCode::InvalidArgument)
    } else {
        Ok((decode_utf8(key->0), value_of(v->0)))
    }
}

/// The content of a step that asks the engine to set a value.
pub open spec fn set_value_step_view(step: Result<(String, KvsValue), FFIErrorCode>) -> Result<
    (Seq<char>, Value),
    FFIErrorCode,
> {
    match step {
        Ok(pair) => Ok((pair.0@, pair.1@)),
        Err(code) => Err(code),
    }
}

/// The content of a value argument.
pub open spec fn flat_arg_view(v: Option<&FFI_KvsValue>) -> Option<Flat> {
    match v {
        Some(flat) => Some(flat@),
        None => None,
    }
}

/// Setting a value, first half. `Ok` holds the key and the value to hand to
/// the engine. The caller's flat value is read and stays the caller's.
pub fn set_value_ffi<H>(
    kvshandle: Option<&H>,
    key: Option<&[u8]>,
    ffi_val: Option<&FFI_KvsValue>,
) -> (step: Result<(String, KvsValue), FFIErrorCode>)
    ensures
        kvshandle is None ==> set_value_step_view(step) == Err::<(Seq<char>, Value), FFIErrorCode>(
            FFIErrorCode::InvalidKvsHandle,
        ),
        set_value_step_view(step) == set_value_step(
            kvshandle is None,
            key_view(key),
            flat_arg_view(ffi_val),
        ),
{
    match check_key(kvshandle.is_none(), key, ffi_val.is_none()) {
        Err(code) => Err(code),
        Ok(text) => {
            let flat = ffi_val.unwrap();
            if flat.is_readable() {
                Ok((text, ffi_kvsvalue_to_kvsvalue(flat)))
            } else {
                Err(FFIErrorCode::InvalidArgument)
            }
        },
    }
}

/// Removing a key, first half. `Ok` holds the key to hand to the engine.
pub fn remove_key_ffi<H>(kvshandle: Option<&H>, key: Option<&[u8]>) -> (step: Result<
    String,
    FFIErrorCode,
>)
    ensures
        kvshandle is None ==> step == Err::<String, FFIErrorCode>(FFIErrorCode::InvalidKvsHandle),
        key_step_view(step) == key_step(kvshandle is None, key_view(key), false),
{
    check_key(kvshandle.is_none(), key, false)
}

/// The number of retained snapshots, first half: rejects a null handle, then
/// a null slot.
pub fn snapshot_count_ffi<H>(kvshandle: Option<&H>, count: Option<&usize>) -> (step: Result<
    (),
    FFIErrorCode,
>)
    ensures
        kvshandle is None ==> step == Err::<(), FFIErrorCode>(FFIErrorCode::InvalidKvsHandle),
        kvshandle is Some && count is None ==> step == Err::<(), FFIErrorCode>(
            FFIErrorCode::InvalidArgument,
        ),
        kvshandle is Some && count is Some ==> step is Ok,
{
    if kvshandle.is_none() {
        Err(FFIErrorCode::InvalidKvsHandle)
    } else if count.is_none() {
        Err(FFIErrorCode::InvalidArgument)
    } else {
        Ok(())
    }
}

/// The largest number of snapshots that the engine retains, first half:
/// rejects a null slot. The limit belongs to the engine, not to an instance,
/// so no handle is asked for.
pub fn snapshot_max_count_ffi(max: Option<&usize>) -> (step: Result<(), FFIErrorCode>)
    ensures
        max is None ==> step == Err::<(), FFIErrorCode>(FFIErrorCode::InvalidArgument),
        max is Some ==> step is Ok,
{
    if max.is_none() {
        Err(FFIErrorCode::InvalidArgument)
    } else {
        Ok(())
    }
}

/// The second half of the two operations that answer with a count, which
/// cannot fail: the count goes into the caller's slot.
pub fn count_reply(reply: usize, count: &mut usize) -> (code: FFIErrorCode)
    ensures
        code == FFIErrorCode::Success,
        *final(count) == reply,
{
    *count = reply;
    FFIErrorCode::Success
}

/// Restoring a snapshot, first half: rejects a null handle. `Ok` holds the
/// snapshot to hand to the engine, which is the one to say whether there is
/// such a snapshot.
pub fn snapshot_restore_ffi<H>(kvshandle: Option<&H>, id: usize) -> (step: Result<
    SnapshotId,
    FFIErrorCode,
>)
    ensures
        kvshandle is None ==> step == Err::<SnapshotId, FFIErrorCode>(
            FFIErrorCode::InvalidKvsHandle,
        ),
        kvshandle is Some ==> step == Ok::<SnapshotId, FFIErrorCode>(SnapshotId(id)),
{
    if kvshandle.is_none() {
        Err(FFIErrorCode::InvalidKvsHandle)
    } else {
        Ok(SnapshotId(id))
    }
}

/// The first half of asking for a file name: a null handle is rejected first,
/// then a null slot; otherwise the engine is asked for the name that belongs
/// to the snapshot.
pub open spec fn filename_step(handle_null: bool, id: usize, slot_null: bool) -> Result<
    SnapshotId,
    FFIErrorCode,
> {
    if handle_null {
        Err(FFIErrorCode::InvalidKvsHandle)
    } else if slot_null {
        Err(FFIErrorCode::InvalidArgument)
    } else {
        Ok(SnapshotId(id))
    }
}

/// The checks that the two questions for a file name share.
fn check_filename(handle_null: bool, id: usize, slot_null: bool) -> (step: Result<
    SnapshotId,
    FFIErrorCode,
>)
    ensures
        step == filename_step(handle_null, id, slot_null),
{
    if handle_null {
        Err(FFIErrorCode::InvalidKvsHandle)
    } else if slot_null {
        Err(FFIErrorCode::InvalidArgument)
    } else {
        Ok(SnapshotId(id))
    }
}

/// The name of a snapshot's store file, first half.
pub fn get_kvs_filename_ffi<H>(
    kvshandle: Option<&H>,
    id: usize,
    filename: Option<&Option<Vec<u8>>>,
) -> (step: Result<SnapshotId, FFIErrorCode>)
    ensures
        kvshandle is None ==> step == Err::<SnapshotId, FFIErrorCode>(
            FFIErrorCode::InvalidKvsHandle,
        ),
        step == filename_step(kvshandle is None, id, filename is None),
{
    check_filename(kvshandle.is_none(), id, filename.is_none())
}

/// The name of a snapshot's hash file, first half.
pub fn get_hash_filename_ffi<H>(
    kvshandle: Option<&H>,
    id: usize,
    filename: Option<&Option<Vec<u8>>>,
) -> (step: Result<SnapshotId, FFIErrorCode>)
    ensures
        kvshandle is None ==> step == Err::<SnapshotId, FFIErrorCode>(
            FFIErrorCode::InvalidKvsHandle,
        ),
        step == filename_step(kvshandle is None, id, filename is None),
{
    check_filename(kvshandle.is_none(), id, filename.is_none())
}

/// The second half of the two questions for a file name: the name goes into
/// the caller's slot as terminated text of its own, which the caller releases
/// with `free_rust_cstring`. A name that holds a zero byte is refused as
/// `ConversionFailed` and leaves the slot as it was.
pub fn filename_reply(name: &str, filename: &mut Option<Vec<u8>>) -> (code: FFIErrorCode)
    ensures
        is_c_text(encode_utf8(name@)) ==> code == FFIErrorCode::Success && *final(filename)
            is Some && final(filename)->0@ == encode_utf8(name@),
        !is_c_text(encode_utf8(name@)) ==> code == FFIErrorCode::ConversionFailed
            && *final(filename) == *old(filename),
{
    match c_text_of(name) {
        Some(bytes) => {
            *filename = Some(bytes);
            FFIErrorCode::Success
        },
        None => FFIErrorCode::ConversionFailed,
    }
}

/// Listing all keys, first half: rejects a null handle, then a null slot for
/// the array or for its length.
pub fn get_all_keys_ffi<H>(
    kvshandle: Option<&H>,
    vec_keys: Option<&Option<Vec<Vec<u8>>>>,
    vec_len: Option<&usize>,
) -> (step: Result<(), FFIErrorCode>)
    ensures
        kvshandle is None ==> step == Err::<(), FFIErrorCode>(FFIErrorCode::InvalidKvsHandle),
        kvshandle is Some && (vec_keys is None || vec_len is None) ==> step == Err::<
            (),
            FFIErrorCode,
        >(FFIErrorCode::InvalidArgument),
        kvshandle is Some && vec_keys is Some && vec_len is Some ==> step is Ok,
{
    if kvshandle.is_none() {
        Err(FFIErrorCode::InvalidKvsHandle)
    } else if vec_keys.is_none() || vec_len.is_none() {
        Err(FFIErrorCode::InvalidArgument)
    } else {
        Ok(())
    }
}

/// Every one of the keys can cross the boundary as terminated text.
pub open spec fn keys_can_cross(keys: Seq<String>) -> bool {
    forall|i: int| 0 <= i < keys.len() ==> is_c_text(encode_utf8(#[trigger] keys[i]@))
}

/// The keys as terminated texts, in their order.
pub open spec fn key_texts(keys: Seq<String>) -> Seq<Seq<u8>> {
    Seq::new(keys.len(), |i: int| encode_utf8(keys[i]@))
}

/// The content of an array of texts.
pub open spec fn texts_of(texts: Seq<Vec<u8>>) -> Seq<Seq<u8>> {
    Seq::new(texts.len(), |i: int| texts[i]@)
}

/// Listing all keys, second half. Where the engine answers with keys that can
/// all cross the boundary, the caller's slots take an array of as many texts,
/// in the engine's order, and its length: the caller then owns the array and
/// each text, and releases the array with `free_all_keys_vec_ffi` and each
/// text with `free_rust_cstring`. A key that holds a zero byte has the whole
/// answer refused as `ConversionFailed`; that and an engine failure leave the
/// slots as they were.
pub fn all_keys_reply(
    reply: Result<Vec<String>, ErrorCode>,
    vec_keys: &mut Option<Vec<Vec<u8>>>,
    vec_len: &mut usize,
) -> (code: FFIErrorCode)
    ensures
        match reply {
            Ok(keys) => if keys_can_cross(keys@) {
                code == FFIErrorCode::Success && *final(vec_keys) is Some && texts_of(
                    final(vec_keys)->0@,
                ) == key_texts(keys@) && *final(vec_len) == keys@.len()
            } else {
                code == FFIErrorCode::ConversionFailed && *final(vec_keys) == *old(vec_keys)
                    && *final(vec_len) == *old(vec_len)
            },
            Err(err) => code == FFIErrorCode::of_engine(err) && *final(vec_keys) == *old(vec_keys)
                && *final(vec_len) == *old(vec_len),
        },
{
    match reply {
        Ok(keys) => {
            let mut texts: Vec<Vec<u8>> = Vec::new();
            let mut i: usize = 0;
            while i < keys.len()
                invariant
                    i <= keys.len(),
                    texts.len() == i,
                    *vec_keys == *old(vec_keys),
                    *vec_len == *old(vec_len),
                    reply == Ok::<Vec<String>, ErrorCode>(keys),
                    forall|j: int| 0 <= j < i ==> is_c_text(encode_utf8(#[trigger] keys@[j]@)),
                    forall|j: int| 0 <= j < i ==> (#[trigger] texts@[j])@ == encode_utf8(keys@[j]@),
                decreases keys.len() - i,
            {
                match c_text_of(keys[i].as_str()) {
                    Some(bytes) => {
                        texts.push(bytes);
                    },
                    None => {
                        assert(!is_c_text(encode_utf8(keys@[i as int]@)));
                        return FFIErrorCode::ConversionFailed;
                    },
                }
                i += 1;
            }
            assert(texts_of(texts@) =~= key_texts(keys@));
            *vec_len = texts.len();
            *vec_keys = Some(texts);
            FFIErrorCode::Success
        },
        Err(err) => FFIErrorCode::from(err),
    }
}

/// Releases the array of a key listing and nothing else: the texts that it
/// held come back and stay the caller's, to keep, to hand on, or to release
/// one by one. Says how many buffers went: one, or none for a null array.
pub fn free_all_keys_vec_ffi(vec_ptr: Option<Vec<Vec<u8>>>) -> (left: (usize, Vec<Vec<u8>>))
    ensures
        match vec_ptr {
            Some(texts) => left.0 == 1 && left.1 == texts,
            None => left.0 == 0 && left.1@.len() == 0,
        },
{
    match vec_ptr {
        Some(texts) => (1, texts),
        None => (0, Vec::new()),
    }
}

/// Releases one text that this library handed out. Says how many buffers
/// went: one, or none for a null pointer.
pub fn free_rust_cstring(ptr: Option<Vec<u8>>) -> (released: usize)
    ensures
        released == (if ptr is Some {
            1usize
        } else {
            0usize
        }),
{
    match ptr {
        Some(_) => 1,
        None => 0,
    }
}

/// Null-handle short circuit: whatever else an operation was handed, with a
/// null handle its first half answers `InvalidKvsHandle` and names nothing to
/// ask the engine.
pub proof fn lemma_null_handle_short_circuit(
    key: Option<Seq<u8>>,
    v: Option<Flat>,
    id: usize,
    slot_null: bool,
)
    ensures
        key_step(true, key, slot_null) == Err::<Seq<char>, FFIErrorCode>(
            FFIErrorCode::InvalidKvsHandle,
        ),
        set_value_step(true, key, v) == Err::<(Seq<char>, Value), FFIErrorCode>(
            FFIErrorCode::InvalidKvsHandle,
        ),
        filename_step(true, id, slot_null) == Err::<SnapshotId, FFIErrorCode>(
            FFIErrorCode::InvalidKvsHandle,
        ),
{
}

/// A call that its first half rejects is rejected with a boundary code or
/// with `ConversionFailed`, never with success.
pub proof fn lemma_rejections(handle_null: bool, key: Option<Seq<u8>>, v: Option<Flat>, slot_null: bool)
    ensures
        key_step(handle_null, key, slot_null) is Err ==> {
            let code = key_step(handle_null, key, slot_null)->Err_0;
            code.is_boundary() || code == FFIErrorCode::ConversionFailed
        },
        set_value_step(handle_null, key, v) is Err ==> {
            let code = set_value_step(handle_null, key, v)->Err_0;
            code.is_boundary() || code == FFIErrorCode::ConversionFailed
        },
{
}

} // verus!
