use kvs_ffi::{
    all_keys_reply, count_reply, drop_kvs, filename_reply, flag_reply, flush_ffi,
    free_all_keys_vec_ffi, free_ffi_kvsvalue_rust, free_rust_cstring, get_all_keys_ffi,
    get_default_value_ffi, get_hash_filename_ffi, get_kvs_filename_ffi, is_value_default_ffi,
    key_exists_ffi, kvsvalue_to_ffi_kvsvalue, open_ffi, open_reply, remove_key_ffi, reset_ffi,
    set_value_ffi, snapshot_count_ffi, snapshot_max_count_ffi, snapshot_restore_ffi, status_reply,
    value_reply, ErrorCode, FFIErrorCode, FFI_KvsValue, FFI_KvsValueType, InstanceId, KvsValue,
    OpenNeedDefaults, OpenNeedKvs, OpenRequest, SnapshotId,
};
use std::cell::{Cell, RefCell};

const MAX_SNAPSHOTS: usize = 3;

/// An engine that counts how often it is asked.
struct Stub {
    calls: Cell<usize>,
    entries: RefCell<Vec<(String, KvsValue)>>,
}

impl Stub {
    fn new() -> Stub {
        Stub { calls: Cell::new(0), entries: RefCell::new(Vec::new()) }
    }

    fn asked(&self) {
        self.calls.set(self.calls.get() + 1);
    }

    fn key_exists(&self, key: &str) -> Result<bool, ErrorCode> {
        self.asked();
        Ok(self.entries.borrow().iter().any(|(k, _)| k == key))
    }

    fn set_value(&self, key: &str, value: KvsValue) -> Result<(), ErrorCode> {
        self.asked();
        let mut entries = self.entries.borrow_mut();
        entries.retain(|(k, _)| k != key);
        entries.push((key.to_string(), value));
        Ok(())
    }

    fn remove_key(&self, key: &str) -> Result<(), ErrorCode> {
        self.asked();
        let mut entries = self.entries.borrow_mut();
        let before = entries.len();
        entries.retain(|(k, _)| k != key);
        if entries.len() < before {
            Ok(())
        } else {
            Err(ErrorCode::KeyNotFound)
        }
    }

    fn get_default_value(&self, key: &str) -> Result<KvsValue, ErrorCode> {
        self.asked();
        if key == "x" {
            Ok(KvsValue::Number(1.0f64.to_bits()))
        } else {
            Err(ErrorCode::KeyNotFound)
        }
    }

    fn get_all_keys(&self) -> Result<Vec<String>, ErrorCode> {
        self.asked();
        Ok(self.entries.borrow().iter().map(|(k, _)| k.clone()).collect())
    }

    fn snapshot_restore(&self, id: SnapshotId) -> Result<(), ErrorCode> {
        self.asked();
        if id.0 >= MAX_SNAPSHOTS {
            Err(ErrorCode::InvalidSnapshotId)
        } else {
            Ok(())
        }
    }
}

fn key_exists(engine: Option<&Stub>, key: Option<&[u8]>, out: Option<&mut u8>) -> FFIErrorCode {
    match key_exists_ffi(engine, key, out.as_deref()) {
        Err(code) => code,
        Ok(key) => flag_reply(engine.unwrap().key_exists(&key), out.unwrap()),
    }
}

fn set_value(
    engine: Option<&Stub>,
    key: Option<&[u8]>,
    value: Option<&FFI_KvsValue>,
) -> FFIErrorCode {
    match set_value_ffi(engine, key, value) {
        Err(code) => code,
        Ok((key, value)) => status_reply(engine.unwrap().set_value(&key, value)),
    }
}

fn get_default_value(
    engine: Option<&Stub>,
    key: Option<&[u8]>,
    out: Option<&mut FFI_KvsValue>,
) -> FFIErrorCode {
    match get_default_value_ffi(engine, key, out.as_deref()) {
        Err(code) => code,
        Ok(key) => value_reply(engine.unwrap().get_default_value(&key), out.unwrap()),
    }
}

fn snapshot_restore(engine: Option<&Stub>, id: usize) -> FFIErrorCode {
    match snapshot_restore_ffi(engine, id) {
        Err(code) => code,
        Ok(id) => status_reply(engine.unwrap().snapshot_restore(id)),
    }
}

#[test]
fn open_names_the_instance_and_what_it_must_find() {
    let slot: Option<Stub> = None;
    assert_eq!(
        open_ffi(1, 0, 0, Some(&slot)),
        Ok(OpenRequest {
            instance_id: InstanceId(1),
            need_defaults: OpenNeedDefaults::Optional,
            need_kvs: OpenNeedKvs::Optional,
        })
    );
    assert_eq!(
        open_ffi(7, 1, 2, Some(&slot)),
        Ok(OpenRequest {
            instance_id: InstanceId(7),
            need_defaults: OpenNeedDefaults::Required,
            need_kvs: OpenNeedKvs::Optional,
        })
    );
    assert_eq!(
        open_ffi(0, 0, 1, Some(&slot)),
        Ok(OpenRequest {
            instance_id: InstanceId(0),
            need_defaults: OpenNeedDefaults::Optional,
            need_kvs: OpenNeedKvs::Required,
        })
    );
}

#[test]
fn open_without_a_slot_is_rejected() {
    assert_eq!(open_ffi::<Stub>(1, 1, 1, None), Err(FFIErrorCode::InvalidKvsHandle));
}

#[test]
fn open_reply_fills_the_slot_or_leaves_it() {
    let mut slot: Option<u32> = None;
    assert_eq!(open_reply(Err(ErrorCode::FileNotFound), &mut slot), FFIErrorCode::FileNotFound);
    assert_eq!(slot, None);
    assert_eq!(open_reply(Ok(5), &mut slot), FFIErrorCode::Success);
    assert_eq!(slot, Some(5));
    assert_eq!(
        open_reply(Err(ErrorCode::KvsHashFileReadError), &mut slot),
        FFIErrorCode::KvsHashFileReadError
    );
    assert_eq!(slot, Some(5));
}

#[test]
fn drop_releases_an_instance_once() {
    assert!(drop_kvs(Some(Stub::new())));
    assert!(!drop_kvs::<Stub>(None));
}

#[test]
fn null_handle_short_circuits_every_operation() {
    let none: Option<&Stub> = None;
    let flat = FFI_KvsValue::null();
    let (byte, word, name, keys) = (0u8, 0usize, None, None);
    let rejected = FFIErrorCode::InvalidKvsHandle;
    assert_eq!(reset_ffi::<Stub>(None), Err(rejected));
    assert_eq!(flush_ffi(none), Err(rejected));
    assert_eq!(get_all_keys_ffi(none, Some(&keys), Some(&word)), Err(rejected));
    assert_eq!(get_all_keys_ffi(none, None, None), Err(rejected));
    assert_eq!(key_exists_ffi(none, Some(b"x"), Some(&byte)), Err(rejected));
    assert_eq!(key_exists_ffi(none, None, None), Err(rejected));
    assert_eq!(is_value_default_ffi(none, Some(b"x"), Some(&byte)), Err(rejected));
    assert_eq!(get_default_value_ffi(none, Some(b"x"), Some(&flat)), Err(rejected));
    assert_eq!(get_default_value_ffi(none, Some(&[0xff]), None), Err(rejected));
    assert_eq!(set_value_ffi(none, Some(b"x"), Some(&flat)), Err(rejected));
    assert_eq!(set_value_ffi(none, None, None), Err(rejected));
    assert_eq!(remove_key_ffi(none, Some(b"x")), Err(rejected));
    assert_eq!(snapshot_count_ffi(none, Some(&word)), Err(rejected));
    assert_eq!(snapshot_restore_ffi(none, 0), Err(rejected));
    assert_eq!(get_kvs_filename_ffi(none, 0, Some(&name)), Err(rejected));
    assert_eq!(get_hash_filename_ffi(none, 0, Some(&name)), Err(rejected));
    assert_eq!(rejected.code(), 101);
}

#[test]
fn null_handle_reaches_no_engine() {
    let engine = Stub::new();
    let mut byte = 9u8;
    let mut flat = FFI_KvsValue::null();
    assert_eq!(key_exists(None, Some(b"x"), Some(&mut byte)), FFIErrorCode::InvalidKvsHandle);
    assert_eq!(set_value(None, Some(b"x"), Some(&flat)), FFIErrorCode::InvalidKvsHandle);
    assert_eq!(
        get_default_value(None, Some(b"x"), Some(&mut flat)),
        FFIErrorCode::InvalidKvsHandle
    );
    assert_eq!(snapshot_restore(None, 0), FFIErrorCode::InvalidKvsHandle);
    assert_eq!(byte, 9);
    assert_eq!(flat, FFI_KvsValue::null());
    assert_eq!(engine.calls.get(), 0);
}

#[test]
fn null_arguments_are_rejected_before_the_engine_is_asked() {
    let engine = Stub::new();
    let some = Some(&engine);
    let flat = FFI_KvsValue::null();
    let (byte, word, name, keys) = (0u8, 0usize, None, None);
    let rejected = FFIErrorCode::InvalidArgument;
    assert_eq!(key_exists_ffi(some, None, Some(&byte)), Err(rejected));
    assert_eq!(key_exists_ffi(some, Some(b"x"), None), Err(rejected));
    assert_eq!(is_value_default_ffi(some, None, Some(&byte)), Err(rejected));
    assert_eq!(is_value_default_ffi(some, Some(b"x"), None), Err(rejected));
    assert_eq!(get_default_value_ffi(some, None, Some(&flat)), Err(rejected));
    assert_eq!(get_default_value_ffi(some, Some(b"x"), None), Err(rejected));
    assert_eq!(set_value_ffi(some, None, Some(&flat)), Err(rejected));
    assert_eq!(set_value_ffi(some, Some(b"x"), None), Err(rejected));
    assert_eq!(remove_key_ffi(some, None), Err(rejected));
    assert_eq!(snapshot_count_ffi(some, None), Err(rejected));
    assert_eq!(snapshot_max_count_ffi(None), Err(rejected));
    assert_eq!(get_kvs_filename_ffi(some, 1, None), Err(rejected));
    assert_eq!(get_hash_filename_ffi(some, 1, None), Err(rejected));
    assert_eq!(get_all_keys_ffi(some, None, Some(&word)), Err(rejected));
    assert_eq!(get_all_keys_ffi(some, Some(&keys), None), Err(rejected));
    assert_eq!(get_kvs_filename_ffi(some, 1, Some(&name)), Ok(SnapshotId(1)));
    assert_eq!(rejected.code(), 102);
    assert_eq!(engine.calls.get(), 0);
}

#[test]
fn well_formed_calls_name_what_to_ask() {
    let mut engine = Stub::new();
    let (byte, word, name, keys) = (0u8, 0usize, None, None);
    assert_eq!(reset_ffi(Some(&mut engine)), Ok(()));
    let some = Some(&engine);
    assert_eq!(flush_ffi(some), Ok(()));
    assert_eq!(key_exists_ffi(some, Some(b"key"), Some(&byte)), Ok("key".to_string()));
    assert_eq!(
        is_value_default_ffi(some, Some("gr\u{fc}n".as_bytes()), Some(&byte)),
        Ok("gr\u{fc}n".to_string())
    );
    assert_eq!(remove_key_ffi(some, Some(b"")), Ok(String::new()));
    assert_eq!(snapshot_count_ffi(some, Some(&word)), Ok(()));
    assert_eq!(snapshot_max_count_ffi(Some(&word)), Ok(()));
    assert_eq!(snapshot_restore_ffi(some, 2), Ok(SnapshotId(2)));
    assert_eq!(get_hash_filename_ffi(some, 4, Some(&name)), Ok(SnapshotId(4)));
    assert_eq!(get_all_keys_ffi(some, Some(&keys), Some(&word)), Ok(()));
}

#[test]
fn key_that_is_no_text_is_a_conversion_failure() {
    let engine = Stub::new();
    let some = Some(&engine);
    let byte = 0u8;
    let flat = FFI_KvsValue::null();
    let rejected = FFIErrorCode::ConversionFailed;
    assert_eq!(key_exists_ffi(some, Some(&[b'a', 0xff]), Some(&byte)), Err(rejected));
    assert_eq!(is_value_default_ffi(some, Some(&[0xc3]), Some(&byte)), Err(rejected));
    assert_eq!(get_default_value_ffi(some, Some(&[0x80]), Some(&flat)), Err(rejected));
    assert_eq!(remove_key_ffi(some, Some(&[0xed, 0xa0, 0x80])), Err(rejected));
    assert_eq!(set_value_ffi(some, Some(&[0xff]), Some(&flat)), Err(rejected));
    assert_eq!(key_exists_ffi(some, Some(&[b'a', 0xff]), None), Err(FFIErrorCode::InvalidArgument));
    assert_eq!(rejected.code(), 17);
    assert_eq!(engine.calls.get(), 0);
}

#[test]
fn set_value_unmarshals_what_it_hands_on() {
    let engine = Stub::new();
    let value = KvsValue::Array(vec![KvsValue::String("a".to_string()), KvsValue::Null]);
    let flat = kvsvalue_to_ffi_kvsvalue(&value);
    assert_eq!(set_value_ffi(Some(&engine), Some(b"k"), Some(&flat)), Ok(("k".to_string(), value)));
}

#[test]
fn set_value_rejects_a_value_with_a_null_pointer_inside() {
    let engine = Stub::new();
    let mut inner = FFI_KvsValue::null();
    inner.type_ = FFI_KvsValueType::String;
    let mut flat = FFI_KvsValue::null();
    flat.type_ = FFI_KvsValueType::Array;
    flat.array = Some(vec![inner]);
    assert_eq!(
        set_value(Some(&engine), Some(b"k"), Some(&flat)),
        FFIErrorCode::InvalidArgument
    );
    assert_eq!(set_value(Some(&engine), Some(&[0xff]), Some(&flat)), FFIErrorCode::ConversionFailed);
    assert_eq!(engine.calls.get(), 0);
}

#[test]
fn status_reply_passes_the_engine_failure_on() {
    assert_eq!(status_reply(Ok(())), FFIErrorCode::Success);
    assert_eq!(status_reply(Err(ErrorCode::ResourceBusy)), FFIErrorCode::ResourceBusy);
    assert_eq!(status_reply(Err(ErrorCode::MutexLockFailed)), FFIErrorCode::MutexLockFailed);
    assert_eq!(status_reply(Err(ErrorCode::UnmappedError)).code(), 0);
}

#[test]
fn flag_reply_writes_one_or_zero() {
    let mut flag = 7u8;
    assert_eq!(flag_reply(Err(ErrorCode::KeyNotFound), &mut flag), FFIErrorCode::KeyNotFound);
    assert_eq!(flag, 7);
    assert_eq!(flag_reply(Ok(true), &mut flag), FFIErrorCode::Success);
    assert_eq!(flag, 1);
    assert_eq!(flag_reply(Ok(false), &mut flag), FFIErrorCode::Success);
    assert_eq!(flag, 0);
}

#[test]
fn count_reply_writes_the_count() {
    let mut count = 0usize;
    assert_eq!(count_reply(MAX_SNAPSHOTS, &mut count), FFIErrorCode::Success);
    assert_eq!(count, 3);
}

#[test]
fn value_reply_marshals_or_leaves_the_slot() {
    let mut out = FFI_KvsValue::null();
    out.number = 5;
    assert_eq!(value_reply(Err(ErrorCode::KeyNotFound), &mut out), FFIErrorCode::KeyNotFound);
    assert_eq!(out.number, 5);
    let bad = KvsValue::Array(vec![KvsValue::String("a\0b".to_string())]);
    assert_eq!(value_reply(Ok(bad), &mut out), FFIErrorCode::ConversionFailed);
    assert_eq!(out.number, 5);
    assert_eq!(out.type_, FFI_KvsValueType::Null);
    let good = KvsValue::String("text".to_string());
    assert_eq!(value_reply(Ok(good), &mut out), FFIErrorCode::Success);
    assert_eq!(out.type_, FFI_KvsValueType::String);
    assert_eq!(out.string, Some(b"text".to_vec()));
    assert_eq!(out.number, 0);
    assert_eq!(free_ffi_kvsvalue_rust(Some(out)), 1);
}

#[test]
fn filename_reply_hands_out_terminated_text() {
    let mut name = None;
    assert_eq!(filename_reply("kvs_1_0.json", &mut name), FFIErrorCode::Success);
    assert_eq!(name, Some(b"kvs_1_0.json".to_vec()));
    assert_eq!(filename_reply("bad\0name", &mut name), FFIErrorCode::ConversionFailed);
    assert_eq!(name, Some(b"kvs_1_0.json".to_vec()));
    assert_eq!(free_rust_cstring(name), 1);
    assert_eq!(free_rust_cstring(None), 0);
}

#[test]
fn scenario_open_set_get() {
    let mut slot: Option<Stub> = None;
    let request = open_ffi(1, 0, 0, Some(&slot)).unwrap();
    assert_eq!(request.instance_id, InstanceId(1));
    assert_eq!(request.need_defaults, OpenNeedDefaults::Optional);
    assert_eq!(request.need_kvs, OpenNeedKvs::Optional);
    assert_eq!(open_reply(Ok(Stub::new()), &mut slot), FFIErrorCode::Success);
    let handle = slot.as_ref();
    assert!(handle.is_some());

    let flat = kvsvalue_to_ffi_kvsvalue(&KvsValue::Number(3.14f64.to_bits()));
    assert_eq!(set_value(handle, Some(b"x"), Some(&flat)), FFIErrorCode::Success);
    assert_eq!(free_ffi_kvsvalue_rust(Some(flat)), 0);

    let mut exists = 0u8;
    assert_eq!(key_exists(handle, Some(b"x"), Some(&mut exists)), FFIErrorCode::Success);
    assert_eq!(exists, 1);
    assert_eq!(key_exists(handle, Some(b"y"), Some(&mut exists)), FFIErrorCode::Success);
    assert_eq!(exists, 0);

    let mut out = FFI_KvsValue::null();
    assert_eq!(get_default_value(handle, Some(b"x"), Some(&mut out)), FFIErrorCode::Success);
    assert_eq!(out.type_, FFI_KvsValueType::Number);
    assert_eq!(f64::from_bits(out.number), 1.0);
    assert_ne!(f64::from_bits(out.number), 3.14);
    assert_eq!(get_default_value(handle, Some(b"y"), Some(&mut out)), FFIErrorCode::KeyNotFound);
    assert_eq!(f64::from_bits(out.number), 1.0);

    assert_eq!(handle.unwrap().calls.get(), 5);
    assert_eq!(status_reply(handle.unwrap().remove_key("x")), FFIErrorCode::Success);
    assert_eq!(status_reply(handle.unwrap().remove_key("x")), FFIErrorCode::KeyNotFound);
    assert!(drop_kvs(slot));
}

#[test]
fn scenario_snapshot_bounds() {
    let engine = Stub::new();
    for id in [MAX_SNAPSHOTS, MAX_SNAPSHOTS + 1, usize::MAX] {
        let code = snapshot_restore(Some(&engine), id);
        assert_eq!(code, FFIErrorCode::InvalidSnapshotId);
        assert_eq!(code.code(), 16);
    }
    assert_eq!(snapshot_restore(Some(&engine), MAX_SNAPSHOTS - 1), FFIErrorCode::Success);
}

#[test]
fn scenario_key_listing_asymmetry() {
    let engine = Stub::new();
    for key in ["a", "bb", "ccc"] {
        engine.set_value(key, KvsValue::Null).unwrap();
    }
    let mut keys = None;
    let mut len = 0usize;
    assert_eq!(get_all_keys_ffi(Some(&engine), Some(&keys), Some(&len)), Ok(()));
    assert_eq!(all_keys_reply(engine.get_all_keys(), &mut keys, &mut len), FFIErrorCode::Success);
    assert_eq!(len, 3);
    assert_eq!(keys, Some(vec![b"a".to_vec(), b"bb".to_vec(), b"ccc".to_vec()]));

    let (arrays, texts) = free_all_keys_vec_ffi(keys);
    assert_eq!(arrays, 1);
    assert_eq!(texts, vec![b"a".to_vec(), b"bb".to_vec(), b"ccc".to_vec()]);
    let mut released = arrays;
    for text in texts {
        released += free_rust_cstring(Some(text));
    }
    assert_eq!(released, len + 1);
    assert_eq!(free_all_keys_vec_ffi(None), (0, Vec::new()));
}

#[test]
fn key_listing_fails_as_a_whole() {
    let mut keys = Some(vec![b"old".to_vec()]);
    let mut len = 1usize;
    let bad = vec!["fine".to_string(), "not\0fine".to_string()];
    assert_eq!(all_keys_reply(Ok(bad), &mut keys, &mut len), FFIErrorCode::ConversionFailed);
    assert_eq!((keys.clone(), len), (Some(vec![b"old".to_vec()]), 1));
    assert_eq!(
        all_keys_reply(Err(ErrorCode::JsonParserError), &mut keys, &mut len),
        FFIErrorCode::JsonParserError
    );
    assert_eq!((keys.clone(), len), (Some(vec![b"old".to_vec()]), 1));
    assert_eq!(all_keys_reply(Ok(Vec::new()), &mut keys, &mut len), FFIErrorCode::Success);
    assert_eq!((keys, len), (Some(Vec::new()), 0));
}
