//! A safe, verified model of the boundary between a key-value storage engine
//! and callers on the far side of a foreign-function interface: status codes,
//! marshalling of dynamic values into a flat layout and back, release of what
//! was marshalled, and the checks that every operation makes before the engine
//! is asked anything.

pub mod codes;
pub mod facade;
pub mod marshal;
pub mod release;
pub mod roundtrip;
pub mod value;

pub use codes::{ErrorCode, FFIErrorCode};
pub use facade::{
    all_keys_reply, count_reply, drop_kvs, filename_reply, flag_reply, flush_ffi,
    free_all_keys_vec_ffi, free_rust_cstring, get_all_keys_ffi, get_default_value_ffi,
    get_hash_filename_ffi, get_kvs_filename_ffi, is_value_default_ffi, key_exists_ffi, open_ffi,
    open_reply, remove_key_ffi, reset_ffi, set_value_ffi, snapshot_count_ffi,
    snapshot_max_count_ffi, snapshot_restore_ffi, status_reply, value_reply, InstanceId,
    OpenNeedDefaults, OpenNeedKvs, OpenRequest, SnapshotId,
};
pub use marshal::{c_text_of, ffi_kvsvalue_to_kvsvalue, is_c_bytes, kvsvalue_to_ffi_kvsvalue};
pub use release::free_ffi_kvsvalue_rust;
pub use value::{FFI_KvsValue, FFI_KvsValueType, Flat, KvsValue, Value};
