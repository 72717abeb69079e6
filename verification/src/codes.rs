//! The engine's failure kinds, the status codes that cross the boundary, and the
//! mapping of the first onto the second.
//!
//! The numbering is fixed: engine-reported failures take `0..=18`, success is
//! `100`, and the two failures that this layer detects by itself, before the
//! engine is asked anything, are `101` and `102`. Callers branch on the numbers,
//! so they never change.

use vstd::prelude::*;

verus! {

/// A failure kind reported by the storage engine.
#[derive(Debug, Copy, Clone, PartialEq, Eq, Structural)]
pub enum ErrorCode {
    /// A failure that fits no other kind.
    UnmappedError,
    /// A backing file is absent.
    FileNotFound,
    /// The store file could not be read.
    KvsFileReadError,
    /// The hash file could not be read.
    KvsHashFileReadError,
    /// The stored text could not be parsed.
    JsonParserError,
    /// The store could not be written out as text.
    JsonGeneratorError,
    /// The storage medium failed.
    PhysicalStorageFailure,
    /// The stored data does not match its hash.
    IntegrityCorrupted,
    /// The stored data failed validation.
    ValidationFailed,
    /// Encryption or decryption failed.
    EncryptionFailed,
    /// The instance is in use; the caller may try again.
    ResourceBusy,
    /// No space is left on the medium.
    OutOfStorageSpace,
    /// The instance's quota is used up.
    QuotaExceeded,
    /// The caller could not be authenticated.
    AuthenticationFailed,
    /// The store holds no such key.
    KeyNotFound,
    /// A value could not be serialised.
    SerializationFailed,
    /// The snapshot identifier is out of range.
    InvalidSnapshotId,
    /// A value or text could not be converted.
    ConversionFailed,
    /// The engine's lock could not be taken.
    MutexLockFailed,
}

/// A status code as it crosses the boundary.
#[derive(Debug, Copy, Clone, PartialEq, Eq, Structural)]
pub enum FFIErrorCode {
    /// The operation succeeded.
    Success,
    /// The handle argument was null: detected here, the engine was not asked.
    InvalidKvsHandle,
    /// Another required pointer argument was null: detected here, the engine was
    /// not asked.
    InvalidArgument,
    /// A failure that fits no other kind.
    UnmappedError,
    /// A backing file is absent.
    FileNotFound,
    /// The store file could not be read.
    KvsFileReadError,
    /// The hash file could not be read.
    KvsHashFileReadError,
    /// The stored text could not be parsed.
    JsonParserError,
    /// The store could not be written out as text.
    JsonGeneratorError,
    /// The storage medium failed.
    PhysicalStorageFailure,
    /// The stored data does not match its hash.
    IntegrityCorrupted,
    /// The stored data failed validation.
    ValidationFailed,
    /// Encryption or decryption failed.
    EncryptionFailed,
    /// The instance is in use; the caller may try again.
    ResourceBusy,
    /// No space is left on the medium.
    OutOfStorageSpace,
    /// The instance's quota is used up.
    QuotaExceeded,
    /// The caller could not be authenticated.
    AuthenticationFailed,
    /// The store holds no such key.
    KeyNotFound,
    /// A value could not be serialised.
    SerializationFailed,
    /// The snapshot identifier is out of range.
    InvalidSnapshotId,
    /// A value or text could not be converted.
    ConversionFailed,
    /// The engine's lock could not be taken.
    MutexLockFailed,
}

impl ErrorCode {
    /// The position of the kind in the engine's list, which is also its number at
    /// the boundary.
    pub open spec fn index(self) -> int {
        match self {
            ErrorCode::UnmappedError => 0,
            ErrorCode::FileNotFound => 1,
            ErrorCode::KvsFileReadError => 2,
            ErrorCode::KvsHashFileReadError => 3,
            ErrorCode::JsonParserError => 4,
            ErrorCode::JsonGeneratorError => 5,
            ErrorCode::PhysicalStorageFailure => 6,
            ErrorCode::IntegrityCorrupted => 7,
            ErrorCode::ValidationFailed => 8,
            ErrorCode::EncryptionFailed => 9,
            ErrorCode::ResourceBusy => 10,
            ErrorCode::OutOfStorageSpace => 11,
            ErrorCode::QuotaExceeded => 12,
            ErrorCode::AuthenticationFailed => 13,
            ErrorCode::KeyNotFound => 14,
            ErrorCode::SerializationFailed => 15,
            ErrorCode::InvalidSnapshotId => 16,
            ErrorCode::ConversionFailed => 17,
            ErrorCode::MutexLockFailed => 18,
        }
    }
}

impl FFIErrorCode {
    /// The number that stands for the code on the other side of the boundary.
    pub open spec fn spec_code(self) -> int {
        match self {
            FFIErrorCode::Success => 100,
            FFIErrorCode::InvalidKvsHandle => 101,
            FFIErrorCode::InvalidArgument => 102,
            FFIErrorCode::UnmappedError => 0,
            FFIErrorCode::FileNotFound => 1,
            FFIErrorCode::KvsFileReadError => 2,
            FFIErrorCode::KvsHashFileReadError => 3,
            FFIErrorCode::JsonParserError => 4,
            FFIErrorCode::JsonGeneratorError => 5,
            FFIErrorCode::PhysicalStorageFailure => 6,
            FFIErrorCode::IntegrityCorrupted => 7,
            FFIErrorCode::ValidationFailed => 8,
            FFIErrorCode::EncryptionFailed => 9,
            FFIErrorCode::ResourceBusy => 10,
            FFIErrorCode::OutOfStorageSpace => 11,
            FFIErrorCode::QuotaExceeded => 12,
            FFIErrorCode::AuthenticationFailed => 13,
            FFIErrorCode::KeyNotFound => 14,
            FFIErrorCode::SerializationFailed => 15,
            FFIErrorCode::InvalidSnapshotId => 16,
            FFIErrorCode::ConversionFailed => 17,
            FFIErrorCode::MutexLockFailed => 18,
        }
    }

    /// The code is one of the two that this layer raises by itself.
    pub open spec fn is_boundary(self) -> bool {
        self == FFIErrorCode::InvalidKvsHandle || self == FFIErrorCode::InvalidArgument
    }

    /// The code passes on a failure that the engine reported.
    pub open spec fn is_engine(self) -> bool {
        self != FFIErrorCode::Success && !self.is_boundary()
    }

    /// The code that passes on the engine's failure kind `err`.
    pub open spec fn of_engine(err: ErrorCode) -> FFIErrorCode {
        match err {
            ErrorCode::UnmappedError => FFIErrorCode::UnmappedError,
            ErrorCode::FileNotFound => FFIErrorCode::FileNotFound,
            ErrorCode::KvsFileReadError => FFIErrorCode::KvsFileReadError,
            ErrorCode::KvsHashFileReadError => FFIErrorCode::KvsHashFileReadError,
            ErrorCode::JsonParserError => FFIErrorCode::JsonParserError,
            ErrorCode::JsonGeneratorError => FFIErrorCode::JsonGeneratorError,
            ErrorCode::PhysicalStorageFailure => FFIErrorCode::PhysicalStorageFailure,
            ErrorCode::IntegrityCorrupted => FFIErrorCode::IntegrityCorrupted,
            ErrorCode::ValidationFailed => FFIErrorCode::ValidationFailed,
            ErrorCode::EncryptionFailed => FFIErrorCode::EncryptionFailed,
            ErrorCode::ResourceBusy => FFIErrorCode::ResourceBusy,
            ErrorCode::OutOfStorageSpace => FFIErrorCode::OutOfStorageSpace,
            ErrorCode::QuotaExceeded => FFIErrorCode::QuotaExceeded,
            ErrorCode::AuthenticationFailed => FFIErrorCode::AuthenticationFailed,
            ErrorCode::KeyNotFound => FFIErrorCode::KeyNotFound,
            ErrorCode::SerializationFailed => FFIErrorCode::SerializationFailed,
            ErrorCode::InvalidSnapshotId => FFIErrorCode::InvalidSnapshotId,
            ErrorCode::ConversionFailed => FFIErrorCode::ConversionFailed,
            ErrorCode::MutexLockFailed => FFIErrorCode::MutexLockFailed,
        }
    }

    /// The number that stands for the code on the other side of the boundary.
    pub fn code(self) -> (n: i32)
        ensures
            n == self.spec_code(),
    {
        match self {
            FFIErrorCode::Success => 100,
            FFIErrorCode::InvalidKvsHandle => 101,
            FFIErrorCode::InvalidArgument => 102,
            FFIErrorCode::UnmappedError => 0,
            FFIErrorCode::FileNotFound => 1,
            FFIErrorCode::KvsFileReadError => 2,
            FFIErrorCode::KvsHashFileReadError => 3,
            FFIErrorCode::JsonParserError => 4,
            FFIErrorCode::JsonGeneratorError => 5,
            FFIErrorCode::PhysicalStorageFailure => 6,
            FFIErrorCode::IntegrityCorrupted => 7,
            FFIErrorCode::ValidationFailed => 8,
            FFIErrorCode::EncryptionFailed => 9,
            FFIErrorCode::ResourceBusy => 10,
            FFIErrorCode::OutOfStorageSpace => 11,
            FFIErrorCode::QuotaExceeded => 12,
            FFIErrorCode::AuthenticationFailed => 13,
            FFIErrorCode::KeyNotFound => 14,
            FFIErrorCode::SerializationFailed => 15,
            FFIErrorCode::InvalidSnapshotId => 16,
            FFIErrorCode::ConversionFailed => 17,
            FFIErrorCode::MutexLockFailed => 18,
        }
    }

    /// The code that a number stands for, if it stands for one.
    pub fn from_code(n: i32) -> (code: Option<FFIErrorCode>)
        ensures
            code is Some <==> (0 <= n <= 18 || 100 <= n <= 102),
            code is Some ==> code.unwrap().spec_code() == n,
    {
        match n {
            100 => Some(FFIErrorCode::Success),
            101 => Some(FFIErrorCode::InvalidKvsHandle),
            102 => Some(FFIErrorCode::InvalidArgument),
            0 => Some(FFIErrorCode::UnmappedError),
            1 => Some(FFIErrorCode::FileNotFound),
            2 => Some(FFIErrorCode::KvsFileReadError),
            3 => Some(FFIErrorCode::KvsHashFileReadError),
            4 => Some(FFIErrorCode::JsonParserError),
            5 => Some(FFIErrorCode::JsonGeneratorError),
            6 => Some(FFIErrorCode::PhysicalStorageFailure),
            7 => Some(FFIErrorCode::IntegrityCorrupted),
            8 => Some(FFIErrorCode::ValidationFailed),
            9 => Some(FFIErrorCode::EncryptionFailed),
            10 => Some(FFIErrorCode::ResourceBusy),
            11 => Some(FFIErrorCode::OutOfStorageSpace),
            12 => Some(FFIErrorCode::QuotaExceeded),
            13 => Some(FFIErrorCode::AuthenticationFailed),
            14 => Some(FFIErrorCode::KeyNotFound),
            15 => Some(FFIErrorCode::SerializationFailed),
            16 => Some(FFIErrorCode::InvalidSnapshotId),
            17 => Some(FFIErrorCode::ConversionFailed),
            18 => Some(FFIErrorCode::MutexLockFailed),
            _ => None,
        }
    }
}

impl From<ErrorCode> for FFIErrorCode {
    /// Passes an engine failure on under the code of the same name and number.
    fn from(err: ErrorCode) -> (code: FFIErrorCode)
        ensures
            code == FFIErrorCode::of_engine(err),
    {
        match err {
            ErrorCode::UnmappedError => FFIErrorCode::UnmappedError,
            ErrorCode::FileNotFound => FFIErrorCode::FileNotFound,
            ErrorCode::KvsFileReadError => FFIErrorCode::KvsFileReadError,
            ErrorCode::KvsHashFileReadError => FFIErrorCode::KvsHashFileReadError,
            ErrorCode::JsonParserError => FFIErrorCode::JsonParserError,
            ErrorCode::JsonGeneratorError => FFIErrorCode::JsonGeneratorError,
            ErrorCode::PhysicalStorageFailure => FFIErrorCode::PhysicalStorageFailure,
            ErrorCode::IntegrityCorrupted => FFIErrorCode::IntegrityCorrupted,
            ErrorCode::ValidationFailed => FFIErrorCode::ValidationFailed,
            ErrorCode::EncryptionFailed => FFIErrorCode::EncryptionFailed,
            ErrorCode::ResourceBusy => FFIErrorCode::ResourceBusy,
            ErrorCode::OutOfStorageSpace => FFIErrorCode::OutOfStorageSpace,
            ErrorCode::QuotaExceeded => FFIErrorCode::QuotaExceeded,
            ErrorCode::AuthenticationFailed => FFIErrorCode::AuthenticationFailed,
            ErrorCode::KeyNotFound => FFIErrorCode::KeyNotFound,
            ErrorCode::SerializationFailed => FFIErrorCode::SerializationFailed,
            ErrorCode::InvalidSnapshotId => FFIErrorCode::InvalidSnapshotId,
            ErrorCode::ConversionFailed => FFIErrorCode::ConversionFailed,
            ErrorCode::MutexLockFailed => FFIErrorCode::MutexLockFailed,
        }
    }
}

impl vstd::std_specs::convert::FromSpecImpl<ErrorCode> for FFIErrorCode {
    open spec fn obeys_from_spec() -> bool {
        true
    }

    open spec fn from_spec(err: ErrorCode) -> FFIErrorCode {
        FFIErrorCode::of_engine(err)
    }
}

/// The mapping keeps the number: an engine failure crosses the boundary under
/// its own position in the engine's list.
pub proof fn lemma_engine_code_keeps_number(err: ErrorCode)
    ensures
        FFIErrorCode::of_engine(err).spec_code() == err.index(),
        0 <= err.index() <= 18,
{
}

/// The mapping is one-to-one: two failure kinds never share a code.
pub proof fn lemma_engine_codes_one_to_one(a: ErrorCode, b: ErrorCode)
    requires
        FFIErrorCode::of_engine(a) == FFIErrorCode::of_engine(b),
    ensures
        a == b,
{
}

/// No two codes share a number.
pub proof fn lemma_numbers_distinct(a: FFIErrorCode, b: FFIErrorCode)
    requires
        a.spec_code() == b.spec_code(),
    ensures
        a == b,
{
}

/// What the engine reports never looks like success, nor like a failure that
/// this layer raised: the numbers of the two groups lie apart.
pub proof fn lemma_engine_codes_apart(err: ErrorCode, other: FFIErrorCode)
    requires
        other == FFIErrorCode::Success || other.is_boundary(),
    ensures
        FFIErrorCode::of_engine(err).is_engine(),
        FFIErrorCode::of_engine(err) != other,
        FFIErrorCode::of_engine(err).spec_code() < 100 <= other.spec_code(),
{
}

/// Every code is success, a boundary failure or an engine failure, and exactly
/// one of the three; each engine failure is the code of some kind.
pub proof fn lemma_code_classes(code: FFIErrorCode)
    ensures
        code.is_engine() <==> exists|err: ErrorCode| FFIErrorCode::of_engine(err) == code,
        code.is_engine() <==> 0 <= code.spec_code() <= 18,
        code.is_boundary() <==> 101 <= code.spec_code() <= 102,
        code == FFIErrorCode::Success <==> code.spec_code() == 100,
{
    match code {
        FFIErrorCode::UnmappedError => {
            assert(FFIErrorCode::of_engine(ErrorCode::UnmappedError) == code);
        },
        FFIErrorCode::FileNotFound => {
            assert(FFIErrorCode::of_engine(ErrorCode::FileNotFound) == code);
        },
        FFIErrorCode::KvsFileReadError => {
            assert(FFIErrorCode::of_engine(ErrorCode::KvsFileReadError) == code);
        },
        FFIErrorCode::KvsHashFileReadError => {
            assert(FFIErrorCode::of_engine(ErrorCode::KvsHashFileReadError) == code);
        },
        FFIErrorCode::JsonParserError => {
            assert(FFIErrorCode::of_engine(ErrorCode::JsonParserError) == code);
        },
        FFIErrorCode::JsonGeneratorError => {
            assert(FFIErrorCode::of_engine(ErrorCode::JsonGeneratorError) == code);
        },
        FFIErrorCode::PhysicalStorageFailure => {
            assert(FFIErrorCode::of_engine(ErrorCode::PhysicalStorageFailure) == code);
        },
        FFIErrorCode::IntegrityCorrupted => {
            assert(FFIErrorCode::of_engine(ErrorCode::IntegrityCorrupted) == code);
        },
        FFIErrorCode::ValidationFailed => {
            assert(FFIErrorCode::of_engine(ErrorCode::ValidationFailed) == code);
        },
        FFIErrorCode::EncryptionFailed => {
            assert(FFIErrorCode::of_engine(ErrorCode::EncryptionFailed) == code);
        },
        FFIErrorCode::ResourceBusy => {
            assert(FFIErrorCode::of_engine(ErrorCode::ResourceBusy) == code);
        },
        FFIErrorCode::OutOfStorageSpace => {
            assert(FFIErrorCode::of_engine(ErrorCode::OutOfStorageSpace) == code);
        },
        FFIErrorCode::QuotaExceeded => {
            assert(FFIErrorCode::of_engine(ErrorCode::QuotaExceeded) == code);
        },
        FFIErrorCode::AuthenticationFailed => {
            assert(FFIErrorCode::of_engine(ErrorCode::AuthenticationFailed) == code);
        },
        FFIErrorCode::KeyNotFound => {
            assert(FFIErrorCode::of_engine(ErrorCode::KeyNotFound) == code);
        },
        FFIErrorCode::SerializationFailed => {
            assert(FFIErrorCode::of_engine(ErrorCode::SerializationFailed) == code);
        },
        FFIErrorCode::InvalidSnapshotId => {
            assert(FFIErrorCode::of_engine(ErrorCode::InvalidSnapshotId) == code);
        },
        FFIErrorCode::ConversionFailed => {
            assert(FFIErrorCode::of_engine(ErrorCode::ConversionFailed) == code);
        },
        FFIErrorCode::MutexLockFailed => {
            assert(FFIErrorCode::of_engine(ErrorCode::MutexLockFailed) == code);
        },
        _ => {},
    }
}

} // verus!
