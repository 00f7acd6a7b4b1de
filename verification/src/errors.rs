//! The error taxonomy: construction errors, gate errors, and one wrapping
//! variant per operation kind for service failures.

use vstd::prelude::*;

verus! {

/// One logical S3 operation kind, used to pick the error variant that wraps
/// a service failure of that operation.
#[derive(Debug, Clone, Copy, PartialEq, Eq, Structural)]
pub enum Operation {
    CreateBucket,
    DeleteBucket,
    ListBuckets,
    PutObject,
    CopyObject,
    GetObject,
    HeadObject,
    DeleteObject,
    ListObjects,
}

/// Errors surfaced to the caller: an invalid endpoint at construction time,
/// a failure to acquire a gate slot, or a per-operation service failure
/// carrying the underlying client's rendered error.
#[derive(Debug)]
pub enum Error {
    InvalidUrl,
    ErrCreateBucket(String),
    ErrDeleteBucket(String),
    ErrListBuckets(String),
    ErrPutObject(String),
    ErrCopyObject(String),
    ErrGetObject(String),
    ErrGetHeadObject(String),
    ErrDeleteObject(String),
    ErrListObjects(String),
    SemaphoreError(String),
}

/// The error variant that wraps a service failure of the given operation.
pub open spec fn service_error_for(op: Operation, message: String) -> Error {
    match op {
        Operation::CreateBucket => Error::ErrCreateBucket(message),
        Operation::DeleteBucket => Error::ErrDeleteBucket(message),
        Operation::ListBuckets => Error::ErrListBuckets(message),
        Operation::PutObject => Error::ErrPutObject(message),
        Operation::CopyObject => Error::ErrCopyObject(message),
        Operation::GetObject => Error::ErrGetObject(message),
        Operation::HeadObject => Error::ErrGetHeadObject(message),
        Operation::DeleteObject => Error::ErrDeleteObject(message),
        Operation::ListObjects => Error::ErrListObjects(message),
    }
}

/// Wraps a rendered service failure in the variant owed to its operation
/// kind: each operation fails with its own distinct error variant.
pub fn wrap_service_error(op: Operation, message: String) -> (e: Error)
    ensures
        e == service_error_for(op, message),
{
    match op {
        Operation::CreateBucket => Error::ErrCreateBucket(message),
        Operation::DeleteBucket => Error::ErrDeleteBucket(message),
        Operation::ListBuckets => Error::ErrListBuckets(message),
        Operation::PutObject => Error::ErrPutObject(message),
        Operation::CopyObject => Error::ErrCopyObject(message),
        Operation::GetObject => Error::ErrGetObject(message),
        Operation::HeadObject => Error::ErrGetHeadObject(message),
        Operation::DeleteObject => Error::ErrDeleteObject(message),
        Operation::ListObjects => Error::ErrListObjects(message),
    }
}

} // verus!
