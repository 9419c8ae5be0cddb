//! The protocol-facing error taxonomy.
//!
//! Every backend failure, unsupported operation or pre-dispatch validation
//! failure is mapped onto one of these variants before it leaves the core.

use vstd::prelude::*;

verus! {

/// The operation during which a failure occurred, carried inside
/// [`ProxyError::BackendError`] so a failure can be diagnosed without a
/// backend call stack.
#[derive(Clone, Copy, PartialEq, Eq, Structural, Debug)]
pub enum OpName {
    Head,
    Get,
    Put,
    Copy,
    CreateMultipart,
    UploadPart,
    UploadPartCopy,
    CompleteMultipart,
    AbortMultipart,
}

/// The protocol-facing error taxonomy.
#[derive(Debug)]
pub enum ProxyError {
    /// The addressed object or bucket is absent on the backend.
    NotFound,
    /// A backend call failed; carries the operation and address for
    /// diagnosis together with the backend's own status/message text.
    BackendError { op: OpName, bucket: String, key: String, detail: String },
    /// The targeted backend does not implement the requested operation.
    Unsupported,
    /// A stream reset was requested but the underlying source cannot be
    /// replayed.
    NotSeekable,
    /// The caller violated the `1 ≤ part_number < 10000` contract; fatal,
    /// never retried.
    InvalidPartNumber,
    /// The copy source is addressed by access point rather than by
    /// bucket/key; rejected before any backend call.
    CopySourceUnsupported,
}

impl ProxyError {
    /// A field-for-field copy of this error, for surfacing a stored
    /// failure while keeping the record.
    pub fn duplicate(&self) -> (r: ProxyError)
        ensures
            r == *self,
    {
        match self {
            ProxyError::NotFound => ProxyError::NotFound,
            ProxyError::BackendError { op, bucket, key, detail } => ProxyError::BackendError {
                op: *op,
                bucket: bucket.clone(),
                key: key.clone(),
                detail: detail.clone(),
            },
            ProxyError::Unsupported => ProxyError::Unsupported,
            ProxyError::NotSeekable => ProxyError::NotSeekable,
            ProxyError::InvalidPartNumber => ProxyError::InvalidPartNumber,
            ProxyError::CopySourceUnsupported => ProxyError::CopySourceUnsupported,
        }
    }
}

/// Wraps a backend call failure with enough context (operation, bucket,
/// key) to diagnose it later, per the propagation policy: backend errors
/// are never silently swallowed.
pub fn wrap_backend_failure(op: OpName, bucket: String, key: String, detail: String) -> (e:
    ProxyError)
    ensures
        e == (ProxyError::BackendError { op, bucket, key, detail }),
{
    ProxyError::BackendError { op, bucket, key, detail }
}

} // verus!
