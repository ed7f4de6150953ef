//! Validated upload requests.
//!
//! A request reaches the launcher as raw bytes; it is accepted only when the
//! bucket name and the object key are well-formed UTF-8.  A malformed request
//! yields no handle at all: the caller aborts rather than launching an upload
//! with corrupted parameters.

use vstd::prelude::*;
use crate::utf8::{check_utf8, is_utf8};

verus! {

/// A validated upload request: destination bucket, object key, and the byte
/// buffer to store.  `bucket` and `key` are well-formed UTF-8 whenever the
/// request was built by [`UploadRequest::from_parts`].
pub struct UploadRequest {
    pub bucket: Vec<u8>,
    pub key: Vec<u8>,
    pub body: Vec<u8>,
}

impl UploadRequest {
    /// Well-formedness: the textual fields are valid UTF-8.
    pub open spec fn wf(self) -> bool {
        is_utf8(self.bucket@) && is_utf8(self.key@)
    }

    /// Builds a request from raw parts, accepting it exactly when both
    /// textual fields are well-formed UTF-8.  The body is an arbitrary byte
    /// buffer and is never a reason for rejection.
    pub fn from_parts(bucket: Vec<u8>, key: Vec<u8>, body: Vec<u8>) -> (r: Option<UploadRequest>)
        ensures
            r is Some <==> is_utf8(bucket@) && is_utf8(key@),
            r matches Some(req) ==> req.bucket@ == bucket@ && req.key@ == key@
                && req.body@ == body@ && req.wf(),
    {
        if check_utf8(bucket.as_slice()) && check_utf8(key.as_slice()) {
            Some(UploadRequest { bucket, key, body })
        } else {
            None
        }
    }
}

} // verus!
