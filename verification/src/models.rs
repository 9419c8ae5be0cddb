//! Records exchanged with the metadata control plane.
//!
//! A locator is the authoritative record of one physical copy of an
//! object's bytes; the control plane owns these records and the
//! orchestrator is their sole writer. Deletion inserts a tombstone
//! (delete marker) rather than removing a locator, and every mutating
//! call reports an operation outcome back to the control plane.

use vstd::prelude::*;

verus! {

use std::collections::HashMap;
use vstd::string::StringExecFns;
use crate::adapter::ObjectMeta;

/// One committed chunk of a multipart upload, as recorded in a locator:
/// the part number and the content fingerprint the backend acknowledged
/// it with.
pub struct ContinueUploadPhysicalPart {
    pub part_number: i32,
    pub etag: String,
}

/// A locator for an upload in progress: the authoritative record of one
/// physical copy of an object's bytes, tracked while its multipart
/// upload is open and after it commits.
pub struct ContinueUploadResponse {
    pub id: i32,
    pub tag: String,
    pub cloud: String,
    pub bucket: String,
    pub region: String,
    pub key: String,
    pub version_id: Option<String>,
    pub version: Option<i32>,
    pub size: Option<u64>,
    pub last_modified: Option<String>,
    pub etag: Option<String>,
    pub multipart_upload_id: String,
    pub parts: Option<Vec<ContinueUploadPhysicalPart>>,
    pub copy_src_bucket: Option<String>,
    pub copy_src_key: Option<String>,
}

impl ContinueUploadResponse {
    /// A fresh locator for an upload that has just been registered:
    /// nothing acknowledged yet, no parts, no provenance.
    pub fn new(
        id: i32,
        tag: String,
        cloud: String,
        bucket: String,
        region: String,
        key: String,
        multipart_upload_id: String,
    ) -> (r: ContinueUploadResponse)
        ensures
            r.id == id,
            r.tag == tag,
            r.cloud == cloud,
            r.bucket == bucket,
            r.region == region,
            r.key == key,
            r.version_id is None,
            r.version is None,
            r.size is None,
            r.last_modified is None,
            r.etag is None,
            r.multipart_upload_id == multipart_upload_id,
            r.parts is None,
            r.copy_src_bucket is None,
            r.copy_src_key is None,
    {
        ContinueUploadResponse {
            id,
            tag,
            cloud,
            bucket,
            region,
            key,
            version_id: None,
            version: None,
            size: None,
            last_modified: None,
            etag: None,
            multipart_upload_id,
            parts: None,
            copy_src_bucket: None,
            copy_src_key: None,
        }
    }

    /// A locator with a non-empty upload identifier and no parts is an
    /// upload in progress.
    pub open spec fn upload_in_progress(self) -> bool {
        self.multipart_upload_id@.len() > 0 && self.parts is None
    }

    /// A locator with its parts populated is committed.
    pub open spec fn is_committed(self) -> bool {
        self.parts is Some
    }

    /// Appends one acknowledged part to the locator, in acknowledgement
    /// order, leaving every other field untouched.
    pub fn record_part(&mut self, part: ContinueUploadPhysicalPart)
        ensures
            final(self).parts matches Some(ps) && ps@ == match old(self).parts {
                Some(prev) => prev@.push(part),
                None => seq![part],
            },
            final(self).id == old(self).id,
            final(self).tag == old(self).tag,
            final(self).cloud == old(self).cloud,
            final(self).bucket == old(self).bucket,
            final(self).region == old(self).region,
            final(self).key == old(self).key,
            final(self).version_id == old(self).version_id,
            final(self).version == old(self).version,
            final(self).size == old(self).size,
            final(self).last_modified == old(self).last_modified,
            final(self).etag == old(self).etag,
            final(self).multipart_upload_id == old(self).multipart_upload_id,
            final(self).copy_src_bucket == old(self).copy_src_bucket,
            final(self).copy_src_key == old(self).copy_src_key,
    {
        match &mut self.parts {
            Some(ps) => {
                ps.push(part);
            },
            None => {
                let mut ps: Vec<ContinueUploadPhysicalPart> = Vec::new();
                ps.push(part);
                proof {
                    assert(ps@ =~= seq![part]);
                }
                self.parts = Some(ps);
            },
        }
    }

    /// Writes back what the backend reported for a successful write:
    /// size, fingerprint and modification time, exactly as returned,
    /// with every other field untouched.
    pub fn record_success(&mut self, size: u64, etag: Option<String>, last_modified: Option<
        String,
    >)
        ensures
            final(self).size == Some(size),
            final(self).etag == etag,
            final(self).last_modified == last_modified,
            final(self).id == old(self).id,
            final(self).tag == old(self).tag,
            final(self).cloud == old(self).cloud,
            final(self).bucket == old(self).bucket,
            final(self).region == old(self).region,
            final(self).key == old(self).key,
            final(self).version_id == old(self).version_id,
            final(self).version == old(self).version,
            final(self).multipart_upload_id == old(self).multipart_upload_id,
            final(self).parts == old(self).parts,
            final(self).copy_src_bucket == old(self).copy_src_bucket,
            final(self).copy_src_key == old(self).copy_src_key,
    {
        self.size = Some(size);
        self.etag = etag;
        self.last_modified = last_modified;
    }

    /// Serves a `head` of this copy from the locator record alone: the
    /// metadata reported is exactly what was written back when the copy
    /// last succeeded. Together with [`Self::record_success`] this pins
    /// the copy-then-head consistency of the record: a head after a
    /// successful copy reports the fingerprint and modification time the
    /// copy returned.
    pub fn head_from_record(&self) -> (r: ObjectMeta)
        requires
            self.size matches Some(s),
        ensures
            Some(r.content_length) == self.size,
            r.e_tag == self.etag,
            r.last_modified == self.last_modified,
    {
        let content_length = match &self.size {
            Some(s) => *s,
            None => 0,
        };
        let e_tag = match &self.etag {
            Some(t) => Some(t.clone()),
            None => None,
        };
        let last_modified = match &self.last_modified {
            Some(t) => Some(t.clone()),
            None => None,
        };
        ObjectMeta { content_length, e_tag, last_modified }
    }
}

/// The acknowledgement that a bucket was created, as the control plane
/// records it.
pub struct CreateBucketIsCompleted {
    pub id: i32,
    pub creation_date: String,
}

impl CreateBucketIsCompleted {
    /// Records which bucket was created and when.
    pub fn new(id: i32, creation_date: String) -> (r: CreateBucketIsCompleted)
        ensures
            r.id == id,
            r.creation_date == creation_date,
    {
        CreateBucketIsCompleted { id, creation_date }
    }
}

/// The operation outcome reported after a delete/abort batch: which
/// locator ids and upload identifiers were touched, and by which kind
/// of operation.
pub struct DeleteObjectsIsCompleted {
    pub ids: Vec<i32>,
    pub multipart_upload_ids: Option<Vec<String>>,
    pub op_type: Vec<String>,
}

impl DeleteObjectsIsCompleted {
    /// An outcome touching these locator ids, with no in-progress
    /// uploads involved.
    pub fn new(ids: Vec<i32>, op_type: Vec<String>) -> (r: DeleteObjectsIsCompleted)
        ensures
            r.ids == ids,
            r.multipart_upload_ids is None,
            r.op_type == op_type,
    {
        DeleteObjectsIsCompleted { ids, multipart_upload_ids: None, op_type }
    }
}

/// A tombstone superseding a logical key's prior version: the key stays
/// in history, its locators are retired rather than erased.
pub struct DeleteMarker {
    pub key: String,
    pub version_id: Option<String>,
    pub superseded_ids: Vec<i32>,
}

/// The per-key result of a delete batch: the locators each key resolved
/// to, the tombstone inserted for it, and the operation kind recorded.
pub struct DeleteObjectsResponse {
    pub locators: HashMap<String, Vec<ContinueUploadResponse>>,
    pub delete_markers: HashMap<String, DeleteMarker>,
    pub op_type: HashMap<String, String>,
}

impl DeleteObjectsResponse {
    /// Packages a delete batch's result maps.
    pub fn new(
        locators: HashMap<String, Vec<ContinueUploadResponse>>,
        delete_markers: HashMap<String, DeleteMarker>,
        op_type: HashMap<String, String>,
    ) -> (r: DeleteObjectsResponse)
        ensures
            r.locators == locators,
            r.delete_markers == delete_markers,
            r.op_type == op_type,
    {
        DeleteObjectsResponse { locators, delete_markers, op_type }
    }
}

/// One recorded metric of the proxy's operation history.
pub struct ListMetricsObject {
    pub timestamp: String,
    pub key: String,
    pub size: u64,
}

/// A listing of recorded metrics together with their count.
pub struct ListMetricsResponse {
    pub metrics: Vec<ListMetricsObject>,
    pub count: i32,
}

impl ListMetricsResponse {
    /// Packages a metrics listing.
    pub fn new(metrics: Vec<ListMetricsObject>, count: i32) -> (r: ListMetricsResponse)
        ensures
            r.metrics == metrics,
            r.count == count,
    {
        ListMetricsResponse { metrics, count }
    }
}

/// The kind of mutating operation an outcome reports.
#[derive(Clone, Copy, PartialEq, Eq, Structural, Debug)]
pub enum OpKind {
    CreateBucket,
    Put,
    MultipartComplete,
    Copy,
    Delete,
}

/// The label under which each operation kind is reported to the control
/// plane.
pub open spec fn op_kind_label_spec(k: OpKind) -> Seq<char> {
    match k {
        OpKind::CreateBucket => "create-bucket"@,
        OpKind::Put => "put"@,
        OpKind::MultipartComplete => "multipart-complete"@,
        OpKind::Copy => "copy"@,
        OpKind::Delete => "delete"@,
    }
}

/// Renders an operation kind as its control-plane label.
pub fn op_kind_label(k: OpKind) -> (s: String)
    ensures
        s@ == op_kind_label_spec(k),
{
    match k {
        OpKind::CreateBucket => String::from_str("create-bucket"),
        OpKind::Put => String::from_str("put"),
        OpKind::MultipartComplete => String::from_str("multipart-complete"),
        OpKind::Copy => String::from_str("copy"),
        OpKind::Delete => String::from_str("delete"),
    }
}

/// Plans a delete as a tombstone insertion: the locators stay, a marker
/// superseding them is recorded, and the outcome reports every
/// superseded locator id under the delete label.
pub fn plan_delete(key: String, superseded_ids: Vec<i32>) -> (r: (
    DeleteMarker,
    DeleteObjectsIsCompleted,
))
    ensures
        r.0.key == key,
        r.0.version_id is None,
        r.0.superseded_ids@ == superseded_ids@,
        r.1.ids@ == superseded_ids@,
        r.1.multipart_upload_ids is None,
        r.1.op_type@.len() == 1,
        r.1.op_type@[0]@ == op_kind_label_spec(OpKind::Delete),
{
    let mut ids: Vec<i32> = Vec::new();
    let mut i: usize = 0;
    while i < superseded_ids.len()
        invariant
            i <= superseded_ids@.len(),
            ids@ =~= superseded_ids@.take(i as int),
        decreases superseded_ids@.len() - i,
    {
        ids.push(superseded_ids[i]);
        i = i + 1;
    }
    proof {
        assert(ids@ =~= superseded_ids@);
    }
    let mut op_type: Vec<String> = Vec::new();
    op_type.push(op_kind_label(OpKind::Delete));
    let marker = DeleteMarker { key, version_id: None, superseded_ids };
    let outcome = DeleteObjectsIsCompleted { ids, multipart_upload_ids: None, op_type };
    (marker, outcome)
}

} // verus!
