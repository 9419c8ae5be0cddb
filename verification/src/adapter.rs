//! The compute half of the blob-style backend adapter.
//!
//! Each protocol operation splits into a pure planning/translation step,
//! verified here, and the backend SDK call itself, which runs outside
//! the library and receives the plan as plain values. Every request that
//! fails validation is rejected here, before any backend call exists to
//! have side effects.

use vstd::prelude::*;

verus! {

use crate::errors::ProxyError;
use crate::part_id::{block_id_spec, make_block_id};

/// Object metadata reproduced faithfully from a backend `head`/`get`
/// response: length, content fingerprint and modification time, as the
/// protocol reports them.
pub struct ObjectMeta {
    pub content_length: u64,
    pub e_tag: Option<String>,
    pub last_modified: Option<String>,
}

/// Builds the protocol-facing metadata record from the fields a backend
/// properties response carries.
pub fn object_meta(content_length: u64, e_tag: String, last_modified: String) -> (r: ObjectMeta)
    ensures
        r.content_length == content_length,
        r.e_tag == Some(e_tag),
        r.last_modified == Some(last_modified),
{
    ObjectMeta { content_length, e_tag: Some(e_tag), last_modified: Some(last_modified) }
}

/// Translates the protocol's inclusive byte interval `[first, last]`
/// into the backend's half-open `[start, end)` range, defaulting the
/// end to "rest of object" when the interval is open-ended.
pub fn translate_range(first: u64, last: Option<u64>) -> (r: (u64, u64))
    requires
        last matches Some(l) ==> first <= l < u64::MAX,
    ensures
        r.0 == first,
        last matches Some(l) ==> r.1 == l + 1,
        last is None ==> r.1 == u64::MAX,
        last matches Some(l) ==> r.1 - r.0 == l - first + 1,
{
    match last {
        Some(l) => (first, l + 1),
        None => (first, u64::MAX),
    }
}

/// A copy source as the protocol addresses it: by bucket and key, or by
/// access point.
pub enum CopySrc {
    Bucket { bucket: String, key: String, version_id: Option<String> },
    AccessPoint { arn: String },
}

/// A validated server-side copy: source and destination addresses ready
/// for the backend's native copy call.
pub struct CopyPlan {
    pub src_bucket: String,
    pub src_key: String,
    pub dst_bucket: String,
    pub dst_key: String,
}

/// Validates a copy request before dispatch. An access-point source is
/// rejected outright with [`ProxyError::CopySourceUnsupported`]; a
/// bucket/key source passes through verbatim.
pub fn plan_copy(src: CopySrc, dst_bucket: String, dst_key: String) -> (r: Result<
    CopyPlan,
    ProxyError,
>)
    ensures
        r is Ok <==> src is Bucket,
        src matches CopySrc::Bucket { bucket, key, version_id } ==> (r matches Ok(p) && p.src_bucket
            == bucket && p.src_key == key && p.dst_bucket == dst_bucket && p.dst_key == dst_key),
        src is AccessPoint ==> (r matches Err(e) && e is CopySourceUnsupported),
{
    match src {
        CopySrc::Bucket { bucket, key, version_id: _ } => Ok(
            CopyPlan { src_bucket: bucket, src_key: key, dst_bucket, dst_key },
        ),
        CopySrc::AccessPoint { arn: _ } => Err(ProxyError::CopySourceUnsupported),
    }
}

/// A validated part upload: destination address and the fixed-width
/// block identifier the backend will store the part under.
pub struct UploadPartPlan {
    pub container: String,
    pub blob: String,
    pub block_id: Vec<u8>,
}

/// Validates and addresses one part upload. The part number must lie in
/// `[1, 9999]`; any other value is a caller contract error, rejected
/// with [`ProxyError::InvalidPartNumber`] before any backend call.
pub fn plan_upload_part(bucket: String, key: String, upload_id: &Vec<u8>, part_number: i32) -> (r:
    Result<UploadPartPlan, ProxyError>)
    requires
        upload_id@.len() + 5 <= usize::MAX,
    ensures
        r is Ok <==> 1 <= part_number < 10000,
        r matches Ok(p) ==> p.container == bucket && p.blob == key && p.block_id@ == block_id_spec(
            upload_id@,
            part_number as int,
        ),
        r matches Err(e) ==> e is InvalidPartNumber,
{
    if part_number <= 0 || part_number >= 10000 {
        return Err(ProxyError::InvalidPartNumber);
    }
    let block_id = make_block_id(upload_id, part_number);
    Ok(UploadPartPlan { container: bucket, blob: key, block_id })
}

/// Converts the ordered part-number sequence of a multipart completion
/// into the corresponding fixed-width block identifiers, verbatim and in
/// the order given: gaps and out-of-order numbers are accepted, exactly
/// as the caller listed them. Only a part number outside `[1, 9999]`,
/// which no identifier exists for, is rejected.
pub fn plan_complete_block_list(upload_id: &Vec<u8>, part_numbers: &Vec<i32>) -> (r: Result<
    Vec<Vec<u8>>,
    ProxyError,
>)
    requires
        upload_id@.len() + 5 <= usize::MAX,
    ensures
        r is Ok <==> (forall|i: int|
            0 <= i < part_numbers@.len() ==> 1 <= #[trigger] part_numbers@[i] < 10000),
        r matches Ok(ids) ==> ids@.len() == part_numbers@.len() && (forall|i: int|
            0 <= i < ids@.len() ==> (#[trigger] ids@[i])@ == block_id_spec(
                upload_id@,
                part_numbers@[i] as int,
            )),
        r matches Err(e) ==> e is InvalidPartNumber,
{
    let mut ids: Vec<Vec<u8>> = Vec::new();
    let mut i: usize = 0;
    while i < part_numbers.len()
        invariant
            i <= part_numbers@.len(),
            ids@.len() == i as int,
            upload_id@.len() + 5 <= usize::MAX,
            forall|k: int| 0 <= k < i ==> 1 <= #[trigger] part_numbers@[k] < 10000,
            forall|k: int|
                0 <= k < i ==> (#[trigger] ids@[k])@ == block_id_spec(
                    upload_id@,
                    part_numbers@[k] as int,
                ),
        decreases part_numbers@.len() - i,
    {
        let n = part_numbers[i];
        if n <= 0 || n >= 10000 {
            return Err(ProxyError::InvalidPartNumber);
        }
        let id = make_block_id(upload_id, n);
        ids.push(id);
        i = i + 1;
    }
    Ok(ids)
}

/// A lowercase hexadecimal digit byte.
pub open spec fn is_lower_hex_byte(b: u8) -> bool {
    (48 <= b <= 57) || (97 <= b <= 102)
}

/// The textual shape of a synthesized upload identifier: 36 ASCII
/// bytes, hyphens at offsets 8, 13, 18 and 23, lowercase hex digits
/// everywhere else.
pub open spec fn is_upload_id_text(s: Seq<u8>) -> bool {
    s.len() == 36 && s[8] == 45 && s[13] == 45 && s[18] == 45 && s[23] == 45 && (forall|i: int|
        0 <= i < 36 && i != 8 && i != 13 && i != 18 && i != 23 ==> is_lower_hex_byte(
            #[trigger] s[i],
        ))
}

/// Relies on `uuid::Uuid::new_v4` and the hyphenated lowercase rendering
/// of `uuid`'s `Display`: the result is always 36 ASCII bytes with
/// hyphens at offsets 8, 13, 18 and 23 and lowercase hex digits
/// elsewhere. Which identifier comes back is random; nothing is assumed
/// about it.
#[verifier::external_body]
fn fresh_upload_id_bytes() -> (r: Vec<u8>)
    ensures
        is_upload_id_text(r@),
{
    uuid::Uuid::new_v4().to_string().into_bytes()
}

/// The output of registering a multipart upload: the identifier every
/// later part and completion call must quote.
pub struct CreateMultipartOutput {
    pub upload_id: Vec<u8>,
}

/// Registers a multipart upload on a blob-style backend. Such backends
/// have no native registration call, so a fresh random identifier is
/// synthesized locally and no backend call is made.
pub fn create_multipart() -> (r: CreateMultipartOutput)
    ensures
        is_upload_id_text(r.upload_id@),
        r.upload_id@.len() == 36,
{
    CreateMultipartOutput { upload_id: fresh_upload_id_bytes() }
}

/// The output the protocol reproduces for a completed multipart upload:
/// the final object's bucket, key and content fingerprint.
pub struct CompleteMultipartOutput {
    pub bucket: String,
    pub key: String,
    pub e_tag: Option<String>,
}

/// Builds the completion output from the commit response's fingerprint
/// and the addressed bucket and key, echoed back unchanged.
pub fn complete_output(bucket: String, key: String, e_tag: String) -> (r: CompleteMultipartOutput)
    ensures
        r.bucket == bucket,
        r.key == key,
        r.e_tag == Some(e_tag),
{
    CompleteMultipartOutput { bucket, key, e_tag: Some(e_tag) }
}

} // verus!
