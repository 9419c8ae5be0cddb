use std::collections::HashMap;

use skyproxy::models::{
    op_kind_label, plan_delete, ContinueUploadPhysicalPart, ContinueUploadResponse,
    CreateBucketIsCompleted, DeleteObjectsIsCompleted, DeleteObjectsResponse, ListMetricsObject,
    ListMetricsResponse, OpKind,
};

#[test]
fn new_locator_starts_with_upload_in_progress_shape() {
    let loc = ContinueUploadResponse::new(
        7,
        "logical/key".to_string(),
        "blob".to_string(),
        "bkt".to_string(),
        "eu-west".to_string(),
        "obj".to_string(),
        "uid-7".to_string(),
    );
    assert_eq!(loc.id, 7);
    assert_eq!(loc.tag, "logical/key");
    assert_eq!(loc.cloud, "blob");
    assert_eq!(loc.bucket, "bkt");
    assert_eq!(loc.region, "eu-west");
    assert_eq!(loc.key, "obj");
    assert_eq!(loc.multipart_upload_id, "uid-7");
    assert!(loc.version_id.is_none());
    assert!(loc.version.is_none());
    assert!(loc.size.is_none());
    assert!(loc.last_modified.is_none());
    assert!(loc.etag.is_none());
    assert!(loc.parts.is_none());
    assert!(loc.copy_src_bucket.is_none());
    assert!(loc.copy_src_key.is_none());
}

#[test]
fn parts_are_appended_in_acknowledgement_order() {
    let mut loc = ContinueUploadResponse::new(
        1,
        "t".to_string(),
        "c".to_string(),
        "b".to_string(),
        "r".to_string(),
        "k".to_string(),
        "u".to_string(),
    );
    loc.record_part(ContinueUploadPhysicalPart { part_number: 2, etag: "e2".to_string() });
    loc.record_part(ContinueUploadPhysicalPart { part_number: 1, etag: "e1".to_string() });
    let parts = loc.parts.as_ref().unwrap();
    assert_eq!(parts.len(), 2);
    assert_eq!(parts[0].part_number, 2);
    assert_eq!(parts[0].etag, "e2");
    assert_eq!(parts[1].part_number, 1);
    assert_eq!(parts[1].etag, "e1");
}

#[test]
fn copy_metadata_written_back_matches_a_subsequent_head() {
    let mut loc = ContinueUploadResponse::new(
        9,
        "t".to_string(),
        "c".to_string(),
        "dst-bkt".to_string(),
        "r".to_string(),
        "dst-key".to_string(),
        String::new(),
    );
    // the backend's copy response reported this fingerprint and time
    loc.record_success(
        2048,
        Some("etag-copy".to_string()),
        Some("2024-06-01T12:00:00Z".to_string()),
    );
    // a head served from the record reports exactly the same values
    let head = loc.head_from_record();
    assert_eq!(head.content_length, 2048);
    assert_eq!(head.e_tag.as_deref(), Some("etag-copy"));
    assert_eq!(head.last_modified.as_deref(), Some("2024-06-01T12:00:00Z"));
}

#[test]
fn create_bucket_completion_records_id_and_date() {
    let r = CreateBucketIsCompleted::new(3, "2024-01-02".to_string());
    assert_eq!(r.id, 3);
    assert_eq!(r.creation_date, "2024-01-02");
}

#[test]
fn delete_outcome_starts_without_upload_ids() {
    let r = DeleteObjectsIsCompleted::new(vec![1, 2, 3], vec!["delete".to_string()]);
    assert_eq!(r.ids, vec![1, 2, 3]);
    assert!(r.multipart_upload_ids.is_none());
    assert_eq!(r.op_type, vec!["delete".to_string()]);
}

#[test]
fn delete_batch_response_keeps_its_maps() {
    let mut locators = HashMap::new();
    locators.insert("k".to_string(), Vec::<ContinueUploadResponse>::new());
    let delete_markers = HashMap::new();
    let mut op_type = HashMap::new();
    op_type.insert("k".to_string(), "delete".to_string());
    let r = DeleteObjectsResponse::new(locators, delete_markers, op_type);
    assert!(r.locators.contains_key("k"));
    assert!(r.delete_markers.is_empty());
    assert_eq!(r.op_type.get("k").map(|s| s.as_str()), Some("delete"));
}

#[test]
fn metrics_listing_keeps_metrics_and_count() {
    let metrics = vec![ListMetricsObject {
        timestamp: "2024-01-01T00:00:00Z".to_string(),
        key: "k".to_string(),
        size: 10,
    }];
    let r = ListMetricsResponse::new(metrics, 1);
    assert_eq!(r.metrics.len(), 1);
    assert_eq!(r.metrics[0].key, "k");
    assert_eq!(r.count, 1);
}

#[test]
fn op_kind_labels_match_the_control_plane_vocabulary() {
    assert_eq!(op_kind_label(OpKind::CreateBucket), "create-bucket");
    assert_eq!(op_kind_label(OpKind::Put), "put");
    assert_eq!(op_kind_label(OpKind::MultipartComplete), "multipart-complete");
    assert_eq!(op_kind_label(OpKind::Copy), "copy");
    assert_eq!(op_kind_label(OpKind::Delete), "delete");
}

#[test]
fn delete_is_planned_as_a_tombstone_insertion() {
    let (marker, outcome) = plan_delete("logical/key".to_string(), vec![11, 12]);
    assert_eq!(marker.key, "logical/key");
    assert!(marker.version_id.is_none());
    assert_eq!(marker.superseded_ids, vec![11, 12]);
    assert_eq!(outcome.ids, vec![11, 12]);
    assert!(outcome.multipart_upload_ids.is_none());
    assert_eq!(outcome.op_type, vec!["delete".to_string()]);
}
