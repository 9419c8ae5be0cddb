use skyproxy::errors::OpName;
use skyproxy::orchestrator::{
    req_advance, BackendCapabilities, MpAction, MpEvent, MpPhase, MultipartFlow, ReqEvent,
    ReqPhase,
};
use skyproxy::ProxyError;

#[test]
fn unsupported_operation_is_refused_before_dispatch() {
    let caps = BackendCapabilities::blob_backend();
    assert!(caps.check_dispatch(OpName::Head).is_ok());
    assert!(caps.check_dispatch(OpName::Get).is_ok());
    assert!(caps.check_dispatch(OpName::CompleteMultipart).is_ok());
    let r = caps.check_dispatch(OpName::AbortMultipart);
    assert!(matches!(r, Err(ProxyError::Unsupported)));
}

#[test]
fn failed_commit_aborts_before_surfacing_the_error() {
    let mut flow = MultipartFlow::begin(b"uid-1".to_vec());
    assert!(matches!(flow.step(MpEvent::PartAcked { part_number: 1 }), MpAction::NoAction));
    assert!(matches!(flow.step(MpEvent::PartAcked { part_number: 2 }), MpAction::NoAction));

    // the commit references exactly the two acked parts, in order
    match flow.step(MpEvent::CompleteRequested) {
        MpAction::DispatchComplete { upload_id, part_numbers } => {
            assert_eq!(upload_id, b"uid-1".to_vec());
            assert_eq!(part_numbers, vec![1, 2]);
        }
        other => panic!("expected a commit dispatch, got {:?}", action_name(&other)),
    }

    // the backend fails the commit: the flow's next action is the abort
    // of this very upload, not the error
    let failure = ProxyError::BackendError {
        op: OpName::CompleteMultipart,
        bucket: "b".to_string(),
        key: "k".to_string(),
        detail: "503".to_string(),
    };
    match flow.step(MpEvent::BackendCompleteFailed { err: failure }) {
        MpAction::DispatchAbort { upload_id } => assert_eq!(upload_id, b"uid-1".to_vec()),
        other => panic!("expected an abort dispatch, got {:?}", action_name(&other)),
    }
    assert_eq!(flow.phase, MpPhase::Aborting);

    // only once the abort resolves is the original failure surfaced
    match flow.step(MpEvent::BackendAbortResolved { ok: true }) {
        MpAction::SurfaceError { err } => match err {
            ProxyError::BackendError { op, detail, .. } => {
                assert_eq!(op, OpName::CompleteMultipart);
                assert_eq!(detail, "503");
            }
            other => panic!("original failure was masked: {:?}", other),
        },
        other => panic!("expected the surfaced error, got {:?}", action_name(&other)),
    }
    assert_eq!(flow.phase, MpPhase::Failed);
}

#[test]
fn failed_abort_does_not_mask_the_original_failure() {
    let mut flow = MultipartFlow::begin(b"uid-2".to_vec());
    flow.step(MpEvent::PartAcked { part_number: 1 });
    flow.step(MpEvent::CompleteRequested);
    flow.step(MpEvent::BackendCompleteFailed { err: ProxyError::NotFound });
    // even when the abort itself fails, the surfaced error is the commit's
    match flow.step(MpEvent::BackendAbortResolved { ok: false }) {
        MpAction::SurfaceError { err } => assert!(matches!(err, ProxyError::NotFound)),
        other => panic!("expected the surfaced error, got {:?}", action_name(&other)),
    }
}

#[test]
fn second_complete_never_fabricates_a_new_identity() {
    let mut flow = MultipartFlow::begin(b"uid-3".to_vec());
    flow.step(MpEvent::PartAcked { part_number: 1 });
    assert!(matches!(flow.step(MpEvent::CompleteRequested), MpAction::DispatchComplete { .. }));
    assert!(matches!(
        flow.step(MpEvent::BackendCompleteOk { e_tag: "etag-first".to_string() }),
        MpAction::ReportCommitted
    ));
    assert_eq!(flow.phase, MpPhase::Committed);
    assert_eq!(flow.committed_e_tag.as_deref(), Some("etag-first"));

    // a repeated commit request neither dispatches nor changes the identity
    match flow.step(MpEvent::CompleteRequested) {
        MpAction::SurfaceError { err } => assert!(matches!(err, ProxyError::Unsupported)),
        other => panic!("expected an error, got {:?}", action_name(&other)),
    }
    assert_eq!(flow.phase, MpPhase::Committed);
    assert_eq!(flow.committed_e_tag.as_deref(), Some("etag-first"));

    // even a stray backend acknowledgement cannot re-commit
    assert!(matches!(
        flow.step(MpEvent::BackendCompleteOk { e_tag: "etag-other".to_string() }),
        MpAction::NoAction
    ));
    assert_eq!(flow.committed_e_tag.as_deref(), Some("etag-first"));
}

#[test]
fn abort_by_request_closes_without_error() {
    let mut flow = MultipartFlow::begin(b"uid-4".to_vec());
    flow.step(MpEvent::PartAcked { part_number: 1 });
    match flow.step(MpEvent::AbortRequested) {
        MpAction::DispatchAbort { upload_id } => assert_eq!(upload_id, b"uid-4".to_vec()),
        other => panic!("expected an abort dispatch, got {:?}", action_name(&other)),
    }
    assert!(matches!(flow.step(MpEvent::BackendAbortResolved { ok: true }), MpAction::NoAction));
    assert_eq!(flow.phase, MpPhase::Aborted);
    assert!(flow.committed_e_tag.is_none());
}

#[test]
fn parts_are_recorded_in_ack_order() {
    let mut flow = MultipartFlow::begin(b"uid-5".to_vec());
    for n in [4, 1, 3] {
        flow.step(MpEvent::PartAcked { part_number: n });
    }
    assert_eq!(flow.parts, vec![4, 1, 3]);
}

#[test]
fn request_lifecycle_follows_the_documented_order() {
    let mut p = ReqPhase::Received;
    p = req_advance(p, ReqEvent::LocatorOk);
    assert_eq!(p, ReqPhase::LocatorResolved);
    p = req_advance(p, ReqEvent::Dispatched);
    assert_eq!(p, ReqPhase::BackendDispatched);
    let failed = req_advance(p, ReqEvent::BackendFailed);
    assert_eq!(failed, ReqPhase::Failed);
    p = req_advance(p, ReqEvent::BackendOk);
    assert_eq!(p, ReqPhase::Succeeded);
    p = req_advance(p, ReqEvent::Reported);
    assert_eq!(p, ReqPhase::MetadataReported);
    // failures are reported too
    assert_eq!(req_advance(failed, ReqEvent::Reported), ReqPhase::MetadataReported);
}

#[test]
fn out_of_order_lifecycle_events_do_not_advance() {
    // nothing is reported before the backend call resolved
    assert_eq!(req_advance(ReqPhase::Received, ReqEvent::Reported), ReqPhase::Received);
    assert_eq!(
        req_advance(ReqPhase::BackendDispatched, ReqEvent::Reported),
        ReqPhase::BackendDispatched
    );
    // no dispatch before the locator is resolved
    assert_eq!(req_advance(ReqPhase::Received, ReqEvent::Dispatched), ReqPhase::Received);
}

fn action_name(a: &MpAction) -> &'static str {
    match a {
        MpAction::NoAction => "NoAction",
        MpAction::DispatchComplete { .. } => "DispatchComplete",
        MpAction::DispatchAbort { .. } => "DispatchAbort",
        MpAction::ReportCommitted => "ReportCommitted",
        MpAction::SurfaceError { .. } => "SurfaceError",
    }
}
