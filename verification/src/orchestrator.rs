//! Multipart orchestration and dispatch gating.
//!
//! A mutating multipart request is driven as an explicit state machine:
//! the caller performs each dispatched backend call outside the library
//! and feeds the outcome back as an event. The machine guarantees that a
//! failed commit dispatches an abort of the same upload before the
//! failure is surfaced (no orphaned in-progress uploads on this path),
//! and that a committed upload never has a second commit dispatched for
//! it.

use vstd::prelude::*;

verus! {

use crate::errors::{OpName, ProxyError};

/// The active operation set of one backend. Operations a backend has no
/// native equivalent for are absent from the set rather than silently
/// no-op'd; dispatch to an absent operation is refused as
/// [`ProxyError::Unsupported`], distinct from a backend failure.
pub struct BackendCapabilities {
    pub head: bool,
    pub get: bool,
    pub put: bool,
    pub copy: bool,
    pub create_multipart: bool,
    pub upload_part: bool,
    pub upload_part_copy: bool,
    pub complete_multipart: bool,
    pub abort_multipart: bool,
}

impl BackendCapabilities {
    /// Whether `op` is in this backend's active set.
    pub open spec fn supports_spec(self, op: OpName) -> bool {
        match op {
            OpName::Head => self.head,
            OpName::Get => self.get,
            OpName::Put => self.put,
            OpName::Copy => self.copy,
            OpName::CreateMultipart => self.create_multipart,
            OpName::UploadPart => self.upload_part,
            OpName::UploadPartCopy => self.upload_part_copy,
            OpName::CompleteMultipart => self.complete_multipart,
            OpName::AbortMultipart => self.abort_multipart,
        }
    }

    /// The active set of the blob-style reference adapter: everything
    /// except a native abort of an in-progress upload.
    pub fn blob_backend() -> (c: BackendCapabilities)
        ensures
            c.head && c.get && c.put && c.copy,
            c.create_multipart && c.upload_part && c.upload_part_copy && c.complete_multipart,
            !c.abort_multipart,
    {
        BackendCapabilities {
            head: true,
            get: true,
            put: true,
            copy: true,
            create_multipart: true,
            upload_part: true,
            upload_part_copy: true,
            complete_multipart: true,
            abort_multipart: false,
        }
    }

    /// Whether `op` is in this backend's active set.
    pub fn supports(&self, op: OpName) -> (r: bool)
        ensures
            r == self.supports_spec(op),
    {
        match op {
            OpName::Head => self.head,
            OpName::Get => self.get,
            OpName::Put => self.put,
            OpName::Copy => self.copy,
            OpName::CreateMultipart => self.create_multipart,
            OpName::UploadPart => self.upload_part,
            OpName::UploadPartCopy => self.upload_part_copy,
            OpName::CompleteMultipart => self.complete_multipart,
            OpName::AbortMultipart => self.abort_multipart,
        }
    }

    /// The pre-dispatch gate: an operation outside the active set is
    /// refused with [`ProxyError::Unsupported`] before any backend call.
    pub fn check_dispatch(&self, op: OpName) -> (r: Result<(), ProxyError>)
        ensures
            r is Ok <==> self.supports_spec(op),
            !self.supports_spec(op) ==> (r matches Err(e) && e is Unsupported),
    {
        if self.supports(op) {
            Ok(())
        } else {
            Err(ProxyError::Unsupported)
        }
    }
}

/// Where one mutating request stands in its lifecycle.
#[derive(Clone, Copy, PartialEq, Eq, Structural, Debug)]
pub enum ReqPhase {
    /// Parsed and accepted from the protocol front end.
    Received,
    /// The metadata plane resolved (or allocated) the target locator.
    LocatorResolved,
    /// The matching backend adapter has been invoked.
    BackendDispatched,
    /// The backend call resolved successfully.
    Succeeded,
    /// The backend call failed.
    Failed,
    /// The outcome was reported back to the metadata plane.
    MetadataReported,
}

/// What moves a mutating request through its lifecycle.
#[derive(Clone, Copy, PartialEq, Eq, Structural, Debug)]
pub enum ReqEvent {
    /// The metadata lookup (or allocation) resolved.
    LocatorOk,
    /// The backend adapter was invoked.
    Dispatched,
    /// The backend call resolved successfully.
    BackendOk,
    /// The backend call failed.
    BackendFailed,
    /// The outcome (success or failure) was written back.
    Reported,
}

/// The lifecycle of one mutating request:
/// `Received → LocatorResolved → BackendDispatched → (Succeeded | Failed)
/// → MetadataReported`. Any event out of order leaves the phase where it
/// is.
pub open spec fn req_phase_next(p: ReqPhase, ev: ReqEvent) -> ReqPhase {
    match (p, ev) {
        (ReqPhase::Received, ReqEvent::LocatorOk) => ReqPhase::LocatorResolved,
        (ReqPhase::LocatorResolved, ReqEvent::Dispatched) => ReqPhase::BackendDispatched,
        (ReqPhase::BackendDispatched, ReqEvent::BackendOk) => ReqPhase::Succeeded,
        (ReqPhase::BackendDispatched, ReqEvent::BackendFailed) => ReqPhase::Failed,
        (ReqPhase::Succeeded, ReqEvent::Reported) => ReqPhase::MetadataReported,
        (ReqPhase::Failed, ReqEvent::Reported) => ReqPhase::MetadataReported,
        _ => p,
    }
}

/// Nothing is reported to the metadata plane before the backend call
/// resolved: `MetadataReported` is entered only from `Succeeded` or
/// `Failed`.
pub proof fn lemma_reported_only_after_resolution(p: ReqPhase, ev: ReqEvent)
    requires
        !(p is MetadataReported),
        req_phase_next(p, ev) is MetadataReported,
    ensures
        p is Succeeded || p is Failed,
        ev is Reported,
{
}

/// A backend is dispatched only after the locator was resolved: the
/// metadata plane is consulted before any backend call.
pub proof fn lemma_dispatch_needs_locator(p: ReqPhase, ev: ReqEvent)
    requires
        !(p is BackendDispatched),
        req_phase_next(p, ev) is BackendDispatched,
    ensures
        p is LocatorResolved,
        ev is Dispatched,
{
}

/// Advances a request's lifecycle phase by one event, exactly along the
/// transition relation.
pub fn req_advance(p: ReqPhase, ev: ReqEvent) -> (r: ReqPhase)
    ensures
        r == req_phase_next(p, ev),
{
    match (p, ev) {
        (ReqPhase::Received, ReqEvent::LocatorOk) => ReqPhase::LocatorResolved,
        (ReqPhase::LocatorResolved, ReqEvent::Dispatched) => ReqPhase::BackendDispatched,
        (ReqPhase::BackendDispatched, ReqEvent::BackendOk) => ReqPhase::Succeeded,
        (ReqPhase::BackendDispatched, ReqEvent::BackendFailed) => ReqPhase::Failed,
        (ReqPhase::Succeeded, ReqEvent::Reported) => ReqPhase::MetadataReported,
        (ReqPhase::Failed, ReqEvent::Reported) => ReqPhase::MetadataReported,
        _ => p,
    }
}

/// Where one multipart upload stands.
#[derive(Clone, Copy, PartialEq, Eq, Structural, Debug)]
pub enum MpPhase {
    /// Registered; parts may still be uploading.
    InProgress,
    /// The commit call has been dispatched and has not resolved.
    Completing,
    /// An abort has been dispatched (after a failed commit, or by
    /// request) and has not resolved.
    Aborting,
    /// The backend committed the block list; the upload has its final
    /// object identity.
    Committed,
    /// Aborted by request; nothing was committed.
    Aborted,
    /// A failure was surfaced to the caller after the abort resolved.
    Failed,
}

/// What the backend or the caller reports to the flow.
pub enum MpEvent {
    /// A part upload dispatched earlier resolved successfully.
    PartAcked { part_number: i32 },
    /// The caller asks to commit the upload.
    CompleteRequested,
    /// The caller asks to abort the upload.
    AbortRequested,
    /// The backend committed the block list.
    BackendCompleteOk { e_tag: String },
    /// The backend refused or failed the commit.
    BackendCompleteFailed { err: ProxyError },
    /// The abort dispatched earlier resolved; `ok` says whether the
    /// backend accepted it.
    BackendAbortResolved { ok: bool },
}

/// What the caller must do next on behalf of the flow.
pub enum MpAction {
    /// Nothing to do.
    NoAction,
    /// Issue the backend commit for exactly these parts, in this order.
    DispatchComplete { upload_id: Vec<u8>, part_numbers: Vec<i32> },
    /// Issue the backend abort for this upload.
    DispatchAbort { upload_id: Vec<u8> },
    /// Report the committed upload to the metadata plane.
    ReportCommitted,
    /// Return this error to the protocol caller.
    SurfaceError { err: ProxyError },
}

/// The phase transition relation of a multipart flow. `has_pending`
/// says whether a failed commit is waiting to be surfaced.
pub open spec fn mp_phase_next(p: MpPhase, has_pending: bool, ev: MpEvent) -> MpPhase {
    match p {
        MpPhase::InProgress => match ev {
            MpEvent::CompleteRequested => MpPhase::Completing,
            MpEvent::AbortRequested => MpPhase::Aborting,
            _ => MpPhase::InProgress,
        },
        MpPhase::Completing => match ev {
            MpEvent::BackendCompleteOk { .. } => MpPhase::Committed,
            MpEvent::BackendCompleteFailed { .. } => MpPhase::Aborting,
            _ => MpPhase::Completing,
        },
        MpPhase::Aborting => match ev {
            MpEvent::BackendAbortResolved { .. } => if has_pending {
                MpPhase::Failed
            } else {
                MpPhase::Aborted
            },
            _ => MpPhase::Aborting,
        },
        MpPhase::Committed => MpPhase::Committed,
        MpPhase::Aborted => MpPhase::Aborted,
        MpPhase::Failed => MpPhase::Failed,
    }
}

/// Orphan avoidance: the `Failed` phase is entered only from
/// `Aborting`, on the resolution of the abort. A multipart failure is
/// therefore surfaced to the caller only after the abort of that upload
/// was dispatched and resolved — never straight from a failed commit.
pub proof fn lemma_failed_only_after_abort(p: MpPhase, has_pending: bool, ev: MpEvent)
    requires
        !(p is Failed),
        mp_phase_next(p, has_pending, ev) is Failed,
    ensures
        p is Aborting,
        ev is BackendAbortResolved,
        has_pending,
{
}

/// Commit idempotence, phase half: `Committed` is entered only by a
/// successful backend commit, and no later event ever leaves it, so a
/// flow acquires an object identity at most once.
pub proof fn lemma_committed_entered_once(p: MpPhase, has_pending: bool, ev: MpEvent)
    requires
        mp_phase_next(p, has_pending, ev) is Committed,
    ensures
        p is Committed || (p is Completing && ev is BackendCompleteOk),
{
}

/// One multipart upload being driven to commit or abort.
pub struct MultipartFlow {
    /// The synthesized upload identifier; fixed for the flow's lifetime.
    pub upload_id: Vec<u8>,
    /// Part numbers whose uploads have resolved successfully, in ack
    /// order.
    pub parts: Vec<i32>,
    /// Where the flow stands.
    pub phase: MpPhase,
    /// The backend's fingerprint of the committed object; assigned once,
    /// by the commit that succeeded, and never changed.
    pub committed_e_tag: Option<String>,
    /// The commit failure waiting to be surfaced once the abort
    /// resolves.
    pub pending_error: Option<ProxyError>,
}

fn clone_bytes(v: &Vec<u8>) -> (r: Vec<u8>)
    ensures
        r@ == v@,
{
    let mut r: Vec<u8> = Vec::new();
    let mut i: usize = 0;
    while i < v.len()
        invariant
            i <= v@.len(),
            r@ =~= v@.take(i as int),
        decreases v@.len() - i,
    {
        r.push(v[i]);
        i = i + 1;
    }
    proof {
        assert(r@ =~= v@);
    }
    r
}

fn clone_parts(v: &Vec<i32>) -> (r: Vec<i32>)
    ensures
        r@ == v@,
{
    let mut r: Vec<i32> = Vec::new();
    let mut i: usize = 0;
    while i < v.len()
        invariant
            i <= v@.len(),
            r@ =~= v@.take(i as int),
        decreases v@.len() - i,
    {
        r.push(v[i]);
        i = i + 1;
    }
    proof {
        assert(r@ =~= v@);
    }
    r
}

impl MultipartFlow {
    /// The flow's own invariant: an object identity exists exactly once
    /// the flow is committed, and a stored failure exists only while it
    /// waits on the abort or after it was surfaced.
    pub open spec fn wf(self) -> bool {
        (self.committed_e_tag is Some ==> self.phase is Committed) && (self.pending_error is Some
            ==> self.phase is Aborting || self.phase is Failed)
    }

    /// Opens a flow for a freshly registered upload.
    pub fn begin(upload_id: Vec<u8>) -> (f: MultipartFlow)
        ensures
            f.wf(),
            f.upload_id@ == upload_id@,
            f.parts@ == Seq::<i32>::empty(),
            f.phase is InProgress,
            f.committed_e_tag is None,
            f.pending_error is None,
    {
        MultipartFlow {
            upload_id,
            parts: Vec::new(),
            phase: MpPhase::InProgress,
            committed_e_tag: None,
            pending_error: None,
        }
    }

    /// Feeds one event to the flow and returns the caller's next
    /// action. The contract pins every transition:
    ///
    /// - a commit is dispatched only from `InProgress` and references
    ///   exactly the acked parts, in ack order;
    /// - a failed commit dispatches an abort of the same upload and
    ///   surfaces nothing yet; the stored failure is surfaced, unmasked,
    ///   when that abort resolves, whether or not the abort itself
    ///   succeeded;
    /// - a committed flow never dispatches again, keeps its recorded
    ///   identity, and answers a repeated commit request with
    ///   `Unsupported`.
    pub fn step(&mut self, ev: MpEvent) -> (action: MpAction)
        requires
            old(self).wf(),
            ev matches MpEvent::PartAcked { part_number } ==> 1 <= part_number < 10000,
        ensures
            final(self).wf(),
            final(self).upload_id@ == old(self).upload_id@,
            final(self).phase == mp_phase_next(old(self).phase, old(self).pending_error is Some, ev),
            // parts change only when a part is acked in progress, and then by appending
            ev matches MpEvent::PartAcked { part_number } ==> (old(self).phase is InProgress
                ==> final(self).parts@ == old(self).parts@.push(part_number) && action is NoAction),
            !(old(self).phase is InProgress && ev is PartAcked)
                ==> final(self).parts@ == old(self).parts@,
            // the commit references exactly the acked parts
            old(self).phase is InProgress && ev is CompleteRequested
                ==> (action matches MpAction::DispatchComplete { upload_id, part_numbers }
                    && upload_id@ == old(self).upload_id@ && part_numbers@ == old(self).parts@),
            // a requested abort is dispatched for this upload
            old(self).phase is InProgress && ev is AbortRequested
                ==> (action matches MpAction::DispatchAbort { upload_id }
                    && upload_id@ == old(self).upload_id@),
            // a successful commit records the backend identity and reports it
            ev matches MpEvent::BackendCompleteOk { e_tag } ==> (old(self).phase is Completing
                ==> final(self).committed_e_tag == Some(e_tag) && action is ReportCommitted),
            // a failed commit dispatches an abort of this upload before anything is surfaced
            ev matches MpEvent::BackendCompleteFailed { err } ==> (old(self).phase is Completing
                ==> final(self).pending_error == Some(err)),
            old(self).phase is Completing && ev is BackendCompleteFailed
                ==> (action matches MpAction::DispatchAbort { upload_id }
                    && upload_id@ == old(self).upload_id@),
            // the abort resolution surfaces the original failure, unmasked
            old(self).pending_error matches Some(e) ==> (old(self).phase is Aborting
                && ev is BackendAbortResolved
                ==> action == (MpAction::SurfaceError { err: e })),
            old(self).phase is Aborting && ev is BackendAbortResolved
                && old(self).pending_error is None ==> action is NoAction,
            // multipart commit idempotence: the identity is assigned at most once
            old(self).committed_e_tag matches Some(t) ==> final(self).committed_e_tag == Some(t),
            !(old(self).phase is Completing && ev is BackendCompleteOk)
                ==> final(self).committed_e_tag == old(self).committed_e_tag,
            // a committed flow never dispatches again; a repeated commit request errs
            old(self).phase is Committed
                ==> !(action is DispatchComplete) && !(action is DispatchAbort),
            old(self).phase is Committed && ev is CompleteRequested
                ==> (action matches MpAction::SurfaceError { err } && err is Unsupported),
            // the pending failure changes only when a commit fails
            !(old(self).phase is Completing && ev is BackendCompleteFailed)
                ==> final(self).pending_error == old(self).pending_error,
    {
        match ev {
            MpEvent::PartAcked { part_number } => {
                if matches!(self.phase, MpPhase::InProgress) {
                    self.parts.push(part_number);
                }
                MpAction::NoAction
            },
            MpEvent::CompleteRequested => {
                match self.phase {
                    MpPhase::InProgress => {
                        self.phase = MpPhase::Completing;
                        MpAction::DispatchComplete {
                            upload_id: clone_bytes(&self.upload_id),
                            part_numbers: clone_parts(&self.parts),
                        }
                    },
                    MpPhase::Committed => MpAction::SurfaceError { err: ProxyError::Unsupported },
                    _ => MpAction::NoAction,
                }
            },
            MpEvent::AbortRequested => {
                match self.phase {
                    MpPhase::InProgress => {
                        self.phase = MpPhase::Aborting;
                        MpAction::DispatchAbort { upload_id: clone_bytes(&self.upload_id) }
                    },
                    _ => MpAction::NoAction,
                }
            },
            MpEvent::BackendCompleteOk { e_tag } => {
                match self.phase {
                    MpPhase::Completing => {
                        self.phase = MpPhase::Committed;
                        self.committed_e_tag = Some(e_tag);
                        MpAction::ReportCommitted
                    },
                    _ => MpAction::NoAction,
                }
            },
            MpEvent::BackendCompleteFailed { err } => {
                match self.phase {
                    MpPhase::Completing => {
                        self.phase = MpPhase::Aborting;
                        self.pending_error = Some(err);
                        MpAction::DispatchAbort { upload_id: clone_bytes(&self.upload_id) }
                    },
                    _ => MpAction::NoAction,
                }
            },
            MpEvent::BackendAbortResolved { ok: _ } => {
                match self.phase {
                    MpPhase::Aborting => {
                        match &self.pending_error {
                            Some(e) => {
                                let surfaced = e.duplicate();
                                self.phase = MpPhase::Failed;
                                MpAction::SurfaceError { err: surfaced }
                            },
                            None => {
                                self.phase = MpPhase::Aborted;
                                MpAction::NoAction
                            },
                        }
                    },
                    _ => MpAction::NoAction,
                }
            },
        }
    }
}

} // verus!
