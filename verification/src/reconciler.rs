//! Reconciler: brings the children of one view to their desired state, one
//! step at a time, and then reports the health of the view.
//!
//! A reconcile is a walk through `ReconcileState`. The host sends the request
//! that a step returns, waits for the store's answer and hands it to the next
//! step. A step is taken only on an answer, so no write is sent before the
//! one before it was acknowledged, and a failure ends the walk at once.

use crate::apply::{
    content_store_request, endpoint_request, refusal, refuse, request_view, shared_params,
    status_request, view_key, workload_key, workload_request, ApplyParams, Request, RequestView,
    Response, ResponseView, StatusPatch,
};
use crate::builder::{
    build_content_store, build_endpoint, build_workload, replicas_fit, replicas_too_large,
};
use crate::error::{Error, ErrorView};
use crate::markdown::{MarkdownView, MarkdownViewStatusEnum, MarkdownViewView};
use crate::status::{evaluate_status, needs_status_write, status_differs, status_of};
use vstd::prelude::*;

verus! {

/// Where the evaluation of a view's status stands.
#[derive(Debug, Clone, Copy, PartialEq, Eq, Structural)]
pub enum StatusStep {
    /// The workload was asked for.
    ObservingWorkload,
    /// The status was computed and the stored view was asked for.
    ReadingStatus(MarkdownViewStatusEnum),
    /// The computed status was sent to the store.
    WritingStatus,
}

/// Where a reconcile stands. Each state but the last two names the request
/// whose answer is awaited.
#[derive(Debug)]
pub enum ReconcileState {
    SyncingContentStore,
    SyncingWorkload,
    SyncingEndpoint,
    EvaluatingStatus(StatusStep),
    Done,
    Failed(Error),
}

/// The view of [`ReconcileState`]: its strings as their characters, its numbers and maps as
/// mathematical ones.
pub enum ReconcileStateView {
    SyncingContentStore,
    SyncingWorkload,
    SyncingEndpoint,
    EvaluatingStatus(StatusStep),
    Done,
    Failed(ErrorView),
}

impl View for ReconcileState {
    type V = ReconcileStateView;

    open spec fn view(&self) -> ReconcileStateView {
        match self {
            ReconcileState::SyncingContentStore => ReconcileStateView::SyncingContentStore,
            ReconcileState::SyncingWorkload => ReconcileStateView::SyncingWorkload,
            ReconcileState::SyncingEndpoint => ReconcileStateView::SyncingEndpoint,
            ReconcileState::EvaluatingStatus(step) => ReconcileStateView::EvaluatingStatus(*step),
            ReconcileState::Done => ReconcileStateView::Done,
            ReconcileState::Failed(error) => ReconcileStateView::Failed(error@),
        }
    }
}

/// A state together with the request to send next, if there is one.
pub type Step = (ReconcileStateView, Option<RequestView>);

/// The step that ends a reconcile because `response` is not the answer that
/// was awaited.
pub open spec fn failure(response: ResponseView) -> Step {
    (ReconcileStateView::Failed(refusal(response)), None)
}

/// The step taken on `response` while the status of `view` is evaluated.
pub open spec fn status_step(view: MarkdownViewView, step: StatusStep, response: ResponseView) -> Step {
    match step {
        StatusStep::ObservingWorkload => match response {
            ResponseView::Workload(observed) => (
                ReconcileStateView::EvaluatingStatus(
                    StatusStep::ReadingStatus(status_of(observed, view.spec.replicas)),
                ),
                Some(RequestView::GetView(view_key(view))),
            ),
            _ => failure(response),
        },
        StatusStep::ReadingStatus(computed) => match response {
            ResponseView::View(stored) => if status_differs(stored.status, computed) {
                (
                    ReconcileStateView::EvaluatingStatus(StatusStep::WritingStatus),
                    Some(status_request(view, computed)),
                )
            } else {
                (ReconcileStateView::Done, None)
            },
            _ => failure(response),
        },
        StatusStep::WritingStatus => match response {
            ResponseView::Applied => (ReconcileStateView::Done, None),
            _ => failure(response),
        },
    }
}

/// The step taken on `response` in `state`.
pub open spec fn step(view: MarkdownViewView, state: ReconcileStateView, response: ResponseView) -> Step {
    match state {
        ReconcileStateView::SyncingContentStore => match response {
            ResponseView::Applied => if replicas_fit(view.spec.replicas) {
                (ReconcileStateView::SyncingWorkload, Some(workload_request(view)))
            } else {
                (ReconcileStateView::Failed(replicas_too_large()), None)
            },
            _ => failure(response),
        },
        ReconcileStateView::SyncingWorkload => match response {
            ResponseView::Applied => (
                ReconcileStateView::SyncingEndpoint,
                Some(endpoint_request(view)),
            ),
            _ => failure(response),
        },
        ReconcileStateView::SyncingEndpoint => match response {
            ResponseView::Applied => (
                ReconcileStateView::EvaluatingStatus(StatusStep::ObservingWorkload),
                Some(RequestView::GetWorkload(workload_key(view))),
            ),
            _ => failure(response),
        },
        ReconcileStateView::EvaluatingStatus(at) => status_step(view, at, response),
        ReconcileStateView::Done => (ReconcileStateView::Done, None),
        ReconcileStateView::Failed(error) => (ReconcileStateView::Failed(error), None),
    }
}

/// Whether a reconcile in `state` has ended.
pub open spec fn finished(state: ReconcileStateView) -> bool {
    state is Done || state is Failed
}

/// Whether `response` is the answer that a reconcile in `state` waits for.
pub open spec fn awaited(state: ReconcileStateView, response: ResponseView) -> bool {
    match state {
        ReconcileStateView::SyncingContentStore => response is Applied,
        ReconcileStateView::SyncingWorkload => response is Applied,
        ReconcileStateView::SyncingEndpoint => response is Applied,
        ReconcileStateView::EvaluatingStatus(StatusStep::ObservingWorkload) => response is Workload,
        ReconcileStateView::EvaluatingStatus(StatusStep::ReadingStatus(_)) => response is View,
        ReconcileStateView::EvaluatingStatus(StatusStep::WritingStatus) => response is Applied,
        ReconcileStateView::Done => false,
        ReconcileStateView::Failed(_) => false,
    }
}

/// The state of a reconcile that started in `state` and has taken a step on
/// each of `responses` in turn.
pub open spec fn state_after(
    view: MarkdownViewView,
    state: ReconcileStateView,
    responses: Seq<ResponseView>,
) -> ReconcileStateView
    decreases responses.len(),
{
    if responses.len() == 0 {
        state
    } else {
        step(view, state_after(view, state, responses.drop_last()), responses.last()).0
    }
}

/// The request, if any, that a reconcile started in `state` sends on the last
/// of `responses`, having taken a step on each one before it.
pub open spec fn request_after(
    view: MarkdownViewView,
    state: ReconcileStateView,
    responses: Seq<ResponseView>,
) -> Option<RequestView> {
    if responses.len() == 0 {
        None
    } else {
        step(view, state_after(view, state, responses.drop_last()), responses.last()).1
    }
}

/// Fail fast: a step that does not get the answer it waits for ends the
/// reconcile in `Failed` and sends nothing, and nothing is sent after it
/// whatever answers follow. So where the content store cannot be applied,
/// neither the workload nor the endpoint is.
pub proof fn lemma_fail_fast(
    view: MarkdownViewView,
    state: ReconcileStateView,
    response: ResponseView,
    later: Seq<ResponseView>,
)
    requires
        !finished(state),
        !awaited(state, response),
    ensures
        step(view, state, response).0 is Failed,
        step(view, state, response).1 is None,
        state_after(view, step(view, state, response).0, later) == step(view, state, response).0,
        request_after(view, step(view, state, response).0, later) is None,
    decreases later.len(),
{
    if later.len() > 0 {
        lemma_fail_fast(view, state, response, later.drop_last());
    }
}

/// A failure of the store is never dropped: the reconcile ends in `Failed`
/// with the store's own error inside.
pub proof fn lemma_store_failure_surfaces(
    view: MarkdownViewView,
    state: ReconcileStateView,
    error: crate::error::StoreErrorView,
)
    requires
        !finished(state),
    ensures
        step(view, state, ResponseView::Failed(error)) == (
            ReconcileStateView::Failed(ErrorView::KubeError(error)),
            None::<RequestView>,
        ),
{
}

/// The steps run in one order. The workload is written only on the
/// acknowledgement of the content store, the endpoint only on that of the
/// workload, and the workload is read back only on that of the endpoint.
pub proof fn lemma_steps_in_order(
    view: MarkdownViewView,
    state: ReconcileStateView,
    response: ResponseView,
)
    ensures
        step(view, state, response).1 matches Some(RequestView::ApplyContentStore(_, _)) ==> false,
        step(view, state, response).1 matches Some(RequestView::ApplyWorkload(_, _)) ==> state
            is SyncingContentStore && response is Applied && replicas_fit(view.spec.replicas),
        step(view, state, response).1 matches Some(RequestView::ApplyEndpoint(_, _)) ==> state
            is SyncingWorkload && response is Applied,
        step(view, state, response).1 matches Some(RequestView::GetWorkload(_)) ==> state
            is SyncingEndpoint && response is Applied,
        step(view, state, response).0 is Done ==> state is Done || state
            is EvaluatingStatus,
{
}

/// A workload carries the replica count that its view asks for, or it is not
/// written at all. Where the count fits, the request for the workload holds
/// that very count. Where it does not, the reconcile ends after the content
/// store with an error and no request, and nothing is sent after it.
pub proof fn lemma_replicas_kept_or_refused(view: MarkdownViewView, later: Seq<ResponseView>)
    ensures
        replicas_fit(view.spec.replicas) ==> step(
            view,
            ReconcileStateView::SyncingContentStore,
            ResponseView::Applied,
        ) == (ReconcileStateView::SyncingWorkload, Some(workload_request(view))),
        workload_request(view) matches RequestView::ApplyWorkload(child, _) && child.replicas
            == view.spec.replicas,
        !replicas_fit(view.spec.replicas) ==> step(
            view,
            ReconcileStateView::SyncingContentStore,
            ResponseView::Applied,
        ) == (ReconcileStateView::Failed(replicas_too_large()), None::<RequestView>),
        !replicas_fit(view.spec.replicas) ==> request_after(
            view,
            ReconcileStateView::Failed(replicas_too_large()),
            later,
        ) is None && state_after(view, ReconcileStateView::Failed(replicas_too_large()), later)
            == ReconcileStateView::Failed(replicas_too_large()),
    decreases later.len(),
{
    if later.len() > 0 {
        lemma_replicas_kept_or_refused(view, later.drop_last());
    }
}

/// Every write is made under the controller's field manager and none is
/// forced: no step takes over what another manager holds.
pub proof fn lemma_no_write_is_forced(
    view: MarkdownViewView,
    state: ReconcileStateView,
    response: ResponseView,
)
    ensures
        match step(view, state, response).1 {
            Some(RequestView::ApplyContentStore(_, params)) => params == shared_params(),
            Some(RequestView::ApplyWorkload(_, params)) => params == shared_params(),
            Some(RequestView::ApplyEndpoint(_, params)) => params == shared_params(),
            Some(RequestView::ApplyStatus(_, params)) => params == shared_params(),
            _ => true,
        },
        content_store_request(view) matches RequestView::ApplyContentStore(_, params) && params
            == shared_params(),
        !shared_params().force,
{
}

/// No write without a change: the status is sent to the store only after
/// the stored view was read and found to hold another status, or none. A
/// stored view that holds the computed status ends the reconcile with no
/// request at all.
pub proof fn lemma_status_written_only_on_change(
    view: MarkdownViewView,
    state: ReconcileStateView,
    response: ResponseView,
)
    ensures
        step(view, state, response).1 matches Some(RequestView::ApplyStatus(patch, _)) ==> {
            &&& state == ReconcileStateView::EvaluatingStatus(StatusStep::ReadingStatus(patch.status))
            &&& response matches ResponseView::View(stored)
            &&& stored.status != Some(patch.status)
        },
        forall|computed: MarkdownViewStatusEnum, stored: MarkdownViewView|
            state == ReconcileStateView::EvaluatingStatus(StatusStep::ReadingStatus(computed))
                && response == ResponseView::View(stored) && stored.status == Some(computed)
                ==> step(view, state, response) == (ReconcileStateView::Done, None::<RequestView>),
{
}

/// Ends a reconcile on an answer that is no acknowledgement.
fn fail(response: Response) -> (next: (ReconcileState, Option<Request>))
    ensures
        (next.0@, request_view(next.1)) == failure(response@),
{
    (ReconcileState::Failed(refuse(response)), None)
}

/// The request that brings the content store of `obj` to its desired state.
pub fn reconcile_configmap(obj: &MarkdownView) -> (request: Request)
    ensures
        request@ == content_store_request(obj@),
{
    Request::ApplyContentStore(build_content_store(obj), ApplyParams::shared())
}

/// The request that brings the workload of `obj` to its desired state.
///
/// There is none for a view that asks for more replicas than a workload can
/// carry: such a view gets an error, and nothing is to be written.
pub fn reconcile_deployment(obj: &MarkdownView) -> (request: Result<Request, Error>)
    ensures
        match request {
            Ok(request) => replicas_fit(obj@.spec.replicas) && request@ == workload_request(obj@),
            Err(error) => !replicas_fit(obj@.spec.replicas) && error@ == replicas_too_large(),
        },
{
    match build_workload(obj) {
        Ok(child) => Ok(Request::ApplyWorkload(child, ApplyParams::shared())),
        Err(error) => Err(error),
    }
}

/// The request that brings the endpoint of `obj` to its desired state.
pub fn reconcile_service(obj: &MarkdownView) -> (request: Request)
    ensures
        request@ == endpoint_request(obj@),
{
    Request::ApplyEndpoint(build_endpoint(obj), ApplyParams::shared())
}

/// Takes one step of the status evaluation of `obj`.
///
/// The workload is read from the store, the status is computed from its
/// replica count, and the stored view is read. The status is written only
/// where the stored view does not hold it already.
pub fn update_status(obj: &MarkdownView, at: StatusStep, response: Response) -> (next: (
    ReconcileState,
    Option<Request>,
))
    ensures
        (next.0@, request_view(next.1)) == status_step(obj@, at, response@),
{
    match at {
        StatusStep::ObservingWorkload => match response {
            Response::Workload(observed) => {
                let computed = evaluate_status(observed, obj.spec.replicas);
                (
                    ReconcileState::EvaluatingStatus(StatusStep::ReadingStatus(computed)),
                    Some(Request::GetView(obj.key())),
                )
            },
            other => fail(other),
        },
        StatusStep::ReadingStatus(computed) => match response {
            Response::View(stored) => {
                if needs_status_write(stored.status, computed) {
                    let patch = StatusPatch { key: obj.key(), status: computed };
                    (
                        ReconcileState::EvaluatingStatus(StatusStep::WritingStatus),
                        Some(Request::ApplyStatus(patch, ApplyParams::shared())),
                    )
                } else {
                    (ReconcileState::Done, None)
                }
            },
            other => fail(other),
        },
        StatusStep::WritingStatus => match response {
            Response::Applied => (ReconcileState::Done, None),
            other => fail(other),
        },
    }
}

/// Starts a reconcile of `obj`: the content store comes first.
pub fn start(obj: &MarkdownView) -> (first: (ReconcileState, Request))
    ensures
        first.0@ == ReconcileStateView::SyncingContentStore,
        first.1@ == content_store_request(obj@),
{
    (ReconcileState::SyncingContentStore, reconcile_configmap(obj))
}

/// Takes one step of a reconcile of `obj`: from `state` and the store's
/// answer to the request in flight, to the next state and the next request.
///
/// The steps run in one order: content store, workload, endpoint, status.
/// Anything but the awaited answer ends the reconcile in `Failed`, with no
/// further request. A reconcile that has ended stays as it is.
pub fn reconcile(obj: &MarkdownView, state: ReconcileState, response: Response) -> (next: (
    ReconcileState,
    Option<Request>,
))
    ensures
        (next.0@, request_view(next.1)) == step(obj@, state@, response@),
{
    match state {
        ReconcileState::SyncingContentStore => match response {
            Response::Applied => match reconcile_deployment(obj) {
                Ok(request) => (ReconcileState::SyncingWorkload, Some(request)),
                Err(error) => (ReconcileState::Failed(error), None),
            },
            other => fail(other),
        },
        ReconcileState::SyncingWorkload => match response {
            Response::Applied => (ReconcileState::SyncingEndpoint, Some(reconcile_service(obj))),
            other => fail(other),
        },
        ReconcileState::SyncingEndpoint => match response {
            Response::Applied => (
                ReconcileState::EvaluatingStatus(StatusStep::ObservingWorkload),
                Some(Request::GetWorkload(obj.workload_key())),
            ),
            other => fail(other),
        },
        ReconcileState::EvaluatingStatus(at) => update_status(obj, at, response),
        ReconcileState::Done => (ReconcileState::Done, None),
        ReconcileState::Failed(error) => (ReconcileState::Failed(error), None),
    }
}

/// Whether the reconcile has ended, in success or in failure.
pub fn is_finished(state: &ReconcileState) -> (r: bool)
    ensures
        r == finished(state@),
{
    match state {
        ReconcileState::Done => true,
        ReconcileState::Failed(_) => true,
        _ => false,
    }
}

} // verus!
