//! Apply engine: the requests that the controller sends to the store and the
//! answers that it takes back.
//!
//! The library never talks to the store itself. It hands its host a
//! `Request`, the host performs it, and the host hands back a `Response`.
//! Every write is a declarative merge made under one field manager, so that
//! the controller claims only the fields that it sets.

use crate::builder::{
    desired_content_store, desired_endpoint, desired_workload, make_viewer_name, viewer_name,
};
use crate::error::{Error, ErrorView, StoreError, StoreErrorView};
use crate::markdown::{MarkdownView, MarkdownViewStatusEnum, MarkdownViewView};
use crate::resources::{
    ContentStore, ContentStoreView, Endpoint, EndpointView, ObjectKey, ObjectKeyView, Workload,
    WorkloadView,
};
use vstd::prelude::*;
use vstd::string::*;

verus! {

/// Field manager under which the controller writes.
pub const CONTROLLER_NAME: &'static str = "markdown-view-manager";

/// How a write is made: under which field manager, and whether it takes
/// fields over from other managers.
#[derive(Debug)]
pub struct ApplyParams {
    pub field_manager: String,
    pub force: bool,
}

/// The view of [`ApplyParams`]: its strings as their characters, its numbers and maps as
/// mathematical ones.
pub struct ApplyParamsView {
    pub field_manager: Seq<char>,
    pub force: bool,
}

impl View for ApplyParams {
    type V = ApplyParamsView;

    open spec fn view(&self) -> ApplyParamsView {
        ApplyParamsView { field_manager: self.field_manager@, force: self.force }
    }
}

/// A new status for the view under `key`.
#[derive(Debug)]
pub struct StatusPatch {
    pub key: ObjectKey,
    pub status: MarkdownViewStatusEnum,
}

/// The view of [`StatusPatch`]: its strings as their characters, its numbers and maps as
/// mathematical ones.
pub struct StatusPatchView {
    pub key: ObjectKeyView,
    pub status: MarkdownViewStatusEnum,
}

impl View for StatusPatch {
    type V = StatusPatchView;

    open spec fn view(&self) -> StatusPatchView {
        StatusPatchView { key: self.key@, status: self.status }
    }
}

/// What the controller asks of the store.
#[derive(Debug)]
pub enum Request {
    /// Create the content store, or bring it to this definition.
    ApplyContentStore(ContentStore, ApplyParams),
    /// Create the workload, or bring it to this definition.
    ApplyWorkload(Workload, ApplyParams),
    /// Create the endpoint, or bring it to this definition.
    ApplyEndpoint(Endpoint, ApplyParams),
    /// Write the status of a view.
    ApplyStatus(StatusPatch, ApplyParams),
    /// Read a workload.
    GetWorkload(ObjectKey),
    /// Read a view.
    GetView(ObjectKey),
}

/// The view of [`Request`]: its strings as their characters, its numbers and maps as
/// mathematical ones.
pub enum RequestView {
    ApplyContentStore(ContentStoreView, ApplyParamsView),
    ApplyWorkload(WorkloadView, ApplyParamsView),
    ApplyEndpoint(EndpointView, ApplyParamsView),
    ApplyStatus(StatusPatchView, ApplyParamsView),
    GetWorkload(ObjectKeyView),
    GetView(ObjectKeyView),
}

impl View for Request {
    type V = RequestView;

    open spec fn view(&self) -> RequestView {
        match self {
            Request::ApplyContentStore(child, params) => RequestView::ApplyContentStore(
                child@,
                params@,
            ),
            Request::ApplyWorkload(child, params) => RequestView::ApplyWorkload(child@, params@),
            Request::ApplyEndpoint(child, params) => RequestView::ApplyEndpoint(child@, params@),
            Request::ApplyStatus(patch, params) => RequestView::ApplyStatus(patch@, params@),
            Request::GetWorkload(key) => RequestView::GetWorkload(key@),
            Request::GetView(key) => RequestView::GetView(key@),
        }
    }
}

/// What the store answered.
#[derive(Debug)]
pub enum Response {
    /// The store took the write.
    Applied,
    /// The workload asked for, with the replica count that the store holds
    /// for it, if it holds one.
    Workload(Option<i32>),
    /// The view asked for.
    View(MarkdownView),
    /// The store turned the request down.
    Failed(StoreError),
    /// The request could not be put into the form that the store takes, for
    /// the reason given. Nothing was sent.
    Malformed(String),
}

/// The view of [`Response`]: its strings as their characters, its numbers and maps as
/// mathematical ones.
pub enum ResponseView {
    Applied,
    Workload(Option<int>),
    View(MarkdownViewView),
    Failed(StoreErrorView),
    Malformed(Seq<char>),
}

impl View for Response {
    type V = ResponseView;

    open spec fn view(&self) -> ResponseView {
        match self {
            Response::Applied => ResponseView::Applied,
            Response::Workload(replicas) => ResponseView::Workload(
                match replicas {
                    Some(count) => Some(*count as int),
                    None => None,
                },
            ),
            Response::View(view) => ResponseView::View(view@),
            Response::Failed(error) => ResponseView::Failed(error@),
            Response::Malformed(reason) => ResponseView::Malformed(reason@),
        }
    }
}

/// The view of an optional request.
pub open spec fn request_view(request: Option<Request>) -> Option<RequestView> {
    match request {
        Some(request) => Some(request@),
        None => None,
    }
}

/// Parameters of a write that leaves the fields of other managers alone.
pub open spec fn shared_params() -> ApplyParamsView {
    ApplyParamsView { field_manager: CONTROLLER_NAME@, force: false }
}

/// Parameters of a write that takes over the fields that it sets. The
/// controller makes no such write; they are for a host that has to.
pub open spec fn forced_params() -> ApplyParamsView {
    ApplyParamsView { field_manager: CONTROLLER_NAME@, force: true }
}

/// The key of `view`.
pub open spec fn view_key(view: MarkdownViewView) -> ObjectKeyView {
    ObjectKeyView { namespace: view.namespace, name: view.name }
}

/// The key of the workload that belongs to `view`.
pub open spec fn workload_key(view: MarkdownViewView) -> ObjectKeyView {
    ObjectKeyView { namespace: view.namespace, name: viewer_name(view.name) }
}

/// The write that brings the content store of `view` to its desired state.
pub open spec fn content_store_request(view: MarkdownViewView) -> RequestView {
    RequestView::ApplyContentStore(desired_content_store(view), shared_params())
}

/// The write that brings the workload of `view` to its desired state.
pub open spec fn workload_request(view: MarkdownViewView) -> RequestView {
    RequestView::ApplyWorkload(desired_workload(view), shared_params())
}

/// The write that brings the endpoint of `view` to its desired state.
pub open spec fn endpoint_request(view: MarkdownViewView) -> RequestView {
    RequestView::ApplyEndpoint(desired_endpoint(view), shared_params())
}

/// The write that sets the status of `view` to `status`. It is made like
/// every other write: a status that another manager holds is not taken over.
pub open spec fn status_request(
    view: MarkdownViewView,
    status: MarkdownViewStatusEnum,
) -> RequestView {
    RequestView::ApplyStatus(StatusPatchView { key: view_key(view), status }, shared_params())
}

/// The error that an answer stands for where another answer was awaited:
/// the store's own error, the reason why the request could not be sent, or
/// an answer out of place.
pub open spec fn refusal(response: ResponseView) -> ErrorView {
    match response {
        ResponseView::Failed(error) => ErrorView::KubeError(error),
        ResponseView::Malformed(reason) => ErrorView::SerializationError(reason),
        _ => ErrorView::UnknownError,
    }
}

/// What an answer to a write means: the write was taken, or it was not, for
/// the reason that `refusal` gives.
pub open spec fn apply_result(response: ResponseView) -> Result<(), ErrorView> {
    match response {
        ResponseView::Applied => Ok(()),
        _ => Err(refusal(response)),
    }
}

/// The view of the result of a write.
pub open spec fn result_view(result: Result<(), Error>) -> Result<(), ErrorView> {
    match result {
        Ok(()) => Ok(()),
        Err(error) => Err(error@),
    }
}

impl ApplyParams {
    /// Parameters of a write that leaves the fields of other managers alone.
    pub fn shared() -> (params: ApplyParams)
        ensures
            params@ == shared_params(),
    {
        ApplyParams { field_manager: String::from_str(CONTROLLER_NAME), force: false }
    }

    /// Parameters of a write that takes over the fields that it sets. The
    /// controller makes no such write; they are for a host that has to.
    pub fn forced() -> (params: ApplyParams)
        ensures
            params@ == forced_params(),
    {
        ApplyParams { field_manager: String::from_str(CONTROLLER_NAME), force: true }
    }
}

impl MarkdownView {
    /// The key under which the store holds this view.
    pub fn key(&self) -> (key: ObjectKey)
        ensures
            key@ == view_key(self@),
    {
        ObjectKey { namespace: self.namespace.clone(), name: self.name.clone() }
    }

    /// The key under which the store holds the workload of this view.
    pub fn workload_key(&self) -> (key: ObjectKey)
        ensures
            key@ == workload_key(self@),
    {
        ObjectKey { namespace: self.namespace.clone(), name: make_viewer_name(&self.name) }
    }
}

/// Turns an answer that was not awaited into the error that it stands for.
pub fn refuse(response: Response) -> (error: Error)
    ensures
        error@ == refusal(response@),
{
    match response {
        Response::Failed(error) => Error::KubeError(error),
        Response::Malformed(reason) => Error::SerializationError(reason),
        _ => Error::UnknownError,
    }
}

/// Reads the answer to a write. A failure of the store is never dropped: it
/// comes back as `Error::KubeError` with the store's own error inside.
pub fn interpret_apply(response: Response) -> (result: Result<(), Error>)
    ensures
        result_view(result) == apply_result(response@),
{
    match response {
        Response::Applied => Ok(()),
        other => Err(refuse(other)),
    }
}

} // verus!
