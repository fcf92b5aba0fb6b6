use view_controller::apply::{interpret_apply, ApplyParams, Request, Response};
use view_controller::error::{Error, StoreError, StoreErrorKind};
use view_controller::markdown::{MarkdonwViewSpec, MarkdownView, MarkdownViewStatusEnum};
use view_controller::reconciler::{
    is_finished, reconcile, reconcile_configmap, reconcile_deployment, reconcile_service, start,
    update_status, ReconcileState, StatusStep,
};
use view_controller::string_map::StringMap;

fn view(name: &str, replicas: u32, status: Option<MarkdownViewStatusEnum>) -> MarkdownView {
    let mut markdowns = StringMap::new();
    markdowns.insert("a.md".to_string(), "hi".to_string());
    MarkdownView {
        name: name.to_string(),
        namespace: "team".to_string(),
        uid: "uid-7".to_string(),
        spec: MarkdonwViewSpec { markdowns, replicas, viewer_image: None },
        status,
    }
}

fn unavailable() -> Response {
    Response::Failed(StoreError {
        kind: StoreErrorKind::Unavailable,
        message: "try later".to_string(),
    })
}

fn is_store_failure(state: &ReconcileState, expected: &str) -> bool {
    match state {
        ReconcileState::Failed(Error::KubeError(error)) => error.message == expected,
        _ => false,
    }
}

#[test]
fn a_reconcile_starts_with_the_content_store() {
    let obj = view("demo", 2, None);
    let (state, request) = start(&obj);
    assert!(matches!(state, ReconcileState::SyncingContentStore));
    match request {
        Request::ApplyContentStore(child, params) => {
            assert_eq!(child.metadata.name, "markdowns-demo");
            assert_eq!(params.field_manager, "markdown-view-manager");
            assert!(!params.force);
        }
        other => panic!("unexpected request {:?}", other),
    }
}

#[test]
fn the_requests_for_the_children_carry_the_shared_field_manager() {
    let obj = view("demo", 2, None);
    match reconcile_configmap(&obj) {
        Request::ApplyContentStore(child, params) => {
            assert_eq!(child.metadata.name, "markdowns-demo");
            assert_eq!(params.field_manager, "markdown-view-manager");
            assert!(!params.force);
        }
        other => panic!("unexpected request {:?}", other),
    }
    match reconcile_deployment(&obj).unwrap() {
        Request::ApplyWorkload(child, params) => {
            assert_eq!(child.metadata.name, "viewer-demo");
            assert_eq!(child.replicas, 2);
            assert_eq!(params.field_manager, "markdown-view-manager");
            assert!(!params.force);
        }
        other => panic!("unexpected request {:?}", other),
    }
    match reconcile_service(&obj) {
        Request::ApplyEndpoint(child, params) => {
            assert_eq!(child.metadata.name, "viewer-demo");
            assert_eq!(child.port.port, 80);
            assert_eq!(params.field_manager, "markdown-view-manager");
            assert!(!params.force);
        }
        other => panic!("unexpected request {:?}", other),
    }
}

#[test]
fn the_steps_run_in_order() {
    let obj = view("demo", 2, None);
    let (state, _) = start(&obj);

    let (state, request) = reconcile(&obj, state, Response::Applied);
    assert!(matches!(state, ReconcileState::SyncingWorkload));
    assert!(matches!(request, Some(Request::ApplyWorkload(_, _))));

    let (state, request) = reconcile(&obj, state, Response::Applied);
    assert!(matches!(state, ReconcileState::SyncingEndpoint));
    assert!(matches!(request, Some(Request::ApplyEndpoint(_, _))));

    let (state, request) = reconcile(&obj, state, Response::Applied);
    assert!(matches!(state, ReconcileState::EvaluatingStatus(StatusStep::ObservingWorkload)));
    match request {
        Some(Request::GetWorkload(key)) => {
            assert_eq!(key.namespace, "team");
            assert_eq!(key.name, "viewer-demo");
        }
        other => panic!("unexpected request {:?}", other),
    }

    let (state, request) = reconcile(&obj, state, Response::Workload(Some(2)));
    assert!(matches!(
        state,
        ReconcileState::EvaluatingStatus(StatusStep::ReadingStatus(
            MarkdownViewStatusEnum::Available
        ))
    ));
    match request {
        Some(Request::GetView(key)) => {
            assert_eq!(key.namespace, "team");
            assert_eq!(key.name, "demo");
        }
        other => panic!("unexpected request {:?}", other),
    }

    let (state, request) = reconcile(&obj, state, Response::View(view("demo", 2, None)));
    assert!(matches!(state, ReconcileState::EvaluatingStatus(StatusStep::WritingStatus)));
    match request {
        Some(Request::ApplyStatus(patch, params)) => {
            assert_eq!(patch.key.namespace, "team");
            assert_eq!(patch.key.name, "demo");
            assert_eq!(patch.status, MarkdownViewStatusEnum::Available);
            assert_eq!(params.field_manager, "markdown-view-manager");
            assert!(!params.force);
        }
        other => panic!("unexpected request {:?}", other),
    }

    let (state, request) = reconcile(&obj, state, Response::Applied);
    assert!(matches!(state, ReconcileState::Done));
    assert!(request.is_none());
    assert!(is_finished(&state));
}

#[test]
fn a_failed_content_store_apply_stops_the_reconcile() {
    let obj = view("demo", 2, None);
    let (state, _) = start(&obj);
    let (state, request) = reconcile(&obj, state, unavailable());
    assert!(is_store_failure(&state, "try later"));
    assert!(request.is_none());
    assert!(is_finished(&state));

    let (state, request) = reconcile(&obj, state, Response::Applied);
    assert!(is_store_failure(&state, "try later"));
    assert!(request.is_none());
    let (state, request) = reconcile(&obj, state, Response::Applied);
    assert!(is_store_failure(&state, "try later"));
    assert!(request.is_none());
}

#[test]
fn a_failed_workload_apply_stops_before_the_endpoint() {
    let obj = view("demo", 2, None);
    let (state, _) = start(&obj);
    let (state, _) = reconcile(&obj, state, Response::Applied);
    let (state, request) = reconcile(&obj, state, unavailable());
    assert!(is_store_failure(&state, "try later"));
    assert!(request.is_none());
}

#[test]
fn a_failed_endpoint_apply_stops_before_the_status() {
    let obj = view("demo", 2, None);
    let (state, _) = start(&obj);
    let (state, _) = reconcile(&obj, state, Response::Applied);
    let (state, _) = reconcile(&obj, state, Response::Applied);
    let (state, request) = reconcile(&obj, state, unavailable());
    assert!(is_store_failure(&state, "try later"));
    assert!(request.is_none());
}

#[test]
fn an_answer_out_of_place_is_an_unknown_error() {
    let obj = view("demo", 2, None);
    let (state, _) = start(&obj);
    let (state, request) = reconcile(&obj, state, Response::Workload(Some(2)));
    assert!(matches!(state, ReconcileState::Failed(Error::UnknownError)));
    assert!(request.is_none());
}

#[test]
fn a_request_that_cannot_be_sent_is_a_serialization_error() {
    let obj = view("demo", 2, None);
    let (state, _) = start(&obj);
    let (state, request) = reconcile(&obj, state, Response::Malformed("bad label".to_string()));
    match &state {
        ReconcileState::Failed(error) => {
            assert!(matches!(error, Error::SerializationError(_)));
            assert_eq!(error.message(), "SerializationError: bad label");
        }
        other => panic!("unexpected state {:?}", other),
    }
    assert!(request.is_none());
    match interpret_apply(Response::Malformed("bad label".to_string())) {
        Err(Error::SerializationError(reason)) => assert_eq!(reason, "bad label"),
        other => panic!("unexpected result {:?}", other),
    }
}

#[test]
fn a_replica_count_that_does_not_fit_has_no_request() {
    let obj = view("demo", 4294967295, None);
    match reconcile_deployment(&obj) {
        Err(Error::SerializationError(reason)) => {
            assert_eq!(reason, "replicas exceeds what a workload can carry")
        }
        other => panic!("unexpected result {:?}", other),
    }
}

#[test]
fn a_replica_count_that_does_not_fit_stops_after_the_content_store() {
    let obj = view("demo", 2147483648, None);
    let (state, request) = start(&obj);
    assert!(matches!(request, Request::ApplyContentStore(_, _)));
    let (state, request) = reconcile(&obj, state, Response::Applied);
    match &state {
        ReconcileState::Failed(error) => assert_eq!(
            error.message(),
            "SerializationError: replicas exceeds what a workload can carry"
        ),
        other => panic!("unexpected state {:?}", other),
    }
    assert!(request.is_none());
    let (state, request) = reconcile(&obj, state, Response::Applied);
    assert!(matches!(state, ReconcileState::Failed(Error::SerializationError(_))));
    assert!(request.is_none());
}

#[test]
fn the_largest_replica_count_that_fits_is_requested() {
    let obj = view("demo", 2147483647, None);
    match reconcile_deployment(&obj) {
        Ok(Request::ApplyWorkload(child, _)) => assert_eq!(child.replicas, 2147483647),
        other => panic!("unexpected result {:?}", other),
    }
}

#[test]
fn a_status_conflict_fails_the_reconcile() {
    let obj = view("demo", 3, None);
    let taken = Response::Failed(StoreError {
        kind: StoreErrorKind::Conflict,
        message: "held by another field manager".to_string(),
    });
    let (state, request) = update_status(&obj, StatusStep::WritingStatus, taken);
    match &state {
        ReconcileState::Failed(Error::KubeError(error)) => {
            assert_eq!(error.kind, StoreErrorKind::Conflict)
        }
        other => panic!("unexpected state {:?}", other),
    }
    assert!(request.is_none());
}

#[test]
fn a_finished_reconcile_stays_finished() {
    let obj = view("demo", 2, None);
    let (state, request) = reconcile(&obj, ReconcileState::Done, Response::Applied);
    assert!(matches!(state, ReconcileState::Done));
    assert!(request.is_none());
}

#[test]
fn an_unchanged_status_is_not_written() {
    let obj = view("demo", 3, None);
    let stored = view("demo", 3, Some(MarkdownViewStatusEnum::Available));
    let (state, request) = update_status(
        &obj,
        StatusStep::ReadingStatus(MarkdownViewStatusEnum::Available),
        Response::View(stored),
    );
    assert!(matches!(state, ReconcileState::Done));
    assert!(request.is_none());
}

#[test]
fn a_changed_status_is_written_without_force() {
    let obj = view("demo", 3, None);
    let stored = view("demo", 3, Some(MarkdownViewStatusEnum::NotReady));
    let (state, request) = update_status(
        &obj,
        StatusStep::ReadingStatus(MarkdownViewStatusEnum::Healthy),
        Response::View(stored),
    );
    assert!(matches!(state, ReconcileState::EvaluatingStatus(StatusStep::WritingStatus)));
    match request {
        Some(Request::ApplyStatus(patch, params)) => {
            assert_eq!(patch.status, MarkdownViewStatusEnum::Healthy);
            assert_eq!(params.field_manager, "markdown-view-manager");
            assert!(!params.force);
        }
        other => panic!("unexpected request {:?}", other),
    }
}

#[test]
fn the_status_follows_the_observed_workload() {
    let obj = view("demo", 3, None);
    let cases = [
        (None, MarkdownViewStatusEnum::NotReady),
        (Some(0), MarkdownViewStatusEnum::NotReady),
        (Some(3), MarkdownViewStatusEnum::Available),
        (Some(2), MarkdownViewStatusEnum::Healthy),
    ];
    for (observed, expected) in cases {
        let (state, request) =
            update_status(&obj, StatusStep::ObservingWorkload, Response::Workload(observed));
        match state {
            ReconcileState::EvaluatingStatus(StatusStep::ReadingStatus(computed)) => {
                assert_eq!(computed, expected)
            }
            other => panic!("unexpected state {:?}", other),
        }
        assert!(matches!(request, Some(Request::GetView(_))));
    }
}

#[test]
fn a_workload_that_cannot_be_read_fails_the_reconcile() {
    let obj = view("demo", 3, None);
    let missing = Response::Failed(StoreError {
        kind: StoreErrorKind::NotFound,
        message: "no such workload".to_string(),
    });
    let (state, request) = update_status(&obj, StatusStep::ObservingWorkload, missing);
    assert!(is_store_failure(&state, "no such workload"));
    assert!(request.is_none());
}

#[test]
fn a_failed_status_write_fails_the_reconcile() {
    let obj = view("demo", 3, None);
    let (state, request) = update_status(&obj, StatusStep::WritingStatus, unavailable());
    assert!(is_store_failure(&state, "try later"));
    assert!(request.is_none());
}

#[test]
fn an_acknowledged_write_is_ok() {
    assert!(interpret_apply(Response::Applied).is_ok());
}

#[test]
fn a_refused_write_carries_the_store_error() {
    match interpret_apply(unavailable()) {
        Err(Error::KubeError(error)) => {
            assert_eq!(error.kind, StoreErrorKind::Unavailable);
            assert_eq!(error.message, "try later");
        }
        other => panic!("unexpected result {:?}", other),
    }
}

#[test]
fn an_answer_to_a_read_is_no_acknowledgement() {
    assert!(matches!(interpret_apply(Response::Workload(None)), Err(Error::UnknownError)));
}

#[test]
fn apply_params_name_the_controller() {
    let shared = ApplyParams::shared();
    assert_eq!(shared.field_manager, "markdown-view-manager");
    assert!(!shared.force);
    let forced = ApplyParams::forced();
    assert_eq!(forced.field_manager, "markdown-view-manager");
    assert!(forced.force);
}

#[test]
fn keys_of_a_view_and_of_its_workload() {
    let obj = view("docs", 1, None);
    let key = obj.key();
    assert_eq!(key.namespace, "team");
    assert_eq!(key.name, "docs");
    let workload = obj.workload_key();
    assert_eq!(workload.namespace, "team");
    assert_eq!(workload.name, "viewer-docs");
}
