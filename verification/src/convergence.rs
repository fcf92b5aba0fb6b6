//! A whole run against a store, and what it leaves behind.
//!
//! `run_to_end` plays the part of the host against an in-memory store. The
//! laws below say where such a run ends: with the three children as the view
//! asks for them and the status written, or at the first failure with
//! nothing written after it.

use crate::apply::{
    content_store_request, endpoint_request, shared_params, status_request, view_key,
    workload_key, workload_request, RequestView, ResponseView, CONTROLLER_NAME,
};
use crate::builder::{
    desired_content_store, desired_endpoint, desired_workload, lemma_desired_state_fixed_by_spec,
    replicas_fit, replicas_too_large,
};
use crate::driver::{advance, advanced, on_trigger, OutcomeView, Run, RunView};
use crate::error::ErrorView;
use crate::markdown::{MarkdownViewStatusEnum, MarkdownViewView};
use crate::reconciler::{ReconcileStateView, StatusStep};
use crate::resources::{ObjectKey, ObjectKeyView};
use crate::status::status_of;
use crate::store::{
    address_of, conflict, conflicts, handled, status_conflicts, with_status, AddressView,
    EntryView, Kind, MemoryStore, ObjectView, StoreView,
};
use vstd::prelude::*;

verus! {

/// The most requests that `run` can still send.
pub open spec fn steps_left(run: RunView) -> nat {
    match run {
        RunView::Fetching(_) => 7,
        RunView::Reconciling(_, state) => match state {
            ReconcileStateView::SyncingContentStore => 6,
            ReconcileStateView::SyncingWorkload => 5,
            ReconcileStateView::SyncingEndpoint => 4,
            ReconcileStateView::EvaluatingStatus(StatusStep::ObservingWorkload) => 3,
            ReconcileStateView::EvaluatingStatus(StatusStep::ReadingStatus(_)) => 2,
            ReconcileStateView::EvaluatingStatus(StatusStep::WritingStatus) => 1,
            ReconcileStateView::Done => 0,
            ReconcileStateView::Failed(_) => 0,
        },
        RunView::Ended(_) => 0,
    }
}

/// The store and the run after `request` and every request that follows it
/// were answered by the store.
pub open spec fn played(store: StoreView, run: RunView, request: RequestView) -> (StoreView, RunView)
    decreases steps_left(run),
{
    let answer = handled(store, request);
    let next = advanced(run, answer.1);
    match next.1 {
        Some(following) => if steps_left(next.0) < steps_left(run) {
            played(answer.0, next.0, following)
        } else {
            (answer.0, next.0)
        },
        None => (answer.0, next.0),
    }
}

/// Every run ends: a step that sends a request leaves fewer steps to take,
/// and a step that sends none has ended the run.
pub proof fn lemma_run_terminates(run: RunView, response: ResponseView)
    ensures
        advanced(run, response).1 is Some ==> steps_left(advanced(run, response).0) < steps_left(
            run,
        ),
        advanced(run, response).1 is None ==> advanced(run, response).0 is Ended,
{
}

/// Address of the view itself.
pub open spec fn view_address(view: MarkdownViewView) -> AddressView {
    AddressView { kind: Kind::View, key: view_key(view) }
}

/// Address of the content store of `view`.
pub open spec fn content_store_address(view: MarkdownViewView) -> AddressView {
    address_of(ObjectView::ContentStore(desired_content_store(view)))
}

/// Address of the workload of `view`.
pub open spec fn workload_address(view: MarkdownViewView) -> AddressView {
    address_of(ObjectView::Workload(desired_workload(view)))
}

/// Address of the endpoint of `view`.
pub open spec fn endpoint_address(view: MarkdownViewView) -> AddressView {
    address_of(ObjectView::Endpoint(desired_endpoint(view)))
}

/// No other field manager holds what is stored under `at`.
pub open spec fn open_to_controller(store: StoreView, at: AddressView) -> bool {
    store.dom().contains(at) ==> store[at].manager == CONTROLLER_NAME@
}

/// No other field manager holds the status of the view stored under `at`.
pub open spec fn status_open_to_controller(store: StoreView, at: AddressView) -> bool {
    store[at].status_manager matches Some(holder) ==> holder == CONTROLLER_NAME@
}

/// The entry of a child that the controller has applied.
pub open spec fn applied_child(object: ObjectView) -> EntryView {
    EntryView { object, manager: CONTROLLER_NAME@, status_manager: None }
}

/// The status of a view whose workload is stored as the view asks for it.
pub open spec fn settled_status(view: MarkdownViewView) -> MarkdownViewStatusEnum {
    status_of(Some(view.spec.replicas as int), view.spec.replicas)
}

/// The entry of `view` once its settled status is in the store: as it was
/// where the view carried that status already, else with the status set and
/// held by the controller.
pub open spec fn settled_entry(store: StoreView, view: MarkdownViewView) -> EntryView {
    if view.status == Some(settled_status(view)) {
        store[view_address(view)]
    } else {
        EntryView {
            object: ObjectView::View(with_status(view, settled_status(view))),
            manager: store[view_address(view)].manager,
            status_manager: Some(CONTROLLER_NAME@),
        }
    }
}

/// `store` with the three children of `view` as the view asks for them.
pub open spec fn with_children(store: StoreView, view: MarkdownViewView) -> StoreView {
    store.insert(
        content_store_address(view),
        applied_child(ObjectView::ContentStore(desired_content_store(view))),
    ).insert(
        workload_address(view),
        applied_child(ObjectView::Workload(desired_workload(view))),
    ).insert(endpoint_address(view), applied_child(ObjectView::Endpoint(desired_endpoint(view))))
}

/// The store in which the children of `view` are as the view asks for them
/// and the view carries its settled status, all else being as in `store`.
pub open spec fn converged(store: StoreView, view: MarkdownViewView) -> StoreView {
    with_children(store, view).insert(view_address(view), settled_entry(store, view))
}

/// `store` holds `view`.
pub open spec fn holds(store: StoreView, view: MarkdownViewView) -> bool {
    &&& store.dom().contains(view_address(view))
    &&& store[view_address(view)].object == ObjectView::View(view)
}

/// No other manager holds one of the children of `view`.
pub open spec fn children_open(store: StoreView, view: MarkdownViewView) -> bool {
    &&& open_to_controller(store, content_store_address(view))
    &&& open_to_controller(store, workload_address(view))
    &&& open_to_controller(store, endpoint_address(view))
}

/// `store` holds `view`, a workload can carry the replicas that the view
/// asks for, and no other manager holds one of its children or its status.
pub open spec fn ready_for(store: StoreView, view: MarkdownViewView) -> bool {
    &&& holds(store, view)
    &&& replicas_fit(view.spec.replicas)
    &&& children_open(store, view)
    &&& status_open_to_controller(store, view_address(view))
}

/// The first steps of a run: the view is fetched and the content store is
/// applied.
proof fn lemma_first_steps(store: StoreView, view: MarkdownViewView)
    requires
        holds(store, view),
        open_to_controller(store, content_store_address(view)),
    ensures
        played(store, RunView::Fetching(view_key(view)), RequestView::GetView(view_key(view)))
            == played(
            store,
            RunView::Reconciling(view, ReconcileStateView::SyncingContentStore),
            content_store_request(view),
        ),
        handled(store, content_store_request(view)) == (
            store.insert(
                content_store_address(view),
                applied_child(ObjectView::ContentStore(desired_content_store(view))),
            ),
            ResponseView::Applied,
        ),
{
    let key = view_key(view);
    let fetching = RunView::Fetching(key);
    let first = RunView::Reconciling(view, ReconcileStateView::SyncingContentStore);
    assert(handled(store, RequestView::GetView(key)) == (store, ResponseView::View(view)));
    assert(advanced(fetching, ResponseView::View(view)) == (
        first,
        Some(content_store_request(view)),
    ));
}

/// The middle steps of a run: after the content store, the workload is
/// applied.
proof fn lemma_middle_steps(store: StoreView, view: MarkdownViewView)
    requires
        holds(store, view),
        replicas_fit(view.spec.replicas),
        open_to_controller(store, content_store_address(view)),
        open_to_controller(store, workload_address(view)),
    ensures
        played(
            store,
            RunView::Reconciling(view, ReconcileStateView::SyncingContentStore),
            content_store_request(view),
        ) == played(
            store.insert(
                content_store_address(view),
                applied_child(ObjectView::ContentStore(desired_content_store(view))),
            ).insert(
                workload_address(view),
                applied_child(ObjectView::Workload(desired_workload(view))),
            ),
            RunView::Reconciling(view, ReconcileStateView::SyncingEndpoint),
            endpoint_request(view),
        ),
{
    let first = RunView::Reconciling(view, ReconcileStateView::SyncingContentStore);
    let second = RunView::Reconciling(view, ReconcileStateView::SyncingWorkload);
    let third = RunView::Reconciling(view, ReconcileStateView::SyncingEndpoint);
    let store1 = store.insert(
        content_store_address(view),
        applied_child(ObjectView::ContentStore(desired_content_store(view))),
    );
    let store2 = store1.insert(
        workload_address(view),
        applied_child(ObjectView::Workload(desired_workload(view))),
    );
    assert(handled(store, content_store_request(view)) == (store1, ResponseView::Applied));
    assert(advanced(first, ResponseView::Applied) == (second, Some(workload_request(view))));
    assert(played(store, first, content_store_request(view)) == played(
        store1,
        second,
        workload_request(view),
    ));
    assert(handled(store1, workload_request(view)) == (store2, ResponseView::Applied));
    assert(advanced(second, ResponseView::Applied) == (third, Some(endpoint_request(view))));
    assert(played(store1, second, workload_request(view)) == played(
        store2,
        third,
        endpoint_request(view),
    ));
}

/// Where a run ends once the children are applied: with the status as it
/// was if the view carries its settled status already, with the store's
/// conflict if another manager holds the status, and else with the settled
/// status written.
pub open spec fn status_outcome(store: StoreView, view: MarkdownViewView) -> (StoreView, RunView) {
    if view.status == Some(settled_status(view)) {
        (store, RunView::Ended(OutcomeView::Converged))
    } else if status_conflicts(store, view_address(view), shared_params()) {
        (store, RunView::Ended(OutcomeView::Failed(ErrorView::KubeError(conflict()))))
    } else {
        (
            store.insert(view_address(view), settled_entry(store, view)),
            RunView::Ended(OutcomeView::Converged),
        )
    }
}

/// The last steps of a run: the endpoint is applied, the workload is read
/// back and the status is written where it has changed.
proof fn lemma_last_steps(store: StoreView, view: MarkdownViewView)
    requires
        holds(store, view),
        open_to_controller(store, endpoint_address(view)),
        store.dom().contains(workload_address(view)),
        store[workload_address(view)].object == ObjectView::Workload(desired_workload(view)),
    ensures
        played(
            store,
            RunView::Reconciling(view, ReconcileStateView::SyncingEndpoint),
            endpoint_request(view),
        ) == status_outcome(
            store.insert(
                endpoint_address(view),
                applied_child(ObjectView::Endpoint(desired_endpoint(view))),
            ),
            view,
        ),
{
    let key = view_key(view);
    let computed = settled_status(view);
    let third = RunView::Reconciling(view, ReconcileStateView::SyncingEndpoint);
    let observing = RunView::Reconciling(
        view,
        ReconcileStateView::EvaluatingStatus(StatusStep::ObservingWorkload),
    );
    let reading = RunView::Reconciling(
        view,
        ReconcileStateView::EvaluatingStatus(StatusStep::ReadingStatus(computed)),
    );
    let writing = RunView::Reconciling(
        view,
        ReconcileStateView::EvaluatingStatus(StatusStep::WritingStatus),
    );
    let ended = RunView::Ended(OutcomeView::Converged);
    let store3 = store.insert(
        endpoint_address(view),
        applied_child(ObjectView::Endpoint(desired_endpoint(view))),
    );
    let get_workload = RequestView::GetWorkload(workload_key(view));
    let get_view = RequestView::GetView(key);
    let observed = ResponseView::Workload(Some(view.spec.replicas as int));

    assert(handled(store, endpoint_request(view)) == (store3, ResponseView::Applied));
    assert(advanced(third, ResponseView::Applied) == (observing, Some(get_workload)));
    assert(played(store, third, endpoint_request(view)) == played(store3, observing, get_workload));

    assert(store3[workload_address(view)] == store[workload_address(view)]);
    assert(handled(store3, get_workload) == (store3, observed));
    assert(advanced(observing, observed) == (reading, Some(get_view)));
    assert(played(store3, observing, get_workload) == played(store3, reading, get_view));

    assert(store3[view_address(view)] == store[view_address(view)]);
    assert(handled(store3, get_view) == (store3, ResponseView::View(view)));
    if view.status == Some(computed) {
        assert(advanced(reading, ResponseView::View(view)) == (ended, None::<RequestView>));
        assert(played(store3, reading, get_view) == (store3, ended));
    } else {
        let write = status_request(view, computed);
        assert(advanced(reading, ResponseView::View(view)) == (writing, Some(write)));
        assert(played(store3, reading, get_view) == played(store3, writing, write));
        if status_conflicts(store3, view_address(view), shared_params()) {
            let refused = ResponseView::Failed(conflict());
            assert(handled(store3, write) == (store3, refused));
            assert(advanced(writing, refused) == (
                RunView::Ended(OutcomeView::Failed(ErrorView::KubeError(conflict()))),
                None::<RequestView>,
            ));
        } else {
            let store4 = store3.insert(view_address(view), settled_entry(store3, view));
            assert(handled(store3, write) == (store4, ResponseView::Applied));
            assert(advanced(writing, ResponseView::Applied) == (ended, None::<RequestView>));
            assert(played(store3, writing, write) == (store4, ended));
        }
    }
}

/// What a run leaves behind once the content store and the workload are
/// applied, whoever holds the status.
proof fn lemma_whole_run(store: StoreView, view: MarkdownViewView)
    requires
        holds(store, view),
        replicas_fit(view.spec.replicas),
        children_open(store, view),
    ensures
        played(store, RunView::Fetching(view_key(view)), RequestView::GetView(view_key(view)))
            == status_outcome(with_children(store, view), view),
        with_children(store, view)[view_address(view)] == store[view_address(view)],
{
    lemma_first_steps(store, view);
    lemma_middle_steps(store, view);
    let store2 = store.insert(
        content_store_address(view),
        applied_child(ObjectView::ContentStore(desired_content_store(view))),
    ).insert(
        workload_address(view),
        applied_child(ObjectView::Workload(desired_workload(view))),
    );
    lemma_last_steps(store2, view);
}

/// Convergence: a run for a view that the store holds, whose replica count
/// a workload can carry and none of whose children or status is held by
/// another manager, ends as `Converged`. It leaves the content store, the
/// workload and the endpoint as the view asks for them, the workload with
/// the very replica count of the view, the view with its settled status, and
/// everything else as it was.
pub proof fn lemma_run_converges(store: StoreView, view: MarkdownViewView)
    requires
        ready_for(store, view),
    ensures
        played(store, RunView::Fetching(view_key(view)), RequestView::GetView(view_key(view)))
            == (converged(store, view), RunView::Ended(OutcomeView::Converged)),
        converged(store, view)[workload_address(view)].object matches ObjectView::Workload(child)
            && child.replicas == view.spec.replicas,
{
    lemma_whole_run(store, view);
    let applied = with_children(store, view);
    assert(settled_entry(applied, view) == settled_entry(store, view));
    if view.status == Some(settled_status(view)) {
        assert(converged(store, view) =~= applied);
    }
}

/// A second run changes nothing: on the store that a converged run left
/// behind, the next run converges again and leaves the very same store. No
/// child is altered and no status is written.
pub proof fn lemma_second_run_changes_nothing(store: StoreView, view: MarkdownViewView)
    requires
        ready_for(store, view),
    ensures
        played(
            converged(store, view),
            RunView::Fetching(view_key(view)),
            RequestView::GetView(view_key(view)),
        ) == (converged(store, view), RunView::Ended(OutcomeView::Converged)),
{
    let settled = with_status(view, settled_status(view));
    let after = converged(store, view);
    lemma_desired_state_fixed_by_spec(view, settled);
    if view.status == Some(settled_status(view)) {
        assert(settled == view);
    }
    assert(ready_for(after, settled));
    lemma_run_converges(after, settled);
    assert(converged(after, settled) =~= after);
}

/// A view that the store does not hold ends the run as `Gone`, and the
/// store stays as it is.
pub proof fn lemma_missing_view_is_gone(store: StoreView, key: ObjectKeyView)
    requires
        !store.dom().contains(AddressView { kind: Kind::View, key }),
    ensures
        played(store, RunView::Fetching(key), RequestView::GetView(key)) == (
            store,
            RunView::Ended(OutcomeView::Gone),
        ),
{
}

/// Fail fast, against a store: where another manager holds the content
/// store, the run ends with the store's conflict and the store stays as it
/// is. Neither the workload nor the endpoint is written.
pub proof fn lemma_conflict_stops_run(store: StoreView, view: MarkdownViewView)
    requires
        holds(store, view),
        conflicts(store, content_store_address(view), shared_params()),
    ensures
        played(store, RunView::Fetching(view_key(view)), RequestView::GetView(view_key(view)))
            == (store, RunView::Ended(OutcomeView::Failed(ErrorView::KubeError(conflict())))),
{
    let key = view_key(view);
    let fetching = RunView::Fetching(key);
    let first = RunView::Reconciling(view, ReconcileStateView::SyncingContentStore);
    assert(handled(store, RequestView::GetView(key)) == (store, ResponseView::View(view)));
    assert(advanced(fetching, ResponseView::View(view)) == (
        first,
        Some(content_store_request(view)),
    ));
    assert(played(store, fetching, RequestView::GetView(key)) == played(
        store,
        first,
        content_store_request(view),
    ));
    assert(handled(store, content_store_request(view)) == (
        store,
        ResponseView::Failed(conflict()),
    ));
}

/// A replica count that no workload can carry is never written: the run
/// applies the content store and ends with an error, and the store holds
/// no more than that. Whatever workload was there stays as it is.
pub proof fn lemma_unfit_replicas_stop_run(store: StoreView, view: MarkdownViewView)
    requires
        holds(store, view),
        open_to_controller(store, content_store_address(view)),
        !replicas_fit(view.spec.replicas),
    ensures
        played(store, RunView::Fetching(view_key(view)), RequestView::GetView(view_key(view)))
            == (
            store.insert(
                content_store_address(view),
                applied_child(ObjectView::ContentStore(desired_content_store(view))),
            ),
            RunView::Ended(OutcomeView::Failed(replicas_too_large())),
        ),
{
    lemma_first_steps(store, view);
    let first = RunView::Reconciling(view, ReconcileStateView::SyncingContentStore);
    assert(advanced(first, ResponseView::Applied) == (
        RunView::Ended(OutcomeView::Failed(replicas_too_large())),
        None::<RequestView>,
    ));
}

/// A status that another manager holds is not overwritten: where the view
/// does not carry its settled status and another manager holds the status,
/// the run applies the children and ends with the store's conflict. The
/// view stays as that manager left it.
pub proof fn lemma_status_conflict_stops_run(store: StoreView, view: MarkdownViewView)
    requires
        holds(store, view),
        replicas_fit(view.spec.replicas),
        children_open(store, view),
        view.status != Some(settled_status(view)),
        status_conflicts(store, view_address(view), shared_params()),
    ensures
        played(store, RunView::Fetching(view_key(view)), RequestView::GetView(view_key(view)))
            == (
            with_children(store, view),
            RunView::Ended(OutcomeView::Failed(ErrorView::KubeError(conflict()))),
        ),
        with_children(store, view)[view_address(view)] == store[view_address(view)],
{
    lemma_whole_run(store, view);
}

/// Runs one trigger for `key` against `store`, from the fetch of the view
/// to the end of the run.
pub fn run_to_end(store: &mut MemoryStore, key: ObjectKey) -> (run: Run)
    ensures
        (final(store)@, run@) == played(
            old(store)@,
            RunView::Fetching(key@),
            RequestView::GetView(key@),
        ),
        run@ is Ended,
{
    let ghost goal = played(old(store)@, RunView::Fetching(key@), RequestView::GetView(key@));
    let (mut run, mut request) = on_trigger(key);
    loop
        invariant
            goal == played(old(store)@, RunView::Fetching(key@), RequestView::GetView(key@)),
            played(store@, run@, request@) == goal,
        decreases steps_left(run@),
    {
        let ghost before = run@;
        let ghost asked = request@;
        let ghost held = store@;
        let response = store.handle(request);
        proof {
            lemma_run_terminates(before, response@);
        }
        let (next, following) = advance(run, response);
        run = next;
        match following {
            Some(more) => {
                assert(played(held, before, asked) == played(store@, run@, more@));
                request = more;
            },
            None => {
                assert(played(held, before, asked) == (store@, run@));
                return run;
            },
        }
    }
}

} // verus!
