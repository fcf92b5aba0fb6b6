//! Driver: what happens on one trigger for one view, from the fetch of the
//! view to the decision when to look at it again.
//!
//! The host calls `on_trigger` for a key, performs the request that comes
//! back and feeds each answer of the store to `advance`, until the run has
//! ended. `on_run_ended` then closes the run: it says when the key is due
//! again and which key runs next. `on_timer_fired` takes up a key whose
//! timer went off.

use crate::apply::{
    content_store_request, refusal, refuse, request_view, Request, RequestView, Response,
    ResponseView,
};
use crate::error::{Error, ErrorView, StoreErrorKind};
use crate::markdown::{MarkdownView, MarkdownViewView};
use crate::reconciler::{reconcile, start, step, ReconcileState, ReconcileStateView};
use crate::resources::{ObjectKey, ObjectKeyView};
use crate::scheduler::{release, triggered, well_formed, Admission, Scheduler, SchedulerView};
use crate::timers::{armed_after, disarmed, fired_after, Timers, TimersView};
use vstd::prelude::*;

verus! {

/// Seconds after which a view that was reconciled is looked at again, so
/// that changes made to its children behind the controller's back are undone.
pub const RESYNC_SECS: u64 = 10;

/// Seconds after which a failed reconcile is tried again.
pub const RETRY_SECS: u64 = 5;

/// Seconds that runs in flight are given to finish once shutdown has begun.
pub const DRAIN_SECS: u64 = 30;

/// When to reconcile a view again.
#[derive(Debug, Clone, Copy, PartialEq, Eq, Structural)]
pub enum Action {
    /// After this many seconds, whether or not anything changed.
    Requeue(u64),
    /// When the view changes next.
    AwaitChange,
}

/// How a run ended.
#[derive(Debug)]
pub enum Outcome {
    /// The children were applied and the status is up to date.
    Converged,
    /// The view no longer exists. Its children go with it, by ownership.
    Gone,
    /// A step failed. Children applied before it stay as they are.
    Failed(Error),
}

/// The view of [`Outcome`]: its strings as their characters, its numbers and maps as
/// mathematical ones.
pub enum OutcomeView {
    Converged,
    Gone,
    Failed(ErrorView),
}

impl View for Outcome {
    type V = OutcomeView;

    open spec fn view(&self) -> OutcomeView {
        match self {
            Outcome::Converged => OutcomeView::Converged,
            Outcome::Gone => OutcomeView::Gone,
            Outcome::Failed(error) => OutcomeView::Failed(error@),
        }
    }
}

/// Where a run stands.
#[derive(Debug)]
pub enum Run {
    /// The view under this key was asked for.
    Fetching(ObjectKey),
    /// The view was found and is being reconciled.
    Reconciling(MarkdownView, ReconcileState),
    /// The run is over.
    Ended(Outcome),
}

/// The view of [`Run`]: its strings as their characters, its numbers and maps as
/// mathematical ones.
pub enum RunView {
    Fetching(ObjectKeyView),
    Reconciling(MarkdownViewView, ReconcileStateView),
    Ended(OutcomeView),
}

impl View for Run {
    type V = RunView;

    open spec fn view(&self) -> RunView {
        match self {
            Run::Fetching(key) => RunView::Fetching(key@),
            Run::Reconciling(view, state) => RunView::Reconciling(view@, state@),
            Run::Ended(outcome) => RunView::Ended(outcome@),
        }
    }
}

/// The run in which `view` is reconciled and has reached `state`: over once
/// the reconcile has finished.
pub open spec fn settle(view: MarkdownViewView, state: ReconcileStateView) -> RunView {
    match state {
        ReconcileStateView::Done => RunView::Ended(OutcomeView::Converged),
        ReconcileStateView::Failed(error) => RunView::Ended(OutcomeView::Failed(error)),
        _ => RunView::Reconciling(view, state),
    }
}

/// Whether the store answered that it does not hold what was asked for.
pub open spec fn is_not_found(response: ResponseView) -> bool {
    response matches ResponseView::Failed(error) && error.kind == StoreErrorKind::NotFound
}

/// The run after the answer to the fetch of a view. A view that is not
/// found was deleted, which is no failure.
pub open spec fn fetched(response: ResponseView) -> (RunView, Option<RequestView>) {
    match response {
        ResponseView::View(view) => (
            RunView::Reconciling(view, ReconcileStateView::SyncingContentStore),
            Some(content_store_request(view)),
        ),
        _ => if is_not_found(response) {
            (RunView::Ended(OutcomeView::Gone), None)
        } else {
            (RunView::Ended(OutcomeView::Failed(refusal(response))), None)
        },
    }
}

/// The run after `response`, and the request to send next.
pub open spec fn advanced(run: RunView, response: ResponseView) -> (RunView, Option<RequestView>) {
    match run {
        RunView::Fetching(_) => fetched(response),
        RunView::Reconciling(view, state) => (
            settle(view, step(view, state, response).0),
            step(view, state, response).1,
        ),
        RunView::Ended(outcome) => (RunView::Ended(outcome), None),
    }
}

/// When a view is due again after a run that ended in `outcome`.
pub open spec fn action_after(outcome: OutcomeView) -> Action {
    match outcome {
        OutcomeView::Converged => Action::Requeue(RESYNC_SECS),
        OutcomeView::Gone => Action::AwaitChange,
        OutcomeView::Failed(_) => Action::Requeue(RETRY_SECS),
    }
}

/// When a view is due again, if its run is over.
pub open spec fn action_of(run: RunView) -> Option<Action> {
    match run {
        RunView::Ended(outcome) => Some(action_after(outcome)),
        _ => None,
    }
}

/// Decides when a view is due again after a run.
///
/// A run that converged is repeated after ten seconds. A failed one is
/// tried again after five, whatever the error and however often it has
/// occurred. A view that is gone waits for its next change.
pub fn error_policy(outcome: &Outcome) -> (action: Action)
    ensures
        action == action_after(outcome@),
{
    match outcome {
        Outcome::Converged => Action::Requeue(RESYNC_SECS),
        Outcome::Gone => Action::AwaitChange,
        Outcome::Failed(_) => Action::Requeue(RETRY_SECS),
    }
}

/// Starts a run for the view under `key` by asking the store for it.
pub fn on_trigger(key: ObjectKey) -> (first: (Run, Request))
    ensures
        first.0@ == RunView::Fetching(key@),
        first.1@ == RequestView::GetView(key@),
{
    let request = Request::GetView(key.clone());
    (Run::Fetching(key), request)
}

fn settled(obj: MarkdownView, state: ReconcileState) -> (run: Run)
    ensures
        run@ == settle(obj@, state@),
{
    match state {
        ReconcileState::Done => Run::Ended(Outcome::Converged),
        ReconcileState::Failed(error) => Run::Ended(Outcome::Failed(error)),
        other => Run::Reconciling(obj, other),
    }
}

/// Takes `run` one step further on the store's answer to the request in
/// flight.
///
/// A view that is found is reconciled from its first step. A view that is
/// not found ends the run as `Gone`. The first failure ends the run as
/// `Failed`, and a run that is over stays over and asks for nothing.
pub fn advance(run: Run, response: Response) -> (next: (Run, Option<Request>))
    ensures
        (next.0@, request_view(next.1)) == advanced(run@, response@),
{
    match run {
        Run::Fetching(_) => match response {
            Response::View(obj) => {
                let (state, request) = start(&obj);
                (Run::Reconciling(obj, state), Some(request))
            },
            Response::Failed(error) => {
                if error.kind == StoreErrorKind::NotFound {
                    (Run::Ended(Outcome::Gone), None)
                } else {
                    (Run::Ended(Outcome::Failed(Error::KubeError(error))), None)
                }
            },
            other => (Run::Ended(Outcome::Failed(refuse(other))), None),
        },
        Run::Reconciling(obj, state) => {
            let (state, request) = reconcile(&obj, state, response);
            (settled(obj, state), request)
        },
        Run::Ended(outcome) => (Run::Ended(outcome), None),
    }
}

/// The timers after the run of `key` has come to `run`, and the timer that
/// the host is to start, as seconds to sleep and token to hand back. A key
/// that is due again gets a new timer in place of the one it has, a key that
/// waits for its next change loses its timer, and a run that is not over
/// changes nothing.
pub open spec fn rearmed(timers: TimersView, key: ObjectKeyView, run: RunView) -> (
    TimersView,
    Option<(u64, u64)>,
) {
    match action_of(run) {
        Some(Action::Requeue(secs)) => (
            armed_after(timers, key).0,
            Some((secs, armed_after(timers, key).1)),
        ),
        Some(Action::AwaitChange) => (disarmed(timers, key), None),
        None => (timers, None),
    }
}

/// The books after the timer with `token` went off for `key`, and what
/// became of the trigger that it stands for. A stale timer changes nothing
/// and triggers nothing.
pub open spec fn timer_fired(
    scheduler: SchedulerView,
    timers: TimersView,
    key: ObjectKeyView,
    token: u64,
) -> (SchedulerView, TimersView, Option<Admission>) {
    if fired_after(timers, key, token).1 {
        (
            triggered(scheduler, key).0,
            fired_after(timers, key, token).0,
            Some(triggered(scheduler, key).1),
        )
    } else {
        (scheduler, timers, None)
    }
}

/// Closes the run of `key`, which has come to `run`.
///
/// The policy decides when the key is due again: its timer is armed anew,
/// or disarmed where the view is gone. The key's place among the runs in
/// flight is given up, and the key that has waited longest among those that
/// are ready takes it. The result names the timer that the host is to
/// start, as seconds and token, and the key whose run it is to start.
pub fn on_run_ended(scheduler: &mut Scheduler, timers: &mut Timers, key: &ObjectKey, run: &Run) -> (next: (
    Option<(u64, u64)>,
    Option<ObjectKey>,
))
    ensures
        final(scheduler)@ == release(old(scheduler)@, key@).0,
        well_formed(final(scheduler)@),
        (final(timers)@, next.0) == rearmed(old(timers)@, key@, run@),
        match next.1 {
            Some(started) => release(old(scheduler)@, key@).1 == Some(started@),
            None => release(old(scheduler)@, key@).1 is None,
        },
{
    let timer = match next_action(run) {
        Some(Action::Requeue(secs)) => {
            let token = timers.arm(key.clone());
            Some((secs, token))
        },
        Some(Action::AwaitChange) => {
            timers.disarm(key);
            None
        },
        None => None,
    };
    let started = scheduler.complete(key);
    (timer, started)
}

/// Takes note that the timer with `token` went off for `key`.
///
/// The timer that the key has makes the key due: it is spent and the key is
/// triggered, and the result says what became of the trigger. A timer that
/// was replaced or disarmed is ignored.
pub fn on_timer_fired(scheduler: &mut Scheduler, timers: &mut Timers, key: ObjectKey, token: u64) -> (admission: Option<Admission>)
    ensures
        (final(scheduler)@, final(timers)@, admission) == timer_fired(
            old(scheduler)@,
            old(timers)@,
            key@,
            token,
        ),
{
    if timers.fire(&key, token) {
        Some(scheduler.trigger(key))
    } else {
        None
    }
}

/// Says when the view is due again, once its run is over. While the run is
/// not over there is nothing to say.
pub fn next_action(run: &Run) -> (action: Option<Action>)
    ensures
        action == action_of(run@),
{
    match run {
        Run::Ended(outcome) => Some(error_policy(outcome)),
        _ => None,
    }
}

} // verus!
