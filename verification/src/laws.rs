//! What holds of the whole: laws that relate the aggregate, the log, the
//! dispatcher and the projector, stated over their specifications.

use vstd::prelude::*;

use crate::deployment::{
    decide, evolve, initial_state, permitted, refusal, replay, CommandKind, CommandView, DeploymentState,
    EventKind, EventView, ServicesView, TaskOutcome,
};
use crate::dispatcher::{commit, execute, execute_from, loaded, ContextView, DispatcherView, ErrorView};
use crate::event_store::{appended, gapless, history, payloads, stamped, EnvelopeView};
use crate::queries::{apply_events, empty_record, project, project_all, ViewRecord};
use crate::status::Status;

verus! {

/// Replay is determined by the events alone: two histories that hold the
/// same events in the same order fold to the same state.
pub proof fn replay_is_deterministic(first: Seq<EventView>, second: Seq<EventView>)
    requires
        first.len() == second.len(),
        forall|i: int| 0 <= i < first.len() ==> first[i] == second[i],
    ensures
        replay(first) == replay(second),
{
    assert(first =~= second);
}

/// What a history folds to: the status of its last event, or `New` without
/// one, at the version that counts its events.
pub proof fn replay_closed_form(events: Seq<EventView>)
    ensures
        replay(events) == (DeploymentState {
            deployment_id: initial_state().deployment_id,
            status: if events.len() == 0 {
                Status::New
            } else {
                events.last().status
            },
            version: events.len(),
        }),
    decreases events.len(),
{
    if events.len() > 0 {
        replay_closed_form(events.drop_last());
    }
}

/// Replaying a longer history is replaying its start and applying the rest:
/// one more event is one more `evolve`.
pub proof fn replay_is_incremental(events: Seq<EventView>, next: EventView)
    ensures
        replay(events.push(next)) == evolve(replay(events), next),
{
    assert(events.push(next).drop_last() =~= events);
}

/// A command that the transition table does not permit is refused with the
/// error of its kind, whatever the services answer, and no event comes of it.
pub proof fn forbidden_command_is_refused(
    state: DeploymentState,
    command: CommandView,
    services: ServicesView,
)
    requires
        !permitted(state.status, command.kind),
    ensures
        decide(state, command, services) == Err::<Seq<EventView>, Seq<char>>(refusal(command.kind)),
{
}

/// A dispatcher that executes a command which the aggregate's history does
/// not permit reports the refusal and keeps its log and its views as they
/// were.
pub proof fn forbidden_command_changes_nothing(
    system: DispatcherView,
    aggregate_id: Seq<char>,
    command: CommandView,
    timestamp: nat,
)
    requires
        !permitted(loaded(system, aggregate_id).aggregate.status, command.kind),
    ensures
        execute(system, aggregate_id, command, timestamp) == (
            system,
            Err::<(), ErrorView>(ErrorView::Domain(refusal(command.kind))),
        ),
{
}

/// An accepted command yields exactly one event, for the deployment that
/// the command names, and only where the transition table permits it.
pub proof fn accepted_command_yields_one_event(
    state: DeploymentState,
    command: CommandView,
    services: ServicesView,
)
    requires
        decide(state, command, services) is Ok,
    ensures
        permitted(state.status, command.kind),
        decide(state, command, services)->Ok_0.len() == 1,
        decide(state, command, services)->Ok_0[0].deployment_id == command.deployment_id,
{
}

/// Processing a validated deployment has exactly one outcome: one event,
/// which is `Deployed` or `DeploymentCanceled` and never both; which of the
/// two is decided by the task alone.
pub proof fn processing_has_one_outcome(
    state: DeploymentState,
    command: CommandView,
    services: ServicesView,
)
    requires
        state.status == Status::Validated,
        command.kind == CommandKind::Process,
    ensures
        decide(state, command, services) is Ok,
        decide(state, command, services)->Ok_0.len() == 1,
        ({
            let event = decide(state, command, services)->Ok_0[0];
            let deployed = event.kind == EventKind::Deployed && event.status == Status::Deployed;
            let cancelled = event.kind == EventKind::Canceled && event.status == Status::Cancelled;
            &&& deployed != cancelled
            &&& deployed == (services.task == TaskOutcome::Succeeded)
        }),
{
}

/// The events committed on top of a gapless history leave it gapless.
pub proof fn append_keeps_histories_gapless(
    log: Map<Seq<char>, Seq<EnvelopeView>>,
    aggregate_id: Seq<char>,
    events: Seq<EventView>,
    timestamp: nat,
)
    requires
        gapless(aggregate_id, history(log, aggregate_id)),
    ensures
        gapless(aggregate_id, history(appended(log, aggregate_id, events, timestamp), aggregate_id)),
        payloads(history(appended(log, aggregate_id, events, timestamp), aggregate_id)) == payloads(
            history(log, aggregate_id),
        ) + events,
{
    let before = history(log, aggregate_id);
    let after = history(appended(log, aggregate_id, events, timestamp), aggregate_id);
    if events.len() > 0 {
        assert(after =~= before + stamped(aggregate_id, before.len(), events, timestamp));
    }
    assert(payloads(after) =~= payloads(before) + events);
}

/// Optimistic concurrency: of two submissions for a fresh aggregate that
/// both loaded it before either committed, the one that commits first
/// succeeds and the other is rejected: by the aggregate once it retries on
/// the fresh history, or for contention where no retry is allowed. The log
/// ends with one `DeploymentSubmited` event, not two. The same holds where
/// the second submission only starts after the first has committed.
pub proof fn concurrent_submissions_commit_once(
    system: DispatcherView,
    aggregate_id: Seq<char>,
    first: CommandView,
    second: CommandView,
    first_time: nat,
    second_time: nat,
)
    requires
        first.kind == CommandKind::Submit,
        second.kind == CommandKind::Submit,
        history(system.log, aggregate_id).len() == 0,
    ensures
        ({
            let context = loaded(system, aggregate_id);
            let (after_first, first_result) = execute_from(system, context, first, first_time);
            let (after_second, second_result) = execute_from(after_first, context, second, second_time);
            let rejected = Err::<(), ErrorView>(ErrorView::Domain(refusal(CommandKind::Submit)));
            &&& first_result is Ok
            &&& second_result == if system.max_retries == 0 {
                Err::<(), ErrorView>(ErrorView::Contention)
            } else {
                rejected
            }
            &&& after_second == after_first
            &&& execute(after_first, aggregate_id, second, second_time) == (after_first, rejected)
            &&& history(after_first.log, aggregate_id).len() == 1
            &&& history(after_first.log, aggregate_id)[0].sequence == 1
            &&& history(after_first.log, aggregate_id)[0].payload == (EventView {
                kind: EventKind::Submitted,
                deployment_id: first.deployment_id,
                status: Status::Submitted,
            })
        }),
{
    let context = loaded(system, aggregate_id);
    let before = history(system.log, aggregate_id);
    assert(payloads(before) =~= Seq::<EventView>::empty());
    assert(context.aggregate == initial_state());
    let submitted = EventView {
        kind: EventKind::Submitted,
        deployment_id: first.deployment_id,
        status: Status::Submitted,
    };
    assert(decide(context.aggregate, first, system.services) == Ok::<Seq<EventView>, Seq<char>>(
        seq![submitted],
    ));
    let (after_first, first_result) = execute_from(system, context, first, first_time);
    let now = history(after_first.log, aggregate_id);
    assert(now =~= before + stamped(aggregate_id, 0, seq![submitted], first_time));
    assert(now.len() == 1);
    assert(payloads(now) =~= seq![submitted]);
    replay_closed_form(payloads(now));
    assert(loaded(after_first, aggregate_id).aggregate.status == Status::Submitted);
}

/// Projection is idempotent: a record that has taken an event is not
/// changed by taking the same event again.
pub proof fn projection_is_idempotent(record: ViewRecord, event: EnvelopeView)
    ensures
        project(project(record, event), event) == project(record, event),
{
}

/// A batch of events leaves the record that its last event alone leaves.
pub proof fn last_event_wins(record: ViewRecord, events: Seq<EnvelopeView>)
    requires
        events.len() > 0,
    ensures
        project_all(record, events) == project(record, events.last()),
{
}

/// Redelivery is harmless: projecting a committed batch a second time
/// leaves every view record as the first time left it.
pub proof fn redelivery_changes_nothing(
    views: Map<Seq<char>, ViewRecord>,
    aggregate_id: Seq<char>,
    events: Seq<EnvelopeView>,
)
    ensures
        apply_events(apply_events(views, aggregate_id, events), aggregate_id, events) == apply_events(
            views,
            aggregate_id,
            events,
        ),
{
    let once = apply_events(views, aggregate_id, events);
    if events.len() > 0 {
        last_event_wins(once[aggregate_id], events);
        let current = if views.contains_key(aggregate_id) {
            views[aggregate_id]
        } else {
            empty_record()
        };
        last_event_wins(current, events);
    }
    assert(apply_events(once, aggregate_id, events) =~= once);
}

/// The views are in step with the log: an aggregate has a view record
/// exactly when it has a history, and the record shows what the last
/// committed event says.
pub open spec fn in_step(system: DispatcherView) -> bool {
    forall|aggregate_id: Seq<char>|
        {
            let committed = #[trigger] history(system.log, aggregate_id);
            if committed.len() == 0 {
                !system.views.contains_key(aggregate_id)
            } else {
                system.views.contains_key(aggregate_id) && system.views[aggregate_id] == project(
                    empty_record(),
                    committed.last(),
                )
            }
        }
}

/// A dispatcher without history is in step.
pub proof fn fresh_dispatcher_is_in_step(services: ServicesView, max_retries: nat)
    ensures
        in_step(
            DispatcherView { log: Map::empty(), views: Map::empty(), services, max_retries },
        ),
{
}

/// Every execution, from a fresh context or a stale one, accepted or
/// refused, leaves the views in step with the log.
pub proof fn execution_keeps_views_in_step(
    system: DispatcherView,
    context: ContextView,
    command: CommandView,
    timestamp: nat,
)
    requires
        in_step(system),
    ensures
        in_step(execute_from(system, context, command, timestamp).0),
        in_step(execute(system, context.aggregate_id, command, timestamp).0),
{
    let target = context.aggregate_id;
    assert forall|events: Seq<EventView>| events.len() > 0 implies in_step(
        #[trigger] commit(system, target, events, timestamp),
    ) by {
        let after = commit(system, target, events, timestamp);
        let before = history(system.log, target);
        let fresh = stamped(target, before.len(), events, timestamp);
        assert forall|aggregate_id: Seq<char>|
            {
                let committed = #[trigger] history(after.log, aggregate_id);
                if committed.len() == 0 {
                    !after.views.contains_key(aggregate_id)
                } else {
                    after.views.contains_key(aggregate_id) && after.views[aggregate_id] == project(
                        empty_record(),
                        committed.last(),
                    )
                }
            } by {
            if aggregate_id == target {
                assert(history(after.log, target) =~= before + fresh);
                assert((before + fresh).last() == fresh.last());
            } else {
                assert(history(after.log, aggregate_id) == history(system.log, aggregate_id));
            }
        }
    }
}

} // verus!
