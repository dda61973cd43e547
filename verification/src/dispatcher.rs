//! The command dispatcher: load, rehydrate, decide, append, project.

use vstd::prelude::*;

use crate::deployment::{
    decide, replay, CommandView, Deployment, DeploymentCommand, DeploymentError, DeploymentServices,
    DeploymentState, EventView, ServicesView,
};
use crate::event_store::{appended, gapless, history, payloads, stamped, EnvelopeView, EventStore};
use crate::queries::{apply_events, DeploymentQuery, ViewRecord, ViewRepository};

verus! {

/// Why a command did not go through.
#[derive(Debug, PartialEq, Eq)]
pub enum ExecuteError {
    /// The aggregate refused the command, or a service failed it. Nothing
    /// was recorded, and trying again without new information cannot help.
    Domain(DeploymentError),
    /// Other writers kept advancing the aggregate until the retries ran out.
    Contention,
}

/// An execution error as contracts see it.
pub enum ErrorView {
    Domain(Seq<char>),
    Contention,
}

impl View for ExecuteError {
    type V = ErrorView;

    open spec fn view(&self) -> ErrorView {
        match *self {
            ExecuteError::Domain(error) => ErrorView::Domain(error@),
            ExecuteError::Contention => ErrorView::Contention,
        }
    }
}

/// What `execute` returns, as contracts see it.
pub open spec fn result_view(result: Result<(), ExecuteError>) -> Result<(), ErrorView> {
    match result {
        Ok(()) => Ok(()),
        Err(error) => Err(error@),
    }
}

/// The retries that a dispatcher grants a command unless told otherwise.
pub const DEFAULT_RETRIES: u32 = 3;

/// The retries that a command has left. Every conflict spends one; a
/// conflict that finds none left ends the command.
#[derive(Debug, PartialEq, Eq)]
pub struct RetryBudget {
    left: u32,
}

impl View for RetryBudget {
    type V = nat;

    closed spec fn view(&self) -> nat {
        self.left as nat
    }
}

impl RetryBudget {
    pub fn new(max_retries: u32) -> (budget: Self)
        ensures
            budget@ == max_retries,
    {
        RetryBudget { left: max_retries }
    }

    /// Asks for one more attempt after a conflict. It is granted while
    /// retries are left, and then costs one.
    pub fn spend(&mut self) -> (granted: bool)
        ensures
            granted == (old(self)@ > 0),
            final(self)@ == if granted {
                old(self)@ - 1
            } else {
                0
            },
    {
        if self.left > 0 {
            self.left = self.left - 1;
            true
        } else {
            false
        }
    }
}

/// An aggregate as it was when its history was loaded. The state's version
/// is the number of events that were folded into it.
#[derive(Debug, PartialEq, Eq)]
pub struct AggregateContext {
    aggregate_id: String,
    aggregate: Deployment,
}

/// A context as contracts see it.
pub struct ContextView {
    pub aggregate_id: Seq<char>,
    pub aggregate: DeploymentState,
}

impl View for AggregateContext {
    type V = ContextView;

    closed spec fn view(&self) -> ContextView {
        ContextView { aggregate_id: self.aggregate_id@, aggregate: self.aggregate@ }
    }
}

impl AggregateContext {
    pub fn aggregate_id(&self) -> (id: &String)
        ensures
            id@ == self@.aggregate_id,
    {
        &self.aggregate_id
    }

    pub fn aggregate(&self) -> (aggregate: &Deployment)
        ensures
            aggregate@ == self@.aggregate,
    {
        &self.aggregate
    }
}

/// The event log, the view records and the settings of a dispatcher.
#[verifier::ext_equal]
pub struct DispatcherView {
    pub log: Map<Seq<char>, Seq<EnvelopeView>>,
    pub views: Map<Seq<char>, ViewRecord>,
    pub services: ServicesView,
    pub max_retries: nat,
}

/// The state that a committed history rehydrates to.
pub open spec fn rehydrate(history: Seq<EnvelopeView>) -> DeploymentState {
    replay(payloads(history))
}

/// The context that loading an aggregate gives.
pub open spec fn loaded(system: DispatcherView, aggregate_id: Seq<char>) -> ContextView {
    ContextView { aggregate_id, aggregate: rehydrate(history(system.log, aggregate_id)) }
}

/// The system after `events` were committed for an aggregate and projected:
/// they follow the aggregate's history in the log, and the aggregate's view
/// record has taken them. Without events nothing changes.
pub open spec fn commit(
    system: DispatcherView,
    aggregate_id: Seq<char>,
    events: Seq<EventView>,
    timestamp: nat,
) -> DispatcherView {
    if events.len() == 0 {
        system
    } else {
        let version = history(system.log, aggregate_id).len();
        DispatcherView {
            log: appended(system.log, aggregate_id, events, timestamp),
            views: apply_events(
                system.views,
                aggregate_id,
                stamped(aggregate_id, version, events, timestamp),
            ),
            services: system.services,
            max_retries: system.max_retries,
        }
    }
}

/// A command executed against the aggregate's history as it stands: a
/// refused command changes nothing, the events of an accepted one are
/// committed and projected.
pub open spec fn execute(
    system: DispatcherView,
    aggregate_id: Seq<char>,
    command: CommandView,
    timestamp: nat,
) -> (DispatcherView, Result<(), ErrorView>) {
    match decide(rehydrate(history(system.log, aggregate_id)), command, system.services) {
        Ok(events) => (commit(system, aggregate_id, events, timestamp), Ok(())),
        Err(message) => (system, Err(ErrorView::Domain(message))),
    }
}

/// A command executed from a context that was loaded earlier.
///
/// The command is decided on the context's state. Its events are committed
/// if the history still has the context's version. If it has moved on, the
/// conflict costs one retry, which loads afresh and so cannot conflict
/// again; without retries the command fails with `Contention`.
pub open spec fn execute_from(
    system: DispatcherView,
    context: ContextView,
    command: CommandView,
    timestamp: nat,
) -> (DispatcherView, Result<(), ErrorView>) {
    match decide(context.aggregate, command, system.services) {
        Ok(events) => {
            if context.aggregate.version == history(system.log, context.aggregate_id).len() {
                (commit(system, context.aggregate_id, events, timestamp), Ok(()))
            } else if system.max_retries == 0 {
                (system, Err(ErrorView::Contention))
            } else {
                execute(system, context.aggregate_id, command, timestamp)
            }
        },
        Err(message) => (system, Err(ErrorView::Domain(message))),
    }
}

/// The version of a replayed state is the length of the history.
pub proof fn replay_counts_events(events: Seq<EventView>)
    ensures
        replay(events).version == events.len(),
    decreases events.len(),
{
    if events.len() > 0 {
        replay_counts_events(events.drop_last());
    }
}

/// Executes commands against an in-memory event store and keeps the
/// deployment view in step with what was committed.
pub struct Dispatcher {
    store: EventStore,
    query: DeploymentQuery,
    services: DeploymentServices,
    max_retries: u32,
}

impl View for Dispatcher {
    type V = DispatcherView;

    closed spec fn view(&self) -> DispatcherView {
        DispatcherView {
            log: self.store@,
            views: self.query@,
            services: self.services@,
            max_retries: self.max_retries as nat,
        }
    }
}

impl Dispatcher {
    /// A dispatcher with an empty log and no view record, which retries a
    /// conflicting command up to `max_retries` times.
    pub fn new(services: DeploymentServices, max_retries: u32) -> (dispatcher: Self)
        ensures
            dispatcher@ == (DispatcherView {
                log: Map::<Seq<char>, Seq<EnvelopeView>>::empty(),
                views: Map::<Seq<char>, ViewRecord>::empty(),
                services: services@,
                max_retries: max_retries as nat,
            }),
    {
        Dispatcher {
            store: EventStore::new(),
            query: DeploymentQuery::new(ViewRepository::new()),
            services,
            max_retries,
        }
    }

    /// In every dispatcher, every committed history is gapless.
    pub proof fn histories_are_gapless(self, aggregate_id: Seq<char>)
        ensures
            gapless(aggregate_id, history(self@.log, aggregate_id)),
    {
        self.store.histories_are_gapless(aggregate_id);
    }

    /// The event store, for reading.
    pub fn store(&self) -> (store: &EventStore)
        ensures
            store@ == self@.log,
    {
        &self.store
    }

    /// The projector of the deployment view, for reading.
    pub fn query(&self) -> (query: &DeploymentQuery)
        ensures
            query@ == self@.views,
    {
        &self.query
    }

    /// Loads an aggregate: replays its committed history from the initial
    /// state.
    pub fn load_aggregate(&self, aggregate_id: &str) -> (context: AggregateContext)
        ensures
            context@ == loaded(self@, aggregate_id@),
    {
        let history = self.store.load(aggregate_id);
        let mut aggregate = Deployment::default();
        let mut at: usize = 0;
        while at < history.len()
            invariant
                at <= history.len(),
                aggregate@ == replay(payloads(history.deep_view()).take(at as int)),
                aggregate@.version == at,
            decreases history.len() - at,
        {
            aggregate.apply(history[at].payload.clone());
            proof {
                let before = payloads(history.deep_view()).take(at as int);
                let after = payloads(history.deep_view()).take(at + 1);
                assert(after.drop_last() =~= before);
                assert(after.last() == history[at as int]@.payload);
            }
            at = at + 1;
        }
        assert(payloads(history.deep_view()).take(at as int) =~= payloads(history.deep_view()));
        AggregateContext { aggregate_id: aggregate_id.to_owned(), aggregate }
    }

    /// Executes a command from a context that was loaded earlier, possibly
    /// before other commands were committed for the same aggregate.
    pub fn execute_from(
        &mut self,
        context: AggregateContext,
        command: DeploymentCommand,
        timestamp: u64,
    ) -> (result: Result<(), ExecuteError>)
        ensures
            final(self)@ == execute_from(old(self)@, context@, command@, timestamp as nat).0,
            result_view(result) == execute_from(old(self)@, context@, command@, timestamp as nat).1,
    {
        let ghost given = context@;
        let mut current = context;
        let mut budget = RetryBudget::new(self.max_retries);
        loop
            invariant
                given == context@,
                self@ == old(self)@,
                current@.aggregate_id == given.aggregate_id,
                budget@ <= self.max_retries,
                budget@ == self.max_retries ==> current@ == given,
                budget@ < self.max_retries ==> current@ == loaded(self@, given.aggregate_id),
                budget@ < self.max_retries ==> given.aggregate.version != history(
                    self@.log,
                    given.aggregate_id,
                ).len(),
                budget@ < self.max_retries ==> decide(given.aggregate, command@, self@.services) is Ok,
            decreases budget@,
        {
            proof {
                replay_counts_events(payloads(history(self@.log, given.aggregate_id)));
            }
            let events = match current.aggregate.handle(command.clone(), &self.services) {
                Ok(events) => events,
                Err(error) => {
                    return Err(ExecuteError::Domain(error));
                },
            };
            let expected_version = current.aggregate.version;
            let ghost decided = events.deep_view();
            match self.store.append(current.aggregate_id.as_str(), expected_version, events, timestamp) {
                Ok(_) => {
                    let committed = self.store.load_after(
                        current.aggregate_id.as_str(),
                        expected_version,
                    );
                    proof {
                        let before = history(old(self)@.log, given.aggregate_id);
                        let fresh = stamped(
                            given.aggregate_id,
                            before.len(),
                            decided,
                            timestamp as nat,
                        );
                        assert(history(self@.log, given.aggregate_id) =~= before + fresh);
                        assert((before + fresh).skip(before.len() as int) =~= fresh);
                        assert(committed.len() == decided.len());
                    }
                    if committed.len() > 0 {
                        self.query.dispatch(current.aggregate_id.as_str(), &committed);
                    }
                    return Ok(());
                },
                Err(_) => {
                    if !budget.spend() {
                        return Err(ExecuteError::Contention);
                    }
                    current = self.load_aggregate(current.aggregate_id.as_str());
                },
            }
        }
    }

    /// Executes a command: loads the aggregate, lets it decide, commits the
    /// events and projects them.
    pub fn execute(&mut self, aggregate_id: &str, command: DeploymentCommand, timestamp: u64) -> (result:
        Result<(), ExecuteError>)
        ensures
            final(self)@ == execute(old(self)@, aggregate_id@, command@, timestamp as nat).0,
            result_view(result) == execute(old(self)@, aggregate_id@, command@, timestamp as nat).1,
    {
        let context = self.load_aggregate(aggregate_id);
        proof {
            replay_counts_events(payloads(history(self@.log, aggregate_id@)));
        }
        self.execute_from(context, command, timestamp)
    }
}

} // verus!
