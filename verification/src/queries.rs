//! The read side: the view record, its repository and the projector that
//! keeps it in step with committed events.

use vstd::hash_map::StringHashMap;
use vstd::prelude::*;
use vstd::string::StringExecFns;

use crate::event_store::{EnvelopeView, EventEnvelope};

verus! {

/// What readers are shown of a deployment. Both fields are empty until the
/// first event has been projected.
#[derive(Debug, PartialEq, Eq)]
pub struct DeploymentView {
    pub deployment_id: Option<String>,
    pub status: Option<String>,
}

/// A view record as contracts see it.
pub struct ViewRecord {
    pub deployment_id: Option<Seq<char>>,
    pub status: Option<Seq<char>>,
}

/// A field of a view record as contracts see it.
pub open spec fn field_view(field: Option<String>) -> Option<Seq<char>> {
    match field {
        Some(text) => Some(text@),
        None => None,
    }
}

impl View for DeploymentView {
    type V = ViewRecord;

    open spec fn view(&self) -> ViewRecord {
        ViewRecord {
            deployment_id: field_view(self.deployment_id),
            status: field_view(self.status),
        }
    }
}

/// The record of a deployment of which nothing has been projected.
pub open spec fn empty_record() -> ViewRecord {
    ViewRecord { deployment_id: None, status: None }
}

/// The record after one event: the event overwrites both fields with the
/// deployment's id and the text of the status it results in.
pub open spec fn project(record: ViewRecord, event: EnvelopeView) -> ViewRecord {
    ViewRecord {
        deployment_id: Some(event.payload.deployment_id),
        status: Some(event.payload.status.label()),
    }
}

/// The record after a batch of events, projected oldest first.
pub open spec fn project_all(record: ViewRecord, events: Seq<EnvelopeView>) -> ViewRecord
    decreases events.len(),
{
    if events.len() == 0 {
        record
    } else {
        project(project_all(record, events.drop_last()), events.last())
    }
}

impl Default for DeploymentView {
    fn default() -> (view: Self)
        ensures
            view@ == empty_record(),
    {
        DeploymentView { deployment_id: None, status: None }
    }
}

impl Clone for DeploymentView {
    fn clone(&self) -> (copy: Self)
        ensures
            copy@ == self@,
    {
        DeploymentView {
            deployment_id: match &self.deployment_id {
                Some(text) => Some(text.clone()),
                None => None,
            },
            status: match &self.status {
                Some(text) => Some(text.clone()),
                None => None,
            },
        }
    }
}

impl DeploymentView {
    /// Folds a committed event into the record.
    pub fn update(&mut self, event: &EventEnvelope)
        ensures
            final(self)@ == project(old(self)@, event@),
    {
        self.deployment_id = Some(event.payload.deployment_id().clone());
        self.status = Some(event.payload.status().as_str().to_owned());
    }
}

/// Keeps the view records, one per aggregate id. Its view maps each id that
/// has a record to it.
pub struct ViewRepository {
    views: StringHashMap<DeploymentView>,
}

impl View for ViewRepository {
    type V = Map<Seq<char>, ViewRecord>;

    closed spec fn view(&self) -> Map<Seq<char>, ViewRecord> {
        Map::new(
            |view_id: Seq<char>| self.views@.contains_key(view_id),
            |view_id: Seq<char>| self.views@[view_id]@,
        )
    }
}

impl ViewRepository {
    pub fn new() -> (repository: Self)
        ensures
            repository@ == Map::<Seq<char>, ViewRecord>::empty(),
    {
        let repository = ViewRepository { views: StringHashMap::new() };
        assert(repository@ =~= Map::<Seq<char>, ViewRecord>::empty());
        repository
    }

    /// The record kept under an id; none where nothing was projected yet.
    pub fn load(&self, view_id: &str) -> (found: Option<DeploymentView>)
        ensures
            match found {
                Some(view) => self@.contains_key(view_id@) && view@ == self@[view_id@],
                None => !self@.contains_key(view_id@),
            },
    {
        match self.views.get(view_id) {
            Some(view) => Some(view.clone()),
            None => None,
        }
    }

    /// Puts a record under an id, in place of the one that was there.
    pub fn update_view(&mut self, view_id: &str, view: DeploymentView)
        ensures
            final(self)@ == old(self)@.insert(view_id@, view@),
    {
        self.views.insert(view_id.to_owned(), view);
        assert(self@ =~= old(self)@.insert(view_id@, view@));
    }
}

/// The view records after a batch of events of one aggregate was projected:
/// the aggregate's record, or the empty one where it had none, takes the
/// events in order and is put back; no other record changes.
pub open spec fn apply_events(
    views: Map<Seq<char>, ViewRecord>,
    aggregate_id: Seq<char>,
    events: Seq<EnvelopeView>,
) -> Map<Seq<char>, ViewRecord> {
    let current = if views.contains_key(aggregate_id) {
        views[aggregate_id]
    } else {
        empty_record()
    };
    views.insert(aggregate_id, project_all(current, events))
}

/// The projector of the deployment view. Its view is that of its repository.
pub struct DeploymentQuery {
    repository: ViewRepository,
}

impl View for DeploymentQuery {
    type V = Map<Seq<char>, ViewRecord>;

    closed spec fn view(&self) -> Map<Seq<char>, ViewRecord> {
        self.repository@
    }
}

impl DeploymentQuery {
    pub fn new(repository: ViewRepository) -> (query: Self)
        ensures
            query@ == repository@,
    {
        DeploymentQuery { repository }
    }

    /// Projects the events that were committed for an aggregate.
    pub fn dispatch(&mut self, aggregate_id: &str, events: &Vec<EventEnvelope>)
        ensures
            final(self)@ == apply_events(old(self)@, aggregate_id@, events.deep_view()),
    {
        let mut view = match self.repository.load(aggregate_id) {
            Some(view) => view,
            None => DeploymentView::default(),
        };
        let ghost current = view@;
        let mut at: usize = 0;
        while at < events.len()
            invariant
                at <= events.len(),
                view@ == project_all(current, events.deep_view().take(at as int)),
            decreases events.len() - at,
        {
            view.update(&events[at]);
            proof {
                let before = events.deep_view().take(at as int);
                let after = events.deep_view().take(at + 1);
                assert(after.drop_last() =~= before);
                assert(after.last() == events[at as int]@);
            }
            at = at + 1;
        }
        assert(events.deep_view().take(at as int) =~= events.deep_view());
        self.repository.update_view(aggregate_id, view);
    }

    /// The record that readers get for an aggregate, if it has one.
    pub fn load(&self, view_id: &str) -> (found: Option<DeploymentView>)
        ensures
            match found {
                Some(view) => self@.contains_key(view_id@) && view@ == self@[view_id@],
                None => !self@.contains_key(view_id@),
            },
    {
        self.repository.load(view_id)
    }
}

/// The status text of the last event of a batch; `unknown` for an empty one.
pub open spec fn latest_status(events: Seq<EnvelopeView>) -> Seq<char> {
    if events.len() == 0 {
        "unknown"@
    } else {
        events.last().payload.status.label()
    }
}

/// The line that reports the current status of a deployment.
pub open spec fn status_line(aggregate_id: Seq<char>, status: Seq<char>) -> Seq<char> {
    "Statut actuel du déploiement pour "@ + aggregate_id + " : "@ + status
}

/// Reports the status that a batch of events leaves a deployment in.
#[derive(Debug, Clone, Copy)]
pub struct DeploymentStatusQuery {}

impl DeploymentStatusQuery {
    /// The report line for a batch of events of one aggregate.
    pub fn dispatch(&self, aggregate_id: &str, events: &Vec<EventEnvelope>) -> (line: String)
        ensures
            line@ == status_line(aggregate_id@, latest_status(events.deep_view())),
    {
        let mut status = "unknown".to_owned();
        let mut at: usize = 0;
        while at < events.len()
            invariant
                at <= events.len(),
                status@ == latest_status(events.deep_view().take(at as int)),
            decreases events.len() - at,
        {
            status = events[at].payload.status().as_str().to_owned();
            proof {
                let after = events.deep_view().take(at + 1);
                assert(after.last() == events[at as int]@);
            }
            at = at + 1;
        }
        assert(events.deep_view().take(at as int) =~= events.deep_view());
        "Statut actuel du déploiement pour ".to_owned().concat(aggregate_id).concat(" : ").concat(
            status.as_str(),
        )
    }
}

} // verus!
