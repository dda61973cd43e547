//! The append-only event log, one ordered history per aggregate.

use vstd::hash_map::StringHashMap;
use vstd::prelude::*;

use crate::deployment::{DeploymentEvent, EventView};

verus! {

/// A committed event with what the store assigned to it.
#[derive(Debug, PartialEq, Eq)]
pub struct EventEnvelope {
    pub aggregate_id: String,
    /// The position of the event in its aggregate's history, from 1 on.
    pub sequence: u64,
    pub payload: DeploymentEvent,
    /// When the event was committed, on the committer's clock.
    pub timestamp: u64,
}

/// An envelope as contracts see it.
pub struct EnvelopeView {
    pub aggregate_id: Seq<char>,
    pub sequence: nat,
    pub payload: EventView,
    pub timestamp: nat,
}

impl View for EventEnvelope {
    type V = EnvelopeView;

    open spec fn view(&self) -> EnvelopeView {
        EnvelopeView {
            aggregate_id: self.aggregate_id@,
            sequence: self.sequence as nat,
            payload: self.payload@,
            timestamp: self.timestamp as nat,
        }
    }
}

impl DeepView for EventEnvelope {
    type V = EnvelopeView;

    open spec fn deep_view(&self) -> EnvelopeView {
        self@
    }
}

impl Clone for EventEnvelope {
    fn clone(&self) -> (copy: Self)
        ensures
            copy@ == self@,
    {
        EventEnvelope {
            aggregate_id: self.aggregate_id.clone(),
            sequence: self.sequence,
            payload: self.payload.clone(),
            timestamp: self.timestamp,
        }
    }
}

impl EventEnvelope {
    /// The name under which the payload's kind is recorded.
    pub fn event_type(&self) -> (name: String)
        ensures
            name@ == crate::deployment::event_type_name(self@.payload.kind),
    {
        self.payload.event_type()
    }

    /// The version of the payload's schema.
    pub fn event_version(&self) -> (version: String)
        ensures
            version@ == "1.0"@,
    {
        self.payload.event_version()
    }
}

/// The payloads of a history, in order.
pub open spec fn payloads(history: Seq<EnvelopeView>) -> Seq<EventView> {
    Seq::new(history.len(), |i: int| history[i].payload)
}

/// The envelopes that events get when they are committed on top of
/// `version` events: consecutive sequence numbers from `version + 1` on.
pub open spec fn stamped(
    aggregate_id: Seq<char>,
    version: nat,
    events: Seq<EventView>,
    timestamp: nat,
) -> Seq<EnvelopeView> {
    Seq::new(
        events.len(),
        |i: int|
            EnvelopeView {
                aggregate_id,
                sequence: (version + i + 1) as nat,
                payload: events[i],
                timestamp,
            },
    )
}

/// The log after `events` were committed for an aggregate: they follow its
/// history, stamped with the next sequence numbers. No other history
/// changes, and without events the log stays as it is.
pub open spec fn appended(
    log: Map<Seq<char>, Seq<EnvelopeView>>,
    aggregate_id: Seq<char>,
    events: Seq<EventView>,
    timestamp: nat,
) -> Map<Seq<char>, Seq<EnvelopeView>> {
    if events.len() == 0 {
        log
    } else {
        let before = history(log, aggregate_id);
        log.insert(aggregate_id, before + stamped(aggregate_id, before.len(), events, timestamp))
    }
}

/// A history is gapless: its `i`-th event has sequence number `i + 1`, and
/// all of it belongs to one aggregate.
pub open spec fn gapless(aggregate_id: Seq<char>, history: Seq<EnvelopeView>) -> bool {
    forall|i: int|
        0 <= i < history.len() ==> (#[trigger] history[i]).sequence == i + 1
            && history[i].aggregate_id == aggregate_id
}

/// An append was refused: the history had moved on from the expected version.
#[derive(Debug, PartialEq, Eq)]
pub struct ConcurrencyError {
    pub aggregate_id: String,
    pub expected_version: u64,
    pub actual_version: u64,
}

/// What the store keeps of an event; the rest of the envelope follows from
/// the event's place in its history.
struct Committed {
    payload: DeploymentEvent,
    timestamp: u64,
}

impl Committed {
    fn duplicate(&self) -> (copy: Self)
        ensures
            copy.payload@ == self.payload@,
            copy.timestamp == self.timestamp,
    {
        Committed { payload: self.payload.clone(), timestamp: self.timestamp }
    }
}

/// The envelopes of what is kept for one aggregate.
spec fn envelopes(aggregate_id: Seq<char>, kept: Seq<Committed>) -> Seq<EnvelopeView> {
    Seq::new(
        kept.len(),
        |i: int|
            EnvelopeView {
                aggregate_id,
                sequence: (i + 1) as nat,
                payload: kept[i].payload@,
                timestamp: kept[i].timestamp as nat,
            },
    )
}

/// The committed history of an aggregate in a log: the empty one for an id
/// that the log does not hold.
pub open spec fn history(log: Map<Seq<char>, Seq<EnvelopeView>>, aggregate_id: Seq<char>) -> Seq<
    EnvelopeView,
> {
    if log.contains_key(aggregate_id) {
        log[aggregate_id]
    } else {
        Seq::empty()
    }
}

/// An in-memory event store. Its view maps the id of every aggregate that
/// was written to to its committed history.
pub struct EventStore {
    streams: StringHashMap<Vec<Committed>>,
}

impl View for EventStore {
    type V = Map<Seq<char>, Seq<EnvelopeView>>;

    closed spec fn view(&self) -> Map<Seq<char>, Seq<EnvelopeView>> {
        Map::new(
            |aggregate_id: Seq<char>| self.streams@.contains_key(aggregate_id),
            |aggregate_id: Seq<char>| envelopes(aggregate_id, self.streams@[aggregate_id]@),
        )
    }
}

impl EventStore {
    pub fn new() -> (store: Self)
        ensures
            store@ == Map::<Seq<char>, Seq<EnvelopeView>>::empty(),
    {
        let store = EventStore { streams: StringHashMap::new() };
        assert(store@ =~= Map::<Seq<char>, Seq<EnvelopeView>>::empty());
        store
    }

    /// In every store, every history is gapless.
    pub proof fn histories_are_gapless(self, aggregate_id: Seq<char>)
        ensures
            gapless(aggregate_id, history(self@, aggregate_id)),
    {
    }

    /// The number of events committed for an aggregate.
    pub fn version(&self, aggregate_id: &str) -> (version: u64)
        ensures
            version == history(self@, aggregate_id@).len(),
    {
        match self.streams.get(aggregate_id) {
            Some(kept) => kept.len() as u64,
            None => 0,
        }
    }

    /// The committed history of an aggregate past its first `version`
    /// events, oldest first; all of it for `version` 0, and nothing where
    /// the history is no longer than `version`.
    pub fn load_after(&self, aggregate_id: &str, version: u64) -> (found: Vec<EventEnvelope>)
        ensures
            version <= history(self@, aggregate_id@).len() ==> found.deep_view() == history(
                self@,
                aggregate_id@,
            ).skip(version as int),
            version > history(self@, aggregate_id@).len() ==> found.deep_view() == Seq::<
                EnvelopeView,
            >::empty(),
    {
        let mut found: Vec<EventEnvelope> = Vec::new();
        match self.streams.get(aggregate_id) {
            Some(kept) => {
                if version as u128 > kept.len() as u128 {
                    assert(found.deep_view() =~= Seq::<EnvelopeView>::empty());
                    return found;
                }
                let start = version as usize;
                let mut at: usize = start;
                while at < kept.len()
                    invariant
                        start <= at <= kept.len(),
                        found.len() == at - start,
                        forall|i: int|
                            0 <= i < found.len() ==> (#[trigger] found[i])@ == envelopes(
                                aggregate_id@,
                                kept@,
                            )[start + i],
                    decreases kept.len() - at,
                {
                    found.push(
                        EventEnvelope {
                            aggregate_id: aggregate_id.to_owned(),
                            sequence: (at + 1) as u64,
                            payload: kept[at].payload.clone(),
                            timestamp: kept[at].timestamp,
                        },
                    );
                    at = at + 1;
                }
                assert(found.deep_view() =~= history(self@, aggregate_id@).skip(version as int));
            },
            None => {
                assert(found.deep_view() =~= Seq::<EnvelopeView>::empty());
                assert(history(self@, aggregate_id@).skip(0) =~= Seq::<EnvelopeView>::empty());
            },
        }
        found
    }

    /// The full committed history of an aggregate, oldest first. An id
    /// without history has the empty one.
    pub fn load(&self, aggregate_id: &str) -> (found: Vec<EventEnvelope>)
        ensures
            found.deep_view() == history(self@, aggregate_id@),
    {
        let found = self.load_after(aggregate_id, 0);
        assert(history(self@, aggregate_id@).skip(0) =~= history(self@, aggregate_id@));
        found
    }

    /// Commits `events` on top of `expected_version`, all or nothing.
    ///
    /// The append succeeds exactly when the aggregate's history holds
    /// `expected_version` events: the new ones then follow it with the next
    /// sequence numbers, and the version reached is returned. Otherwise
    /// another writer got there first (or the caller expects events that
    /// were never written): the store stays as it is. An append of no
    /// events changes nothing either way.
    pub fn append(
        &mut self,
        aggregate_id: &str,
        expected_version: u64,
        events: Vec<DeploymentEvent>,
        timestamp: u64,
    ) -> (r: Result<u64, ConcurrencyError>)
        ensures
            match r {
                Ok(committed_version) => {
                    &&& expected_version == history(old(self)@, aggregate_id@).len()
                    &&& committed_version == expected_version + events.len()
                    &&& final(self)@ == appended(
                        old(self)@,
                        aggregate_id@,
                        events.deep_view(),
                        timestamp as nat,
                    )
                },
                Err(conflict) => {
                    &&& expected_version != history(old(self)@, aggregate_id@).len()
                    &&& final(self)@ == old(self)@
                    &&& conflict.aggregate_id@ == aggregate_id@
                    &&& conflict.expected_version == expected_version
                    &&& conflict.actual_version == history(old(self)@, aggregate_id@).len()
                },
            },
    {
        let actual_version = self.version(aggregate_id);
        if actual_version != expected_version {
            return Err(
                ConcurrencyError {
                    aggregate_id: aggregate_id.to_owned(),
                    expected_version,
                    actual_version,
                },
            );
        }
        if events.len() == 0 {
            return Ok(expected_version);
        }
        let mut stream: Vec<Committed> = Vec::new();
        match self.streams.get(aggregate_id) {
            Some(kept) => {
                let mut at: usize = 0;
                while at < kept.len()
                    invariant
                        at <= kept.len(),
                        stream.len() == at,
                        forall|i: int|
                            0 <= i < at ==> (#[trigger] stream[i]).payload@ == kept[i].payload@
                                && stream[i].timestamp == kept[i].timestamp,
                    decreases kept.len() - at,
                {
                    stream.push(kept[at].duplicate());
                    at = at + 1;
                }
            },
            None => {},
        }
        let ghost before = stream@;
        assert(envelopes(aggregate_id@, before) =~= history(old(self)@, aggregate_id@));
        let mut at: usize = 0;
        while at < events.len()
            invariant
                at <= events.len(),
                stream.len() == before.len() + at,
                before.len() == expected_version,
                forall|i: int| 0 <= i < before.len() ==> (#[trigger] stream[i]) == before[i],
                forall|i: int|
                    0 <= i < at ==> (#[trigger] stream[before.len() + i]).payload@ == events[i]@
                        && stream[before.len() + i].timestamp == timestamp,
            decreases events.len() - at,
        {
            stream.push(Committed { payload: events[at].clone(), timestamp });
            at = at + 1;
        }
        let committed_version = stream.len() as u64;
        proof {
            assert(envelopes(aggregate_id@, stream@) =~= history(old(self)@, aggregate_id@) + stamped(
                aggregate_id@,
                expected_version as nat,
                events.deep_view(),
                timestamp as nat,
            ));
        }
        self.streams.insert(aggregate_id.to_owned(), stream);
        proof {
            assert(self@ =~= appended(
                old(self)@,
                aggregate_id@,
                events.deep_view(),
                timestamp as nat,
            ));
        }
        Ok(committed_version)
    }
}

} // verus!
