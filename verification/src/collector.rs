//! The collector: a filter policy and the buffer of the events it accepted.

use vstd::prelude::*;
use crate::event::{events_view, fields_view, CollectedEvent, EventView};
use crate::level::Level;
use crate::targets::{AllowedTargets, TargetScope};

verus! {

/// A collector as a mathematical value: its policy and the events it holds,
/// oldest first.
pub struct CollectorView {
    pub scope: TargetScope,
    pub level: Level,
    pub buffer: Seq<EventView>,
}

impl CollectorView {
    /// The collector that accepts every level and every target and holds
    /// nothing.
    pub open spec fn initial() -> CollectorView {
        CollectorView { scope: TargetScope::All, level: Level::Trace, buffer: Seq::empty() }
    }

    /// The filter decision: the event is severe enough and its target is in
    /// scope. Both must hold.
    pub open spec fn accepts(self, event: EventView) -> bool {
        event.level.passes(self.level) && self.scope.permits(event.target)
    }

    /// The collector after one event was offered to it: an accepted event is
    /// appended, a rejected one changes nothing.
    pub open spec fn ingest(self, event: EventView) -> CollectorView {
        if self.accepts(event) {
            CollectorView { buffer: self.buffer.push(event), ..self }
        } else {
            self
        }
    }

    /// The collector after the events of `events` were offered to it one
    /// after the other, first to last.
    pub open spec fn ingest_all(self, events: Seq<EventView>) -> CollectorView
        decreases events.len(),
    {
        if events.len() == 0 {
            self
        } else {
            self.ingest_all(events.drop_last()).ingest(events.last())
        }
    }

    /// The collector with its buffer emptied and its policy kept.
    pub open spec fn cleared(self) -> CollectorView {
        CollectorView { buffer: Seq::empty(), ..self }
    }
}

/// Collects the diagnostic events that pass a level threshold and a target
/// scope, in the order in which they were accepted, until it is cleared.
#[derive(Debug)]
pub struct EventCollector {
    allowed_targets: AllowedTargets,
    level: Level,
    events: Vec<CollectedEvent>,
}

impl View for EventCollector {
    type V = CollectorView;

    closed spec fn view(&self) -> CollectorView {
        CollectorView {
            scope: self.allowed_targets@,
            level: self.level,
            buffer: events_view(self.events@),
        }
    }
}

impl EventCollector {
    /// An empty collector that accepts every level and every target.
    pub fn new() -> (collector: Self)
        ensures
            collector@ == CollectorView::initial(),
    {
        let collector = EventCollector {
            allowed_targets: AllowedTargets::All,
            level: Level::Trace,
            events: Vec::new(),
        };
        assert(collector@.buffer =~= Seq::empty());
        collector
    }

    /// The same collector with `level` as its threshold. Events that it
    /// already holds stay.
    pub fn with_level(self, level: Level) -> (collector: Self)
        ensures
            collector@ == (CollectorView { level, ..self@ }),
    {
        EventCollector { allowed_targets: self.allowed_targets, level, events: self.events }
    }

    /// The same collector with `allowed_targets` as its target scope. Events
    /// that it already holds stay.
    pub fn allowed_targets(self, allowed_targets: AllowedTargets) -> (collector: Self)
        ensures
            collector@ == (CollectorView { scope: allowed_targets@, ..self@ }),
    {
        EventCollector { allowed_targets, level: self.level, events: self.events }
    }

    /// A copy of the events held now, oldest first. The copy is the
    /// caller's own: nothing done to the collector later changes it.
    pub fn events(&self) -> (snapshot: Vec<CollectedEvent>)
        ensures
            events_view(snapshot@) == self@.buffer,
            snapshot@.len() == self@.buffer.len(),
            forall|i: int| 0 <= i < snapshot@.len() ==> (#[trigger] snapshot@[i])@ == self@.buffer[i],
    {
        let mut snapshot: Vec<CollectedEvent> = Vec::new();
        let mut i: usize = 0;
        while i < self.events.len()
            invariant
                i <= self.events.len(),
                snapshot.len() == i,
                forall|j: int| 0 <= j < i ==> snapshot[j]@ == self.events[j]@,
            decreases self.events.len() - i,
        {
            snapshot.push(self.events[i].duplicate());
            i += 1;
        }
        assert(events_view(snapshot@) =~= events_view(self.events@));
        snapshot
    }

    /// The events held now, oldest first, read in place. While the borrow
    /// lives nothing can be offered to the collector, nor can it be cleared.
    pub fn get_events(&self) -> (events: &Vec<CollectedEvent>)
        ensures
            events_view(events@) == self@.buffer,
            events@.len() == self@.buffer.len(),
            forall|i: int| 0 <= i < events@.len() ==> (#[trigger] events@[i])@ == self@.buffer[i],
    {
        &self.events
    }

    /// Empties the buffer. The policy stays.
    pub fn clear(&mut self)
        ensures
            final(self)@ == old(self)@.cleared(),
    {
        self.events.clear();
        assert(self@.buffer =~= Seq::empty());
    }

    /// Tells whether the policy lets `event` through: the level is tested
    /// first, the target only where the level passed.
    pub fn accepts(&self, event: &CollectedEvent) -> (accepted: bool)
        ensures
            accepted == self@.accepts(event@),
    {
        if event.level().is_at_least(self.level) {
            self.allowed_targets.permits(event.target())
        } else {
            false
        }
    }

    /// Offers one event: it is appended to the buffer if the policy accepts
    /// it, and dropped without a trace if not.
    pub fn collect(&mut self, event: CollectedEvent)
        ensures
            final(self)@ == old(self)@.ingest(event@),
    {
        if self.accepts(&event) {
            self.events.push(event);
            assert(self@.buffer =~= old(self)@.buffer.push(event@));
        }
    }

    /// Takes what an emitted event's metadata gave. Where the level or the
    /// target could not be determined the event is dropped; otherwise it is
    /// offered as `collect` does.
    pub fn on_event(
        &mut self,
        level: Option<Level>,
        target: Option<String>,
        message: String,
        fields: Vec<(String, String)>,
    )
        ensures
            level.is_some() && target.is_some() ==> final(self)@ == old(self)@.ingest(
                EventView {
                    level: level.unwrap(),
                    target: target.unwrap()@,
                    message: message@,
                    fields: fields_view(fields@),
                },
            ),
            level.is_none() || target.is_none() ==> final(self)@ == old(self)@,
    {
        match CollectedEvent::from_metadata(level, target, message, fields) {
            Some(event) => self.collect(event),
            None => {},
        }
    }
}

impl Default for EventCollector {
    fn default() -> (collector: Self)
        ensures
            collector@ == CollectorView::initial(),
    {
        EventCollector::new()
    }
}

} // verus!
