//! What holds of every collector, proved over its mathematical model.

use vstd::prelude::*;
use crate::collector::CollectorView;
use crate::event::EventView;
use crate::level::Level;
use crate::targets::TargetScope;

verus! {

/// An event that is less severe than the threshold leaves the collector as it
/// was, whatever its target.
pub proof fn lemma_level_filtering(collector: CollectorView, event: EventView)
    requires
        !event.level.passes(collector.level),
    ensures
        collector.ingest(event) == collector,
{
}

/// With a selected scope, an event whose target is not in the selection
/// leaves the collector as it was, at any severity; one whose target is in
/// the selection and whose level passes is appended.
pub proof fn lemma_target_filtering(collector: CollectorView, names: Set<Seq<char>>, event: EventView)
    requires
        collector.scope == TargetScope::Selected(names),
    ensures
        !names.contains(event.target) ==> collector.ingest(event) == collector,
        names.contains(event.target) && event.level.passes(collector.level) ==> collector.ingest(
            event,
        ).buffer == collector.buffer.push(event),
{
}

/// Every level passes the most verbose threshold.
pub proof fn lemma_trace_admits_all(level: Level)
    ensures
        level.passes(Level::Trace),
{
}

/// A collector as first made accepts every event, of any severity and any
/// target.
pub proof fn lemma_initial_accepts_all(event: EventView)
    ensures
        CollectorView::initial().accepts(event),
        CollectorView::initial().ingest(event).buffer == seq![event],
{
    assert(CollectorView::initial().ingest(event).buffer =~= seq![event]);
}

/// Offering events never changes the policy.
pub proof fn lemma_ingest_all_keeps_policy(collector: CollectorView, events: Seq<EventView>)
    ensures
        collector.ingest_all(events).level == collector.level,
        collector.ingest_all(events).scope == collector.scope,
    decreases events.len(),
{
    if events.len() > 0 {
        lemma_ingest_all_keeps_policy(collector, events.drop_last());
    }
}

/// After a run of offers the buffer holds what it held before, followed by
/// the accepted events of the run in the order in which they were offered.
pub proof fn lemma_order_preserved(collector: CollectorView, events: Seq<EventView>)
    ensures
        collector.ingest_all(events).buffer == collector.buffer + events.filter(
            |event: EventView| collector.accepts(event),
        ),
    decreases events.len(),
{
    reveal(Seq::filter);
    let accepted = |event: EventView| collector.accepts(event);
    if events.len() == 0 {
        assert(collector.buffer + events.filter(accepted) =~= collector.buffer);
    } else {
        let earlier = events.drop_last();
        lemma_order_preserved(collector, earlier);
        lemma_ingest_all_keeps_policy(collector, earlier);
        let before = collector.ingest_all(earlier);
        assert(before.accepts(events.last()) == collector.accepts(events.last()));
        assert(collector.ingest_all(events).buffer =~= collector.buffer + events.filter(accepted));
    }
}

/// What a run of offers adds to the buffer passed the policy that was in
/// force during the run, and what the buffer held before stays in place.
pub proof fn lemma_added_events_passed(collector: CollectorView, events: Seq<EventView>)
    ensures
        collector.buffer.is_prefix_of(collector.ingest_all(events).buffer),
        forall|i: int|
            collector.buffer.len() <= i < collector.ingest_all(events).buffer.len()
                ==> collector.accepts(#[trigger] collector.ingest_all(events).buffer[i]),
{
    let accepted = |event: EventView| collector.accepts(event);
    let added = events.filter(accepted);
    let after = collector.ingest_all(events).buffer;
    lemma_order_preserved(collector, events);
    assert forall|i: int| collector.buffer.len() <= i < after.len() implies collector.accepts(
        #[trigger] after[i],
    ) by {
        events.lemma_filter_pred(accepted, i - collector.buffer.len());
        assert(after[i] == added[i - collector.buffer.len()]);
    }
}

/// Where every event of a run is accepted, the buffer grows by exactly the
/// run, in its order.
pub proof fn lemma_accepted_run_appended(collector: CollectorView, events: Seq<EventView>)
    requires
        forall|i: int| 0 <= i < events.len() ==> collector.accepts(#[trigger] events[i]),
    ensures
        collector.ingest_all(events).buffer == collector.buffer + events,
    decreases events.len(),
{
    if events.len() == 0 {
        assert(collector.buffer + events =~= collector.buffer);
    } else {
        let earlier = events.drop_last();
        lemma_accepted_run_appended(collector, earlier);
        lemma_ingest_all_keeps_policy(collector, earlier);
        let before = collector.ingest_all(earlier);
        assert(before.accepts(events.last()) == collector.accepts(events[events.len() - 1]));
        assert(collector.ingest_all(events).buffer =~= collector.buffer + events);
    }
}

/// Clearing empties the buffer whatever it held and keeps the policy;
/// clearing an empty collector changes nothing, and so does clearing twice.
pub proof fn lemma_clear_idempotent(collector: CollectorView)
    ensures
        collector.cleared().buffer == Seq::<EventView>::empty(),
        collector.cleared().level == collector.level,
        collector.cleared().scope == collector.scope,
        collector.buffer == Seq::<EventView>::empty() ==> collector.cleared() == collector,
        collector.cleared().cleared() == collector.cleared(),
{
}

/// After a clear the collector behaves as one with the same policy that
/// never held anything: what it holds after a run of offers is the accepted
/// events of that run and nothing else.
pub proof fn lemma_cleared_is_fresh(collector: CollectorView, events: Seq<EventView>)
    ensures
        collector.cleared() == (CollectorView {
            scope: collector.scope,
            level: collector.level,
            ..CollectorView::initial()
        }),
        collector.cleared().ingest_all(events).buffer == events.filter(
            |event: EventView| collector.accepts(event),
        ),
{
    let cleared = collector.cleared();
    lemma_order_preserved(cleared, events);
    let kept = |event: EventView| cleared.accepts(event);
    let accepted = |event: EventView| collector.accepts(event);
    assert(kept =~= accepted) by {
        assert forall|event: EventView| #[trigger] kept(event) == accepted(event) by {}
    }
    assert(cleared.buffer + events.filter(accepted) =~= events.filter(accepted));
}

/// A snapshot is a value of its own: the sequence read before an offer is
/// still the start of what the collector holds afterwards, and the offer adds
/// at most the one event behind it.
pub proof fn lemma_snapshot_isolated(collector: CollectorView, event: EventView)
    ensures
        collector.buffer.is_prefix_of(collector.ingest(event).buffer),
        collector.accepts(event) ==> collector.ingest(event).buffer.len() == collector.buffer.len()
            + 1,
        !collector.accepts(event) ==> collector.ingest(event).buffer == collector.buffer,
{
}

} // verus!
