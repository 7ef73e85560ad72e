//! The program catalogue: one entry for each program, under its program
//! number, built by applying events in order.

use vstd::prelude::*;
use std::collections::HashMap;
use crate::eit::{EitEvent, EitEventView};
use crate::models::{EventQuad, MirakurunProgramId, ServiceTriple};
use crate::program::{ProgramModel, ProgramModelView};

verus! {

broadcast use vstd::std_specs::hash::group_hash_axioms;

/// What a catalogue holds: the view of each entry under its number.
pub type Catalogue = Map<u64, ProgramModelView>;

/// The catalogue that a map of entries stands for.
pub open spec fn catalogue(programs: Map<u64, ProgramModel>) -> Catalogue {
    Map::new(|id: u64| programs.contains_key(id), |id: u64| programs[id].deep_view())
}

/// The number under which an event of a service is catalogued.
pub open spec fn program_number(triple: ServiceTriple, event: EitEventView) -> u64 {
    MirakurunProgramId::spec_of(EventQuad::of(triple, event.event_id)) as u64
}

/// The catalogue after one event of the service `triple` was applied: the
/// entry under the event's number, blank if there was none, is updated from
/// the event.
pub open spec fn with_event(programs: Catalogue, triple: ServiceTriple, event: EitEventView)
    -> Catalogue {
    let id = program_number(triple, event);
    let entry = if programs.contains_key(id) {
        programs[id]
    } else {
        ProgramModelView::blank(EventQuad::of(triple, event.event_id))
    };
    programs.insert(id, entry.updated(event))
}

/// The catalogue after `events` were applied in order.
pub open spec fn with_events(programs: Catalogue, triple: ServiceTriple, events: Seq<EitEventView>)
    -> Catalogue
    decreases events.len(),
{
    if events.len() == 0 {
        programs
    } else {
        with_event(with_events(programs, triple, events.drop_last()), triple, events.last())
    }
}

/// Applying two lists in a row is applying the first and then the second.
pub proof fn lemma_with_events_add(
    programs: Catalogue,
    triple: ServiceTriple,
    a: Seq<EitEventView>,
    b: Seq<EitEventView>,
)
    ensures
        with_events(programs, triple, a + b) == with_events(
            with_events(programs, triple, a),
            triple,
            b,
        ),
    decreases b.len(),
{
    if b.len() == 0 {
        assert(a + b =~= a);
    } else {
        assert((a + b).drop_last() =~= a + b.drop_last());
        assert((a + b).last() == b.last());
        lemma_with_events_add(programs, triple, a, b.drop_last());
    }
}

/// Every event that was applied has an entry afterwards, and no entry is
/// ever taken away.
pub proof fn lemma_with_events_keeps_entries(
    programs: Catalogue,
    triple: ServiceTriple,
    events: Seq<EitEventView>,
)
    ensures
        forall|id: u64| programs.contains_key(id) ==> #[trigger] with_events(
            programs,
            triple,
            events,
        ).contains_key(id),
        forall|i: int|
            0 <= i < events.len() ==> with_events(programs, triple, events).contains_key(
                program_number(triple, #[trigger] events[i]),
            ),
    decreases events.len(),
{
    if events.len() > 0 {
        lemma_with_events_keeps_entries(programs, triple, events.drop_last());
        let before = with_events(programs, triple, events.drop_last());
        let after = with_events(programs, triple, events);
        assert(after == with_event(before, triple, events.last()));
        assert forall|i: int| 0 <= i < events.len() implies after.contains_key(
            program_number(triple, #[trigger] events[i]),
        ) by {
            if i < events.len() - 1 {
                assert(events[i] == events.drop_last()[i]);
            }
        }
    }
}

/// Applies one event of the service `triple` to the catalogue.
pub fn collect_event(programs: &mut HashMap<u64, ProgramModel>, triple: ServiceTriple, event: &EitEvent)
    ensures
        catalogue(final(programs)@) == with_event(
            catalogue(old(programs)@),
            triple,
            event.deep_view(),
        ),
{
    let quad = EventQuad::new(triple, event.event_id);
    let id = MirakurunProgramId::new(quad).value();
    let mut model = match programs.remove(&id) {
        Some(model) => model,
        None => ProgramModel::new(quad),
    };
    model.update(event);
    programs.insert(id, model);
}

/// Applies a list of events of the service `triple` to the catalogue, in
/// order.
pub fn collect_events(
    programs: &mut HashMap<u64, ProgramModel>,
    triple: ServiceTriple,
    events: &Vec<EitEvent>,
)
    ensures
        catalogue(final(programs)@) == with_events(
            catalogue(old(programs)@),
            triple,
            events.deep_view(),
        ),
{
    let ghost before = catalogue(programs@);
    let ghost all = events.deep_view();
    let mut i: usize = 0;
    while i < events.len()
        invariant
            i <= events.len(),
            all == events.deep_view(),
            catalogue(programs@) == with_events(before, triple, all.take(i as int)),
        decreases events.len() - i,
    {
        proof {
            assert(all.take(i + 1).drop_last() =~= all.take(i as int));
        }
        collect_event(programs, triple, &events[i]);
        i += 1;
    }
    assert(all.take(events.len() as int) =~= all);
}

/// Descriptors say nothing of the start, the length and the scrambling of
/// a program.
pub proof fn lemma_descriptors_keep_times(
    entry: ProgramModelView,
    descriptors: Seq<crate::eit::EitDescriptorView>,
    n: int,
)
    ensures
        entry.with_descriptors(descriptors, n).start_at == entry.start_at,
        entry.with_descriptors(descriptors, n).duration == entry.duration,
        entry.with_descriptors(descriptors, n).is_free == entry.is_free,
    decreases n,
{
    if n > 0 {
        lemma_descriptors_keep_times(entry, descriptors, n - 1);
    }
}

/// The entry of a program shows the start, the length and the scrambling
/// of the last event that was applied under its number.
pub proof fn lemma_entry_shows_last_event(
    programs: Catalogue,
    triple: ServiceTriple,
    events: Seq<EitEventView>,
    i: int,
)
    requires
        0 <= i < events.len(),
        forall|j: int|
            i < j < events.len() ==> program_number(triple, #[trigger] events[j]) != program_number(
                triple,
                events[i],
            ),
    ensures
        with_events(programs, triple, events).contains_key(program_number(triple, events[i])),
        with_events(programs, triple, events)[program_number(triple, events[i])].start_at
            == events[i].start_time,
        with_events(programs, triple, events)[program_number(triple, events[i])].duration
            == events[i].duration,
        with_events(programs, triple, events)[program_number(triple, events[i])].is_free
            == !events[i].scrambled,
    decreases events.len(),
{
    let rest = events.drop_last();
    let before = with_events(programs, triple, rest);
    let last = events.last();
    let id = program_number(triple, last);
    if i == events.len() - 1 {
        let entry = if before.contains_key(id) {
            before[id]
        } else {
            ProgramModelView::blank(EventQuad::of(triple, last.event_id))
        };
        let timed = ProgramModelView {
            start_at: last.start_time,
            duration: last.duration,
            is_free: !last.scrambled,
            ..entry
        };
        lemma_descriptors_keep_times(timed, last.descriptors, last.descriptors.len() as int);
    } else {
        assert(rest[i] == events[i]);
        assert forall|j: int| i < j < rest.len() implies program_number(triple, #[trigger] rest[j])
            != program_number(triple, rest[i]) by {
            assert(rest[j] == events[j]);
        }
        lemma_entry_shows_last_event(programs, triple, rest, i);
        assert(program_number(triple, events[events.len() - 1]) != program_number(
            triple,
            events[i],
        ));
    }
}

} // verus!
