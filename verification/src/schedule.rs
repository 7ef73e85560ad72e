//! The schedule of one service: a sparse lattice of tables, segments and
//! sections into which the sections of the Event Information Table are put
//! back together.

use vstd::prelude::*;
use std::collections::HashMap;
use crate::catalogue::{catalogue, collect_events, lemma_with_events_add,
    lemma_with_events_keeps_entries, program_number, with_events, Catalogue};
use crate::eit::{EitEvent, EitEventView, EitSection, EitSectionView};
use crate::models::{ServiceTriple, Timestamp};
use crate::program::ProgramModel;

verus! {

/// The number of tables in a schedule.
pub const TABLES: usize = 32;

/// The number of segments in a table.
pub const SEGMENTS: usize = 32;

/// The number of sections in a segment.
pub const SECTIONS: usize = 8;

/// The events among `events` that are overnight with respect to `midnight`,
/// in their order.
pub open spec fn overnight_among(events: Seq<EitEventView>, midnight: Timestamp) -> Seq<
    EitEventView,
> {
    events.filter(|e: EitEventView| e.is_overnight_event(midnight))
}

/// What is overnight in two lists in a row is what is overnight in the first
/// and then in the second.
pub proof fn lemma_overnight_among_add(
    a: Seq<EitEventView>,
    b: Seq<EitEventView>,
    midnight: Timestamp,
)
    ensures
        overnight_among(a + b, midnight) == overnight_among(a, midnight) + overnight_among(
            b,
            midnight,
        ),
{
    Seq::filter_distributes_over_add(a, b, |e: EitEventView| e.is_overnight_event(midnight));
}

/// One stored section: its version and its events in chronological order.
pub struct EpgSection {
    pub version: u8,
    pub events: Vec<EitEvent>,
}

/// What an `EpgSection` holds.
pub struct EpgSectionView {
    pub version: u8,
    pub events: Seq<EitEventView>,
}

impl EpgSectionView {
    /// What a section of the table becomes when it is stored.
    pub open spec fn of(section: EitSectionView) -> Self {
        EpgSectionView { version: section.version_number, events: section.events }
    }
}

impl DeepView for EpgSection {
    type V = EpgSectionView;

    open spec fn deep_view(&self) -> EpgSectionView {
        EpgSectionView { version: self.version, events: self.events.deep_view() }
    }
}

/// The events of a section slot: none where the slot is empty.
pub open spec fn slot_events(slot: Option<EpgSectionView>) -> Seq<EitEventView> {
    match slot {
        Some(section) => section.events,
        None => Seq::empty(),
    }
}

impl EpgSection {
    pub fn from(section: EitSection) -> (r: Self)
        ensures
            r.deep_view() == EpgSectionView::of(section.deep_view()),
    {
        EpgSection { version: section.version_number, events: section.events }
    }

    /// Appends to `events` the events of this section that are overnight
    /// with respect to `midnight`.
    pub fn collect_overnight_events(&self, midnight: Timestamp, events: Vec<EitEvent>) -> (r: Vec<
        EitEvent,
    >)
        ensures
            r.deep_view() == events.deep_view() + overnight_among(
                self.deep_view().events,
                midnight,
            ),
    {
        let mut events = events;
        let ghost before = events.deep_view();
        let ghost all = self.events.deep_view();
        let mut i: usize = 0;
        proof {
            reveal(Seq::filter);
        }
        while i < self.events.len()
            invariant
                i <= self.events.len(),
                all == self.events.deep_view(),
                events.deep_view() == before + overnight_among(all.take(i as int), midnight),
            decreases self.events.len() - i,
        {
            let ghost prior = events.deep_view();
            proof {
                reveal(Seq::filter);
                assert(all.take(i + 1).drop_last() =~= all.take(i as int));
            }
            if self.events[i].is_overnight_event(midnight) {
                events.push(self.events[i].clone());
                assert(events.deep_view() =~= prior.push(self.events[i as int].deep_view()));
            }
            i += 1;
        }
        assert(all.take(self.events.len() as int) =~= all);
        events
    }
}

/// Three hours of a schedule: eight section slots.
pub struct EpgSegment {
    pub sections: [Option<EpgSection>; 8],
}

/// What an `EpgSegment` holds.
pub struct EpgSegmentView {
    pub sections: Seq<Option<EpgSectionView>>,
}

impl EpgSegmentView {
    /// A segment with every slot empty.
    pub open spec fn empty() -> Self {
        EpgSegmentView { sections: Seq::new(SECTIONS as nat, |j: int| None) }
    }

    /// The segment after a section was stored at `index`, in a segment whose
    /// last section is at `last`: the section is put in its slot, and every
    /// slot behind `last` is empty, the section's own slot too where it lies
    /// there.
    pub open spec fn updated(self, index: int, last: int, section: EpgSectionView) -> Self {
        EpgSegmentView {
            sections: Seq::new(
                self.sections.len(),
                |j: int|
                    if j > last {
                        None
                    } else if j == index {
                        Some(section)
                    } else {
                        self.sections[j]
                    },
            ),
        }
    }

    /// The events of the first `n` slots, in order.
    pub open spec fn events_upto(self, n: int) -> Seq<EitEventView>
        decreases n,
    {
        if n <= 0 {
            Seq::empty()
        } else {
            self.events_upto(n - 1) + slot_events(self.sections[n - 1])
        }
    }

    /// All events of the segment, in the order of its slots.
    pub open spec fn events(self) -> Seq<EitEventView> {
        self.events_upto(self.sections.len() as int)
    }

}

impl DeepView for EpgSegment {
    type V = EpgSegmentView;

    open spec fn deep_view(&self) -> EpgSegmentView {
        EpgSegmentView { sections: self.sections.deep_view() }
    }
}

impl Default for EpgSegment {
    fn default() -> (r: Self)
        ensures
            r.deep_view() == EpgSegmentView::empty(),
    {
        let r = EpgSegment { sections: [None, None, None, None, None, None, None, None] };
        assert(r.deep_view().sections =~= EpgSegmentView::empty().sections);
        r
    }
}

impl EpgSegment {
    pub fn update(&mut self, section: EitSection)
        ensures
            final(self).deep_view() == old(self).deep_view().updated(
                section.deep_view().section_index(),
                section.deep_view().last_section_index(),
                EpgSectionView::of(section.deep_view()),
            ),
    {
        let ghost before = self.deep_view();
        let ghost stored = EpgSectionView::of(section.deep_view());
        let n = section.last_section_index() + 1;
        let index = section.section_index();
        self.sections[index] = Some(EpgSection::from(section));
        let mut i: usize = n;
        while i < SECTIONS
            invariant
                n <= i <= SECTIONS,
                n >= 1,
                index < SECTIONS,
                forall|j: int|
                    0 <= j < SECTIONS ==> #[trigger] self.sections[j].deep_view() == (if n <= j
                        < i {
                        None
                    } else if j == index {
                        Some(stored)
                    } else {
                        before.sections[j]
                    }),
            decreases SECTIONS - i,
        {
            self.sections[i] = None;
            i += 1;
        }
        assert(self.deep_view().sections =~= before.updated(index as int, n - 1, stored).sections);
    }

    /// Appends to `events` the overnight events of the segment, slot by
    /// slot.
    pub fn collect_overnight_events(&self, midnight: Timestamp, events: Vec<EitEvent>) -> (r: Vec<
        EitEvent,
    >)
        ensures
            r.deep_view() == events.deep_view() + overnight_among(
                self.deep_view().events(),
                midnight,
            ),
    {
        let mut events = events;
        let ghost before = events.deep_view();
        let ghost view = self.deep_view();
        let mut i: usize = 0;
        proof {
            reveal(Seq::filter);
        }
        while i < SECTIONS
            invariant
                i <= SECTIONS,
                view == self.deep_view(),
                events.deep_view() == before + overnight_among(
                    view.events_upto(i as int),
                    midnight,
                ),
            decreases SECTIONS - i,
        {
            proof {
                lemma_overnight_among_add(
                    view.events_upto(i as int),
                    slot_events(view.sections[i as int]),
                    midnight,
                );
            }
            match &self.sections[i] {
                Some(section) => {
                    events = section.collect_overnight_events(midnight, events);
                },
                None => {
                    proof {
                        reveal(Seq::filter);
                    }
                },
            }
            i += 1;
        }
        events
    }
}

/// Four days of a schedule: thirty-two segments in chronological order.
pub struct EpgTable {
    pub segments: [EpgSegment; 32],
}

/// What an `EpgTable` holds.
pub struct EpgTableView {
    pub segments: Seq<EpgSegmentView>,
}

impl EpgTableView {
    /// A table of empty segments.
    pub open spec fn empty() -> Self {
        EpgTableView { segments: Seq::new(SEGMENTS as nat, |j: int| EpgSegmentView::empty()) }
    }

    /// The table after a section was stored in the segment and slot that
    /// its number names.
    pub open spec fn updated(self, section: EitSectionView) -> Self {
        EpgTableView {
            segments: self.segments.update(
                section.segment_index(),
                self.segments[section.segment_index()].updated(
                    section.section_index(),
                    section.last_section_index(),
                    EpgSectionView::of(section),
                ),
            ),
        }
    }

    /// The events of the first `n` segments, in order.
    pub open spec fn events_upto(self, n: int) -> Seq<EitEventView>
        decreases n,
    {
        if n <= 0 {
            Seq::empty()
        } else {
            self.events_upto(n - 1) + self.segments[n - 1].events()
        }
    }

    /// All events of the table, segment by segment.
    pub open spec fn events(self) -> Seq<EitEventView> {
        self.events_upto(self.segments.len() as int)
    }

    /// Whether the table has all its segments, each with all its slots.
    pub open spec fn is_full_size(self) -> bool {
        &&& self.segments.len() == SEGMENTS
        &&& forall|s: int|
            0 <= s < self.segments.len() ==> (#[trigger] self.segments[s]).sections.len()
                == SECTIONS
    }
}

impl DeepView for EpgTable {
    type V = EpgTableView;

    open spec fn deep_view(&self) -> EpgTableView {
        EpgTableView { segments: self.segments.deep_view() }
    }
}

impl Default for EpgTable {
    fn default() -> (r: Self)
        ensures
            r.deep_view() == EpgTableView::empty(),
    {
        let r = EpgTable {
            segments: [
                EpgSegment::default(),
                EpgSegment::default(),
                EpgSegment::default(),
                EpgSegment::default(),
                EpgSegment::default(),
                EpgSegment::default(),
                EpgSegment::default(),
                EpgSegment::default(),
                EpgSegment::default(),
                EpgSegment::default(),
                EpgSegment::default(),
                EpgSegment::default(),
                EpgSegment::default(),
                EpgSegment::default(),
                EpgSegment::default(),
                EpgSegment::default(),
                EpgSegment::default(),
                EpgSegment::default(),
                EpgSegment::default(),
                EpgSegment::default(),
                EpgSegment::default(),
                EpgSegment::default(),
                EpgSegment::default(),
                EpgSegment::default(),
                EpgSegment::default(),
                EpgSegment::default(),
                EpgSegment::default(),
                EpgSegment::default(),
                EpgSegment::default(),
                EpgSegment::default(),
                EpgSegment::default(),
                EpgSegment::default(),
            ],
        };
        assert(r.deep_view().segments =~= EpgTableView::empty().segments);
        r
    }
}

impl EpgTable {
    pub fn update(&mut self, section: EitSection)
        ensures
            final(self).deep_view() == old(self).deep_view().updated(section.deep_view()),
    {
        let ghost before = self.deep_view();
        let ghost view = section.deep_view();
        let i = section.segment_index();
        self.segments[i].update(section);
        assert(self.deep_view().segments =~= before.updated(view).segments);
    }

    /// Appends to `events` the overnight events of the table, segment by
    /// segment.
    pub fn collect_overnight_events(&self, midnight: Timestamp, events: Vec<EitEvent>) -> (r: Vec<
        EitEvent,
    >)
        ensures
            r.deep_view() == events.deep_view() + overnight_among(
                self.deep_view().events(),
                midnight,
            ),
    {
        let mut events = events;
        let ghost before = events.deep_view();
        let ghost view = self.deep_view();
        let mut i: usize = 0;
        proof {
            reveal(Seq::filter);
        }
        while i < SEGMENTS
            invariant
                i <= SEGMENTS,
                view == self.deep_view(),
                events.deep_view() == before + overnight_among(
                    view.events_upto(i as int),
                    midnight,
                ),
            decreases SEGMENTS - i,
        {
            proof {
                lemma_overnight_among_add(
                    view.events_upto(i as int),
                    view.segments[i as int].events(),
                    midnight,
                );
            }
            events = self.segments[i].collect_overnight_events(midnight, events);
            i += 1;
        }
        events
    }
}

/// The events of a table slot: none where no table was allocated.
pub open spec fn table_slot_events(slot: Option<EpgTableView>) -> Seq<EitEventView> {
    match slot {
        Some(table) => table.events(),
        None => Seq::empty(),
    }
}

/// The schedule of one service.
pub struct EpgSchedule {
    pub service_triple: ServiceTriple,
    /// Tables are allocated when their first section arrives.
    pub tables: [Option<Box<EpgTable>>; 32],
    /// The events that were running at the last midnight the schedule saw.
    pub overnight_events: Vec<EitEvent>,
    pub updated_at: Timestamp,
}

/// What an `EpgSchedule` holds.
pub struct EpgScheduleView {
    pub service_triple: ServiceTriple,
    pub tables: Seq<Option<EpgTableView>>,
    pub overnight_events: Seq<EitEventView>,
    pub updated_at: Timestamp,
}

impl EpgScheduleView {
    /// The schedule of a service of which nothing is known yet.
    pub open spec fn empty(triple: ServiceTriple, now: Timestamp) -> Self {
        EpgScheduleView {
            service_triple: triple,
            tables: Seq::new(TABLES as nat, |j: int| None),
            overnight_events: Seq::empty(),
            updated_at: now,
        }
    }

    /// The table in slot `index`, empty where none was allocated.
    pub open spec fn table_or_empty(self, index: int) -> EpgTableView {
        match self.tables[index] {
            Some(table) => table,
            None => EpgTableView::empty(),
        }
    }

    /// The schedule after a section was routed to its table, segment and
    /// slot.
    pub open spec fn updated(self, section: EitSectionView) -> Self {
        EpgScheduleView {
            tables: self.tables.update(
                section.table_index(),
                Some(self.table_or_empty(section.table_index()).updated(section)),
            ),
            ..self
        }
    }

    /// The events of the first `n` table slots, in order.
    pub open spec fn table_events_upto(self, n: int) -> Seq<EitEventView>
        decreases n,
    {
        if n <= 0 {
            Seq::empty()
        } else {
            self.table_events_upto(n - 1) + table_slot_events(self.tables[n - 1])
        }
    }

    /// All events in the tables of the schedule: table by table, segment by
    /// segment, slot by slot.
    pub open spec fn table_events(self) -> Seq<EitEventView> {
        self.table_events_upto(self.tables.len() as int)
    }

    /// The schedule after the events that are overnight with respect to
    /// `midnight` were saved: they replace what was saved before.
    pub open spec fn with_overnight_events_saved(self, midnight: Timestamp) -> Self {
        EpgScheduleView {
            overnight_events: overnight_among(self.table_events(), midnight),
            ..self
        }
    }

    /// A schedule is well formed when it has a full set of table slots and
    /// each table that exists has all its segments and slots.
    pub open spec fn wf(self) -> bool {
        &&& self.tables.len() == TABLES
        &&& forall|t: int|
            0 <= t < self.tables.len() ==> (#[trigger] self.tables[t] matches Some(table)
                ==> table.is_full_size())
    }
}

impl DeepView for EpgSchedule {
    type V = EpgScheduleView;

    open spec fn deep_view(&self) -> EpgScheduleView {
        EpgScheduleView {
            service_triple: self.service_triple,
            tables: self.tables.deep_view(),
            overnight_events: self.overnight_events.deep_view(),
            updated_at: self.updated_at,
        }
    }
}

impl EpgSchedule {
    /// The schedule of a service first seen at `now`.
    pub fn new(triple: ServiceTriple, now: Timestamp) -> (r: Self)
        ensures
            r.deep_view() == EpgScheduleView::empty(triple, now),
            r.deep_view().wf(),
    {
        let r = EpgSchedule {
            service_triple: triple,
            tables: [
                None,
                None,
                None,
                None,
                None,
                None,
                None,
                None,
                None,
                None,
                None,
                None,
                None,
                None,
                None,
                None,
                None,
                None,
                None,
                None,
                None,
                None,
                None,
                None,
                None,
                None,
                None,
                None,
                None,
                None,
                None,
                None,
            ],
            overnight_events: Vec::new(),
            updated_at: now,
        };
        assert(r.deep_view().tables =~= EpgScheduleView::empty(triple, now).tables);
        assert(r.deep_view().overnight_events =~= Seq::empty());
        r
    }

    pub fn update(&mut self, section: EitSection)
        requires
            section.deep_view().is_schedule_section(),
        ensures
            final(self).deep_view() == old(self).deep_view().updated(section.deep_view()),
            old(self).deep_view().wf() ==> final(self).deep_view().wf(),
    {
        let ghost before = self.deep_view();
        let ghost view = section.deep_view();
        let i = section.table_index();
        if self.tables[i].is_none() {
            self.tables[i] = Some(Box::new(EpgTable::default()));
        }
        match &mut self.tables[i] {
            Some(table) => {
                table.update(section);
            },
            None => {},
        }
        assert(self.deep_view().tables =~= before.updated(view).tables);
        proof {
            if before.wf() {
                lemma_update_keeps_wf(before, view);
            }
        }
    }

    /// Replaces the saved overnight events by the events of the tables that
    /// are overnight with respect to `midnight`.
    pub fn save_overnight_events(&mut self, midnight: Timestamp)
        ensures
            final(self).deep_view() == old(self).deep_view().with_overnight_events_saved(midnight),
    {
        let mut events: Vec<EitEvent> = Vec::new();
        let ghost view = self.deep_view();
        let mut i: usize = 0;
        proof {
            reveal(Seq::filter);
        }
        while i < TABLES
            invariant
                i <= TABLES,
                view == self.deep_view(),
                events.deep_view() == overnight_among(view.table_events_upto(i as int), midnight),
            decreases TABLES - i,
        {
            proof {
                lemma_overnight_among_add(
                    view.table_events_upto(i as int),
                    table_slot_events(view.tables[i as int]),
                    midnight,
                );
            }
            match &self.tables[i] {
                Some(table) => {
                    events = table.collect_overnight_events(midnight, events);
                },
                None => {
                    proof {
                        reveal(Seq::filter);
                    }
                },
            }
            i += 1;
        }
        self.overnight_events = events;
    }
}

/// Storing a section keeps the shape of the tables, so a well formed
/// schedule stays well formed.
pub proof fn lemma_update_keeps_wf(schedule: EpgScheduleView, section: EitSectionView)
    requires
        schedule.wf(),
        section.is_schedule_section(),
    ensures
        schedule.updated(section).wf(),
{
    let after = schedule.updated(section);
    let t = section.table_index();
    let s = section.segment_index();
    let table = after.tables[t]->Some_0;
    let prior = schedule.table_or_empty(t);
    assert(prior.is_full_size());
    assert(prior.segments[s].sections.len() == SECTIONS);
    assert forall|j: int| 0 <= j < table.segments.len() implies (#[trigger] table.segments[j]).sections.len()
        == SECTIONS by {
        if j != s {
            assert(table.segments[j] == prior.segments[j]);
        }
    }
    assert forall|u: int| 0 <= u < after.tables.len() implies (#[trigger] after.tables[u] matches Some(
        other,
    ) ==> other.is_full_size()) by {
        if u != t {
            assert(after.tables[u] == schedule.tables[u]);
        }
    }
}

impl EpgSection {
    /// Applies the events of the section to the catalogue, in order.
    pub fn collect_epg_programs(
        &self,
        triple: ServiceTriple,
        programs: &mut HashMap<u64, ProgramModel>,
    )
        ensures
            catalogue(final(programs)@) == with_events(
                catalogue(old(programs)@),
                triple,
                self.deep_view().events,
            ),
    {
        collect_events(programs, triple, &self.events);
    }
}

impl EpgSegment {
    /// Applies the events of the segment to the catalogue, slot by slot.
    pub fn collect_epg_programs(
        &self,
        triple: ServiceTriple,
        programs: &mut HashMap<u64, ProgramModel>,
    )
        ensures
            catalogue(final(programs)@) == with_events(
                catalogue(old(programs)@),
                triple,
                self.deep_view().events(),
            ),
    {
        let ghost before = catalogue(programs@);
        let ghost view = self.deep_view();
        let mut i: usize = 0;
        while i < SECTIONS
            invariant
                i <= SECTIONS,
                view == self.deep_view(),
                catalogue(programs@) == with_events(before, triple, view.events_upto(i as int)),
            decreases SECTIONS - i,
        {
            proof {
                lemma_with_events_add(
                    before,
                    triple,
                    view.events_upto(i as int),
                    slot_events(view.sections[i as int]),
                );
            }
            match &self.sections[i] {
                Some(section) => {
                    section.collect_epg_programs(triple, programs);
                },
                None => {},
            }
            i += 1;
        }
    }
}

impl EpgTable {
    /// Applies the events of the table to the catalogue, segment by segment.
    pub fn collect_epg_programs(
        &self,
        triple: ServiceTriple,
        programs: &mut HashMap<u64, ProgramModel>,
    )
        ensures
            catalogue(final(programs)@) == with_events(
                catalogue(old(programs)@),
                triple,
                self.deep_view().events(),
            ),
    {
        let ghost before = catalogue(programs@);
        let ghost view = self.deep_view();
        let mut i: usize = 0;
        while i < SEGMENTS
            invariant
                i <= SEGMENTS,
                view == self.deep_view(),
                catalogue(programs@) == with_events(before, triple, view.events_upto(i as int)),
            decreases SEGMENTS - i,
        {
            proof {
                lemma_with_events_add(
                    before,
                    triple,
                    view.events_upto(i as int),
                    view.segments[i as int].events(),
                );
            }
            self.segments[i].collect_epg_programs(triple, programs);
            i += 1;
        }
    }
}

impl EpgScheduleView {
    /// The events from which the catalogue is filled: the saved overnight
    /// events first, then the events of the tables.
    pub open spec fn catalogue_events(self) -> Seq<EitEventView> {
        self.overnight_events + self.table_events()
    }
}

impl EpgSchedule {
    /// Applies to the catalogue, as events of the service `triple`, first
    /// the saved overnight events and then the events of the tables. Where
    /// two events share a program number, the later one is applied to the
    /// entry that the earlier one left.
    pub fn collect_epg_programs(
        &self,
        triple: ServiceTriple,
        programs: &mut HashMap<u64, ProgramModel>,
    )
        ensures
            catalogue(final(programs)@) == with_events(
                catalogue(old(programs)@),
                triple,
                self.deep_view().catalogue_events(),
            ),
    {
        let ghost before = catalogue(programs@);
        let ghost view = self.deep_view();
        collect_events(programs, triple, &self.overnight_events);
        let ghost seeded = catalogue(programs@);
        let mut i: usize = 0;
        while i < TABLES
            invariant
                i <= TABLES,
                view == self.deep_view(),
                catalogue(programs@) == with_events(
                    seeded,
                    triple,
                    view.table_events_upto(i as int),
                ),
            decreases TABLES - i,
        {
            proof {
                lemma_with_events_add(
                    seeded,
                    triple,
                    view.table_events_upto(i as int),
                    table_slot_events(view.tables[i as int]),
                );
            }
            match &self.tables[i] {
                Some(table) => {
                    table.collect_epg_programs(triple, programs);
                },
                None => {},
            }
            i += 1;
        }
        proof {
            lemma_with_events_add(before, triple, view.overnight_events, view.table_events());
        }
    }
}

/// Segment truncation: after a section was stored, every slot behind the
/// last slot that it names is empty.
pub proof fn lemma_segment_truncation(segment: EpgSegmentView, section: EitSectionView, j: int)
    requires
        segment.sections.len() == SECTIONS,
        section.last_section_index() < j < SECTIONS,
    ensures
        segment.updated(
            section.section_index(),
            section.last_section_index(),
            EpgSectionView::of(section),
        ).sections[j] is None,
{
}

/// A section whose own slot is not behind the last slot that it names is in
/// its slot afterwards, and the slots up to the last one that are not its
/// own stay as they were.
pub proof fn lemma_segment_keeps_head(segment: EpgSegmentView, section: EitSectionView, j: int)
    requires
        segment.sections.len() == SECTIONS,
        0 <= j <= section.last_section_index(),
    ensures
        segment.updated(
            section.section_index(),
            section.last_section_index(),
            EpgSectionView::of(section),
        ).sections[j] == (if j == section.section_index() {
            Some(EpgSectionView::of(section))
        } else {
            segment.sections[j]
        }),
{
}

/// Overnight preservation, first half: an event of the tables that is
/// overnight with respect to a midnight is among the saved overnight events
/// once they were saved for that midnight.
pub proof fn lemma_overnight_event_saved(
    schedule: EpgScheduleView,
    midnight: Timestamp,
    event: EitEventView,
)
    requires
        schedule.table_events().contains(event),
        event.is_overnight_event(midnight),
    ensures
        schedule.with_overnight_events_saved(midnight).overnight_events.contains(event),
{
    let events = schedule.table_events();
    let i = choose|i: int| 0 <= i < events.len() && events[i] == event;
    events.lemma_filter_contains(|e: EitEventView| e.is_overnight_event(midnight), i);
}

/// Overnight preservation, second half: a saved overnight event has an
/// entry in the catalogue that is collected from the schedule, whatever the
/// tables hold by then.
pub proof fn lemma_overnight_event_observable(
    schedule: EpgScheduleView,
    triple: ServiceTriple,
    programs: Catalogue,
    event: EitEventView,
)
    requires
        schedule.overnight_events.contains(event),
    ensures
        with_events(programs, triple, schedule.catalogue_events()).contains_key(
            program_number(triple, event),
        ),
{
    let events = schedule.catalogue_events();
    let i = choose|i: int|
        0 <= i < schedule.overnight_events.len() && schedule.overnight_events[i] == event;
    assert(events[i] == event);
    lemma_with_events_keeps_entries(programs, triple, events);
}

impl EpgScheduleView {
    /// The schedule after `sections` were stored one after the other.
    pub open spec fn updated_all(self, sections: Seq<EitSectionView>) -> Self
        decreases sections.len(),
    {
        if sections.len() == 0 {
            self
        } else {
            self.updated_all(sections.drop_last()).updated(sections.last())
        }
    }
}

/// However many sections are stored, the saved overnight events stay as
/// they are.
pub proof fn lemma_updates_keep_overnight_events(
    schedule: EpgScheduleView,
    sections: Seq<EitSectionView>,
)
    ensures
        schedule.updated_all(sections).overnight_events == schedule.overnight_events,
    decreases sections.len(),
{
    if sections.len() > 0 {
        lemma_updates_keep_overnight_events(schedule, sections.drop_last());
    }
}

/// Overnight preservation: an event of the tables that is overnight with
/// respect to a midnight is saved when the overnight events are saved for
/// that midnight, and from then on it has an entry in the catalogue that is
/// collected from the schedule, whatever sections overwrite the tables.
pub proof fn lemma_overnight_preservation(
    schedule: EpgScheduleView,
    midnight: Timestamp,
    event: EitEventView,
    sections: Seq<EitSectionView>,
    triple: ServiceTriple,
    programs: Catalogue,
)
    requires
        schedule.table_events().contains(event),
        event.is_overnight_event(midnight),
    ensures
        schedule.with_overnight_events_saved(midnight).overnight_events.contains(event),
        with_events(
            programs,
            triple,
            schedule.with_overnight_events_saved(midnight).updated_all(
                sections,
            ).catalogue_events(),
        ).contains_key(program_number(triple, event)),
{
    let saved = schedule.with_overnight_events_saved(midnight);
    lemma_overnight_event_saved(schedule, midnight, event);
    lemma_updates_keep_overnight_events(saved, sections);
    lemma_overnight_event_observable(saved.updated_all(sections), triple, programs, event);
}

/// Whether one of `sections` belongs to the table in slot `t`.
pub open spec fn has_section_of_table(sections: Seq<EitSectionView>, t: int) -> bool {
    exists|k: int| 0 <= k < sections.len() && (#[trigger] sections[k]).table_index() == t
}

/// Tables are allocated by the sections that are stored, and by nothing
/// else: after sections were stored, a table exists exactly where one
/// existed before or one of the sections belongs to it. A new schedule has
/// no table, so each of its tables has had a section stored in it.
pub proof fn lemma_tables_exist_where_stored(
    schedule: EpgScheduleView,
    sections: Seq<EitSectionView>,
)
    requires
        schedule.tables.len() == TABLES,
        forall|k: int| 0 <= k < sections.len() ==> (#[trigger] sections[k]).is_schedule_section(),
    ensures
        schedule.updated_all(sections).tables.len() == TABLES,
        forall|t: int|
            0 <= t < TABLES ==> ((#[trigger] schedule.updated_all(sections).tables[t]) is Some
                <==> schedule.tables[t] is Some || has_section_of_table(sections, t)),
    decreases sections.len(),
{
    if sections.len() > 0 {
        let rest = sections.drop_last();
        let last = sections.last();
        assert forall|k: int| 0 <= k < rest.len() implies (#[trigger] rest[k]).is_schedule_section() by {
            assert(rest[k] == sections[k]);
        }
        lemma_tables_exist_where_stored(schedule, rest);
        let before = schedule.updated_all(rest);
        let after = schedule.updated_all(sections);
        assert(after == before.updated(last));
        assert forall|t: int| 0 <= t < TABLES implies ((#[trigger] after.tables[t]) is Some
            <==> schedule.tables[t] is Some || has_section_of_table(sections, t)) by {
            if has_section_of_table(rest, t) {
                let k = choose|k: int| 0 <= k < rest.len() && (#[trigger] rest[k]).table_index() == t;
                assert(sections[k].table_index() == t);
            }
            if t == last.table_index() {
                assert(sections[sections.len() - 1].table_index() == t);
            } else {
                assert(after.tables[t] == before.tables[t]);
                if has_section_of_table(sections, t) {
                    let k = choose|k: int|
                        0 <= k < sections.len() && (#[trigger] sections[k]).table_index() == t;
                    assert(rest[k].table_index() == t);
                }
            }
        }
    }
}

} // verus!
