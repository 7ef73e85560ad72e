//! The synchronisation of clocks: a sweep over all channels that reads the
//! clock of each service.

use vstd::prelude::*;
use crate::epg::{channels_of, Epg, EpgView};
use crate::jst::HOUR;
use crate::models::{Clock, Millis, ServiceTriple};
use crate::scan::SweepPhase;
use crate::service::{EpgChannel, EpgChannelView, OpenTunerMessage, OpenTunerMessageView,
    SyncClock};

verus! {

/// The place, at or behind `from`, of the first clock of the service
/// `triple`, or the number of clocks where there is none.
pub open spec fn clock_index_from(
    clocks: Seq<(ServiceTriple, Clock)>,
    triple: ServiceTriple,
    from: int,
) -> int
    decreases clocks.len() - from,
{
    if from < 0 || from >= clocks.len() {
        clocks.len() as int
    } else if clocks[from].0 == triple {
        from
    } else {
        clock_index_from(clocks, triple, from + 1)
    }
}

/// The clock of each service among the first `n` readings, in the order in
/// which the services first appear; a later reading of a service replaces
/// an earlier one.
pub open spec fn clock_map(readings: Seq<SyncClock>, n: int) -> Seq<(ServiceTriple, Clock)>
    decreases n,
{
    if n <= 0 {
        Seq::empty()
    } else {
        let rest = clock_map(readings, n - 1);
        let reading = readings[n - 1];
        let i = clock_index_from(rest, reading.spec_triple(), 0);
        if i < rest.len() {
            rest.update(i, (reading.spec_triple(), reading.clock))
        } else {
            rest.push((reading.spec_triple(), reading.clock))
        }
    }
}

/// Where no clock of a service is found at or behind a place, none that
/// stands there belongs to the service; a clock that is found does.
pub proof fn lemma_clock_index(clocks: Seq<(ServiceTriple, Clock)>, triple: ServiceTriple, from: int)
    requires
        0 <= from <= clocks.len(),
    ensures
        from <= clock_index_from(clocks, triple, from) <= clocks.len(),
        clock_index_from(clocks, triple, from) < clocks.len() ==> clocks[clock_index_from(
            clocks,
            triple,
            from,
        )].0 == triple,
        forall|k: int|
            from <= k < clock_index_from(clocks, triple, from) ==> (#[trigger] clocks[k]).0
                != triple,
    decreases clocks.len() - from,
{
    if from < clocks.len() && clocks[from].0 != triple {
        lemma_clock_index(clocks, triple, from + 1);
    }
}

/// No service has two clocks.
pub proof fn lemma_one_clock_each(readings: Seq<SyncClock>, n: int)
    requires
        0 <= n <= readings.len(),
    ensures
        forall|i: int, j: int|
            0 <= i < j < clock_map(readings, n).len() ==> (#[trigger] clock_map(
                readings,
                n,
            )[i]).0 != (#[trigger] clock_map(readings, n)[j]).0,
    decreases n,
{
    if n > 0 {
        lemma_one_clock_each(readings, n - 1);
        let rest = clock_map(readings, n - 1);
        let after = clock_map(readings, n);
        let triple = readings[n - 1].spec_triple();
        lemma_clock_index(rest, triple, 0);
        assert forall|i: int, j: int| 0 <= i < j < after.len() implies (#[trigger] after[i]).0 != (
        #[trigger] after[j]).0 by {
            if after.len() == rest.len() {
                assert(after[i].0 == rest[i].0 && after[j].0 == rest[j].0);
            } else if j < rest.len() {
                assert(after[i] == rest[i] && after[j] == rest[j]);
            } else {
                assert(after[i] == rest[i]);
            }
        }
    }
}

/// The clock of each service in a list of readings.
pub fn make_clock_map(readings: &Vec<SyncClock>) -> (r: Vec<(ServiceTriple, Clock)>)
    ensures
        r@ == clock_map(readings@, readings.len() as int),
{
    let mut r: Vec<(ServiceTriple, Clock)> = Vec::new();
    let mut i: usize = 0;
    while i < readings.len()
        invariant
            i <= readings.len(),
            r@ == clock_map(readings@, i as int),
        decreases readings.len() - i,
    {
        let ghost rest = r@;
        let triple = readings[i].triple();
        let mut k: usize = 0;
        while k < r.len() && r[k].0 != triple
            invariant
                k <= r.len(),
                rest == r@,
                clock_index_from(rest, triple, 0) == clock_index_from(rest, triple, k as int),
            decreases r.len() - k,
        {
            k += 1;
        }
        if k < r.len() {
            r[k] = (triple, readings[i].clock);
        } else {
            r.push((triple, readings[i].clock));
        }
        i += 1;
    }
    r
}

/// A synchronisation of clocks in progress.
pub struct ClockSync {
    pub phase: SweepPhase,
    pub channels: Vec<EpgChannel>,
    /// The place of the channel whose result is awaited.
    pub index: usize,
    /// The readings so far.
    pub readings: Vec<SyncClock>,
}

/// What a `ClockSync` holds.
pub struct ClockSyncView {
    pub phase: SweepPhase,
    pub channels: Seq<EpgChannelView>,
    pub index: usize,
    pub readings: Seq<SyncClock>,
}

impl DeepView for ClockSync {
    type V = ClockSyncView;

    open spec fn deep_view(&self) -> ClockSyncView {
        ClockSyncView {
            phase: self.phase,
            channels: self.channels.deep_view(),
            index: self.index,
            readings: self.readings@,
        }
    }
}

/// What happened to a synchronisation of clocks.
pub enum SyncClocksEvent {
    /// The synchronisation is due.
    Started,
    /// The synchroniser reported the clocks of the channel.
    Synced(Vec<SyncClock>),
    /// The synchroniser's report could not be read: the broadcast may be
    /// suspended.
    Suspended,
    /// The tuner could not be opened or piped through the synchroniser.
    Failed,
    /// The clocks were stored.
    Saved,
    /// The clocks could not be stored.
    SaveFailed,
}

/// What a `SyncClocksEvent` holds.
pub enum SyncClocksEventView {
    Started,
    Synced(Seq<SyncClock>),
    Suspended,
    Failed,
    Saved,
    SaveFailed,
}

impl DeepView for SyncClocksEvent {
    type V = SyncClocksEventView;

    open spec fn deep_view(&self) -> SyncClocksEventView {
        match *self {
            SyncClocksEvent::Started => SyncClocksEventView::Started,
            SyncClocksEvent::Synced(readings) => SyncClocksEventView::Synced(readings@),
            SyncClocksEvent::Suspended => SyncClocksEventView::Suspended,
            SyncClocksEvent::Failed => SyncClocksEventView::Failed,
            SyncClocksEvent::Saved => SyncClocksEventView::Saved,
            SyncClocksEvent::SaveFailed => SyncClocksEventView::SaveFailed,
        }
    }
}

/// What the caller does next for a synchronisation of clocks.
pub enum SyncClocksAction {
    /// Open a tuner with this request, pipe it through the synchroniser and
    /// report what the synchroniser says.
    Sync(OpenTunerMessage),
    /// Store these clocks and report whether that worked.
    Save(Vec<(ServiceTriple, Clock)>),
    /// Publish these clocks, and start the synchronisation again after this
    /// time.
    Publish(Vec<(ServiceTriple, Clock)>, Millis),
    /// Start the synchronisation again after this time.
    RunLater(Millis),
}

/// What a `SyncClocksAction` holds.
pub enum SyncClocksActionView {
    Sync(OpenTunerMessageView),
    Save(Seq<(ServiceTriple, Clock)>),
    Publish(Seq<(ServiceTriple, Clock)>, Millis),
    RunLater(Millis),
}

impl DeepView for SyncClocksAction {
    type V = SyncClocksActionView;

    open spec fn deep_view(&self) -> SyncClocksActionView {
        match *self {
            SyncClocksAction::Sync(message) => SyncClocksActionView::Sync(message.deep_view()),
            SyncClocksAction::Save(clocks) => SyncClocksActionView::Save(clocks@),
            SyncClocksAction::Publish(clocks, delay) => SyncClocksActionView::Publish(
                clocks@,
                delay,
            ),
            SyncClocksAction::RunLater(delay) => SyncClocksActionView::RunLater(delay),
        }
    }
}

/// The time after which a synchronisation that ended well is started again.
pub const SYNC_CLOCKS_INTERVAL: Millis = 61_200_000;

/// The time after which a synchronisation that failed is started again.
pub const SYNC_CLOCKS_RETRY: Millis = 3_600_000;

/// The synchronisation and the next action after a step.
pub struct SyncStep {
    pub sync: ClockSyncView,
    pub action: SyncClocksActionView,
}

/// The request with which the clocks of a channel are read: without a time
/// limit.
pub open spec fn sync_request(channel: EpgChannelView) -> OpenTunerMessageView {
    OpenTunerMessageView::for_epg(channel, None)
}

/// Whether a synchronisation awaits the result of a channel.
pub open spec fn sync_awaits_channel(sync: ClockSyncView) -> bool {
    sync.phase == SweepPhase::Sweeping && sync.index < sync.channels.len()
}

/// The events that make sense for a synchronisation.
pub open spec fn sync_accepts(sync: ClockSyncView, event: SyncClocksEventView) -> bool {
    match event {
        SyncClocksEventView::Started => true,
        SyncClocksEventView::Synced(_) => sync_awaits_channel(sync),
        SyncClocksEventView::Suspended => sync_awaits_channel(sync),
        SyncClocksEventView::Failed => true,
        SyncClocksEventView::Saved => sync.phase == SweepPhase::Saving,
        SyncClocksEventView::SaveFailed => sync.phase == SweepPhase::Saving,
    }
}

/// What follows when the synchronisation stands before the channel at
/// `sync.index`: that channel is read, or, behind the last channel, the
/// clocks are stored.
pub open spec fn sync_onward(sync: ClockSyncView) -> SyncStep {
    if sync.index < sync.channels.len() {
        SyncStep {
            sync: ClockSyncView { phase: SweepPhase::Sweeping, ..sync },
            action: SyncClocksActionView::Sync(sync_request(sync.channels[sync.index as int])),
        }
    } else {
        SyncStep {
            sync: ClockSyncView { phase: SweepPhase::Saving, ..sync },
            action: SyncClocksActionView::Save(
                clock_map(sync.readings, sync.readings.len() as int),
            ),
        }
    }
}

/// One step of the synchronisation of clocks.
pub open spec fn sync_step(epg: EpgView, sync: ClockSyncView, event: SyncClocksEventView)
    -> SyncStep {
    match event {
        SyncClocksEventView::Started => sync_onward(
            ClockSyncView {
                phase: SweepPhase::Sweeping,
                channels: channels_of(epg.channels),
                index: 0,
                readings: Seq::empty(),
            },
        ),
        SyncClocksEventView::Synced(readings) => sync_onward(
            ClockSyncView {
                index: (sync.index + 1) as usize,
                readings: sync.readings + readings,
                ..sync
            },
        ),
        SyncClocksEventView::Suspended => sync_onward(
            ClockSyncView { index: (sync.index + 1) as usize, ..sync },
        ),
        SyncClocksEventView::Failed => SyncStep {
            sync: ClockSyncView { phase: SweepPhase::Idle, ..sync },
            action: SyncClocksActionView::RunLater(SYNC_CLOCKS_RETRY),
        },
        SyncClocksEventView::Saved => SyncStep {
            sync: ClockSyncView { phase: SweepPhase::Idle, ..sync },
            action: SyncClocksActionView::Publish(
                clock_map(sync.readings, sync.readings.len() as int),
                SYNC_CLOCKS_INTERVAL,
            ),
        },
        SyncClocksEventView::SaveFailed => SyncStep {
            sync: ClockSyncView { phase: SweepPhase::Idle, ..sync },
            action: SyncClocksActionView::RunLater(SYNC_CLOCKS_RETRY),
        },
    }
}

impl ClockSync {
    /// A synchronisation that does not run.
    pub fn new() -> (r: Self)
        ensures
            r.deep_view() == (ClockSyncView {
                phase: SweepPhase::Idle,
                channels: Seq::empty(),
                index: 0,
                readings: Seq::empty(),
            }),
    {
        let r = ClockSync {
            phase: SweepPhase::Idle,
            channels: Vec::new(),
            index: 0,
            readings: Vec::new(),
        };
        assert(r.deep_view().channels =~= Seq::empty());
        r
    }

    /// Whether the synchronisation awaits the result of a channel.
    pub fn awaits_channel(&self) -> (r: bool)
        ensures
            r == sync_awaits_channel(self.deep_view()),
    {
        self.phase == SweepPhase::Sweeping && self.index < self.channels.len()
    }

    /// Whether the synchronisation awaits the result of storing.
    pub fn awaits_saving(&self) -> (r: bool)
        ensures
            r == (self.deep_view().phase == SweepPhase::Saving),
    {
        self.phase == SweepPhase::Saving
    }

    /// Goes on at the channel at `self.index`.
    fn onward(&mut self) -> (action: SyncClocksAction)
        ensures
            (SyncStep { sync: final(self).deep_view(), action: action.deep_view() }) == sync_onward(
                old(self).deep_view(),
            ),
    {
        if self.index < self.channels.len() {
            self.phase = SweepPhase::Sweeping;
            let channel = &self.channels[self.index];
            SyncClocksAction::Sync(OpenTunerMessage::for_epg(channel, None))
        } else {
            self.phase = SweepPhase::Saving;
            SyncClocksAction::Save(make_clock_map(&self.readings))
        }
    }
}

impl Epg {
    /// One step of the synchronisation of clocks: takes what happened and
    /// says what is done next. The clocks are published once they are
    /// stored. A synchronisation that ended well is started again after
    /// seventeen hours, one that failed after one hour.
    pub fn sync_clocks(&self, sync: &mut ClockSync, event: SyncClocksEvent) -> (action:
        SyncClocksAction)
        requires
            sync_accepts(old(sync).deep_view(), event.deep_view()),
        ensures
            (SyncStep { sync: final(sync).deep_view(), action: action.deep_view() }) == sync_step(
                self.deep_view(),
                old(sync).deep_view(),
                event.deep_view(),
            ),
    {
        match event {
            SyncClocksEvent::Started => {
                sync.channels = self.collect_channels_for_scanning_services();
                sync.index = 0;
                sync.readings = Vec::new();
                sync.phase = SweepPhase::Sweeping;
                sync.onward()
            },
            SyncClocksEvent::Synced(readings) => {
                let ghost before = sync.deep_view();
                assert(before.channels.len() == sync.channels.len());
                let mut i: usize = 0;
                while i < readings.len()
                    invariant
                        i <= readings.len(),
                        sync.deep_view() == (ClockSyncView {
                            readings: sync.readings@,
                            ..before
                        }),
                        sync.readings@ == before.readings + readings@.take(i as int),
                    decreases readings.len() - i,
                {
                    sync.readings.push(readings[i]);
                    i += 1;
                }
                assert(readings@.take(readings.len() as int) =~= readings@);
                sync.index += 1;
                sync.onward()
            },
            SyncClocksEvent::Suspended => {
                assert(sync.deep_view().channels.len() == sync.channels.len());
                sync.index += 1;
                sync.onward()
            },
            SyncClocksEvent::Failed => {
                sync.phase = SweepPhase::Idle;
                SyncClocksAction::RunLater(HOUR)
            },
            SyncClocksEvent::Saved => {
                sync.phase = SweepPhase::Idle;
                SyncClocksAction::Publish(make_clock_map(&sync.readings), 17 * HOUR)
            },
            SyncClocksEvent::SaveFailed => {
                sync.phase = SweepPhase::Idle;
                SyncClocksAction::RunLater(HOUR)
            },
        }
    }
}

} // verus!
