//! The update of schedules: a sweep over one channel of each network that
//! collects the sections of the Event Information Table, and the start of
//! the engine.

use vstd::prelude::*;
use std::collections::HashMap;
use crate::catalogue::{catalogue, Catalogue};
use crate::eit::{EitSection, EitSectionView};
use crate::epg::{collect_eits_time_limit, collected_programs, sections_fit,
    lemma_prepared_schedules, lemma_with_sections, network_channels, one_schedule_each,
    prepared_schedules, service_models, spec_collect_eits_time_limit, spec_estimate_time,
    spec_max_elapsed, triples_of, with_sections, Epg, EpgView};
use crate::jst::{has_day_margin, lemma_midnight_bounds, next_midnight, spec_next_midnight, MINUTE,
    SECOND};
use crate::models::{Clock, Millis, NetworkId, ServiceTriple, Timestamp};
use crate::program::ProgramModel;
use crate::scan::SweepPhase;
use crate::schedule::{EpgSchedule, EpgScheduleView};
use crate::service::{EpgChannel, EpgChannelView, EpgService, EpgServiceView, OpenTunerMessage,
    OpenTunerMessageView, ServiceModel, ServiceModelView};

verus! {

/// The catalogue as it is published: the services and the programs.
pub struct UpdateEpgMessage {
    pub services: Vec<ServiceModel>,
    pub programs: HashMap<u64, ProgramModel>,
}

/// What an `UpdateEpgMessage` holds.
pub struct UpdateEpgMessageView {
    pub services: Seq<ServiceModelView>,
    pub programs: Catalogue,
}

impl UpdateEpgMessageView {
    /// The catalogue of an engine.
    pub open spec fn of(epg: EpgView) -> Self {
        UpdateEpgMessageView {
            services: service_models(epg.services),
            programs: collected_programs(Map::empty(), epg.schedules, epg.schedules.len() as int),
        }
    }
}

impl DeepView for UpdateEpgMessage {
    type V = UpdateEpgMessageView;

    open spec fn deep_view(&self) -> UpdateEpgMessageView {
        UpdateEpgMessageView {
            services: self.services.deep_view(),
            programs: catalogue(self.programs@),
        }
    }
}

/// The time between two moments, as far as a span of time can hold it.
pub open spec fn spec_elapsed(start: Timestamp, end: Timestamp) -> Millis {
    if end - start > i64::MAX {
        i64::MAX
    } else if end - start < i64::MIN {
        i64::MIN
    } else {
        (end - start) as i64
    }
}

pub fn elapsed(start: Timestamp, end: Timestamp) -> (r: Millis)
    ensures
        r == spec_elapsed(start, end),
{
    match end.checked_sub(start) {
        Some(span) => span,
        None => if end > start {
            i64::MAX
        } else {
            i64::MIN
        },
    }
}

/// An update of schedules in progress.
pub struct ScheduleUpdate {
    pub phase: SweepPhase,
    /// When the update was started.
    pub started_at: Timestamp,
    /// One channel for each network.
    pub channels: Vec<(NetworkId, EpgChannel)>,
    /// The place of the channel whose result is awaited.
    pub index: usize,
}

/// What a `ScheduleUpdate` holds.
pub struct ScheduleUpdateView {
    pub phase: SweepPhase,
    pub started_at: Timestamp,
    pub channels: Seq<(NetworkId, EpgChannelView)>,
    pub index: usize,
}

impl DeepView for ScheduleUpdate {
    type V = ScheduleUpdateView;

    open spec fn deep_view(&self) -> ScheduleUpdateView {
        ScheduleUpdateView {
            phase: self.phase,
            started_at: self.started_at,
            channels: self.channels.deep_view(),
            index: self.index,
        }
    }
}

/// What happened to an update of schedules.
pub enum UpdateSchedulesEvent {
    /// The update is due; the time is the current time.
    Started(Timestamp),
    /// The collector ended; these are the sections it reported for the
    /// channel.
    Collected(Vec<EitSection>),
    /// The tuner could not be opened or piped through the collector, or a
    /// line of the collector could not be read; these are the sections that
    /// were read before.
    Failed(Vec<EitSection>),
    /// The schedules were stored; the time is the current time.
    Saved(Timestamp),
    /// The schedules could not be stored.
    SaveFailed,
}

/// What an `UpdateSchedulesEvent` holds.
pub enum UpdateSchedulesEventView {
    Started(Timestamp),
    Collected(Seq<EitSectionView>),
    Failed(Seq<EitSectionView>),
    Saved(Timestamp),
    SaveFailed,
}

impl DeepView for UpdateSchedulesEvent {
    type V = UpdateSchedulesEventView;

    open spec fn deep_view(&self) -> UpdateSchedulesEventView {
        match *self {
            UpdateSchedulesEvent::Started(now) => UpdateSchedulesEventView::Started(now),
            UpdateSchedulesEvent::Collected(sections) => UpdateSchedulesEventView::Collected(
                sections.deep_view(),
            ),
            UpdateSchedulesEvent::Failed(sections) => UpdateSchedulesEventView::Failed(
                sections.deep_view(),
            ),
            UpdateSchedulesEvent::Saved(now) => UpdateSchedulesEventView::Saved(now),
            UpdateSchedulesEvent::SaveFailed => UpdateSchedulesEventView::SaveFailed,
        }
    }
}

/// What the caller does next for an update of schedules.
pub enum UpdateSchedulesAction {
    /// Open a tuner with this request, pipe it through the collector and
    /// report the sections it writes.
    Collect(OpenTunerMessage),
    /// Store the schedules of the engine and report whether that worked.
    Save,
    /// Publish this catalogue, and start the update again after this time.
    Publish(UpdateEpgMessage, Millis),
    /// Start the update again after this time.
    RunLater(Millis),
}

/// What an `UpdateSchedulesAction` holds.
pub enum UpdateSchedulesActionView {
    Collect(OpenTunerMessageView),
    Save,
    Publish(UpdateEpgMessageView, Millis),
    RunLater(Millis),
}

impl DeepView for UpdateSchedulesAction {
    type V = UpdateSchedulesActionView;

    open spec fn deep_view(&self) -> UpdateSchedulesActionView {
        match *self {
            UpdateSchedulesAction::Collect(message) => UpdateSchedulesActionView::Collect(
                message.deep_view(),
            ),
            UpdateSchedulesAction::Save => UpdateSchedulesActionView::Save,
            UpdateSchedulesAction::Publish(message, delay) => UpdateSchedulesActionView::Publish(
                message.deep_view(),
                delay,
            ),
            UpdateSchedulesAction::RunLater(delay) => UpdateSchedulesActionView::RunLater(delay),
        }
    }
}

/// The time after which an update that ended well is started again.
pub const UPDATE_SCHEDULES_INTERVAL: Millis = 900_000;

/// The time after which an update that failed is started again.
pub const UPDATE_SCHEDULES_RETRY: Millis = 300_000;

/// The time that is added to the rest of the day when an update is put off
/// to the next day.
pub const POSTPONE_MARGIN: Millis = 10_000;

/// The engine, the update and the next action after a step.
pub struct UpdateStep {
    pub epg: EpgView,
    pub update: ScheduleUpdateView,
    pub action: UpdateSchedulesActionView,
}

/// The request with which the sections of a channel are collected.
pub open spec fn collect_request(channel: EpgChannelView) -> OpenTunerMessageView {
    OpenTunerMessageView::for_epg(
        channel,
        Some(spec_collect_eits_time_limit(channel.channel_type)),
    )
}

/// Whether an update awaits the result of a channel.
pub open spec fn update_awaits_channel(update: ScheduleUpdateView) -> bool {
    update.phase == SweepPhase::Sweeping && update.index < update.channels.len()
}

/// The events that make sense for an update: the current time must leave a
/// day of room, a section that goes to a schedule must belong to a schedule
/// table, the result of a channel comes only while one is awaited, and the
/// result of storing only while it is awaited.
pub open spec fn update_accepts(
    epg: EpgView,
    update: ScheduleUpdateView,
    event: UpdateSchedulesEventView,
) -> bool {
    match event {
        UpdateSchedulesEventView::Started(now) => has_day_margin(now),
        UpdateSchedulesEventView::Collected(sections) => update_awaits_channel(update)
            && sections_fit(epg.schedules, sections),
        UpdateSchedulesEventView::Failed(sections) => sections_fit(epg.schedules, sections),
        UpdateSchedulesEventView::Saved(_) => update.phase == SweepPhase::Saving,
        UpdateSchedulesEventView::SaveFailed => update.phase == SweepPhase::Saving,
    }
}

/// The time that is left of the day of `now`.
pub open spec fn rest_of_day(now: Timestamp) -> int {
    spec_next_midnight(now as int) - now
}

/// Whether an update that starts at `now` may not end before midnight: the
/// rest of the day is shorter than the estimate.
pub open spec fn is_too_late(epg: EpgView, now: Timestamp) -> bool {
    rest_of_day(now) < spec_estimate_time(epg.max_elapsed)
}

/// What follows when the update stands before the channel at
/// `update.index`: that channel is collected, or, behind the last channel,
/// the schedules are stored.
pub open spec fn update_onward(epg: EpgView, update: ScheduleUpdateView) -> UpdateStep {
    if update.index < update.channels.len() {
        UpdateStep {
            epg,
            update: ScheduleUpdateView { phase: SweepPhase::Sweeping, ..update },
            action: UpdateSchedulesActionView::Collect(
                collect_request(update.channels[update.index as int].1),
            ),
        }
    } else {
        UpdateStep {
            epg,
            update: ScheduleUpdateView { phase: SweepPhase::Saving, ..update },
            action: UpdateSchedulesActionView::Save,
        }
    }
}

/// One step of the update of schedules.
pub open spec fn update_step(
    epg: EpgView,
    update: ScheduleUpdateView,
    event: UpdateSchedulesEventView,
) -> UpdateStep {
    match event {
        UpdateSchedulesEventView::Started(now) => if is_too_late(epg, now) {
            UpdateStep {
                epg,
                update: ScheduleUpdateView { phase: SweepPhase::Idle, ..update },
                action: UpdateSchedulesActionView::RunLater(
                    (rest_of_day(now) + POSTPONE_MARGIN) as i64,
                ),
            }
        } else {
            update_onward(
                EpgView {
                    schedules: prepared_schedules(epg.schedules, triples_of(epg.services), now),
                    ..epg
                },
                ScheduleUpdateView {
                    phase: SweepPhase::Sweeping,
                    started_at: now,
                    channels: network_channels(epg.services, epg.services.len() as int),
                    index: 0,
                },
            )
        },
        UpdateSchedulesEventView::Collected(sections) => update_onward(
            EpgView {
                schedules: with_sections(epg.schedules, sections, sections.len() as int),
                ..epg
            },
            ScheduleUpdateView { index: (update.index + 1) as usize, ..update },
        ),
        UpdateSchedulesEventView::Failed(sections) => UpdateStep {
            epg: EpgView {
                schedules: with_sections(epg.schedules, sections, sections.len() as int),
                ..epg
            },
            update: ScheduleUpdateView { phase: SweepPhase::Idle, ..update },
            action: UpdateSchedulesActionView::RunLater(UPDATE_SCHEDULES_RETRY),
        },
        UpdateSchedulesEventView::Saved(now) => UpdateStep {
            epg: EpgView {
                max_elapsed: spec_max_elapsed(
                    epg.max_elapsed,
                    spec_elapsed(update.started_at, now),
                ),
                ..epg
            },
            update: ScheduleUpdateView { phase: SweepPhase::Idle, ..update },
            action: UpdateSchedulesActionView::Publish(
                UpdateEpgMessageView::of(epg),
                UPDATE_SCHEDULES_INTERVAL,
            ),
        },
        UpdateSchedulesEventView::SaveFailed => UpdateStep {
            epg,
            update: ScheduleUpdateView { phase: SweepPhase::Idle, ..update },
            action: UpdateSchedulesActionView::RunLater(UPDATE_SCHEDULES_RETRY),
        },
    }
}

impl ScheduleUpdate {
    /// An update that does not run.
    pub fn new() -> (r: Self)
        ensures
            r.deep_view() == (ScheduleUpdateView {
                phase: SweepPhase::Idle,
                started_at: 0,
                channels: Seq::empty(),
                index: 0,
            }),
    {
        let r = ScheduleUpdate {
            phase: SweepPhase::Idle,
            started_at: 0,
            channels: Vec::new(),
            index: 0,
        };
        assert(r.deep_view().channels =~= Seq::empty());
        r
    }

    /// Whether the update awaits the result of a channel.
    pub fn awaits_channel(&self) -> (r: bool)
        ensures
            r == update_awaits_channel(self.deep_view()),
    {
        self.phase == SweepPhase::Sweeping && self.index < self.channels.len()
    }

    /// Whether the update awaits the result of storing.
    pub fn awaits_saving(&self) -> (r: bool)
        ensures
            r == (self.deep_view().phase == SweepPhase::Saving),
    {
        self.phase == SweepPhase::Saving
    }

    /// Goes on at the channel at `self.index`.
    fn onward(&mut self) -> (action: UpdateSchedulesAction)
        ensures
            final(self).deep_view() == (if old(self).index < old(self).channels.len() {
                ScheduleUpdateView { phase: SweepPhase::Sweeping, ..old(self).deep_view() }
            } else {
                ScheduleUpdateView { phase: SweepPhase::Saving, ..old(self).deep_view() }
            }),
            action.deep_view() == (if old(self).index < old(self).channels.len() {
                UpdateSchedulesActionView::Collect(
                    collect_request(old(self).deep_view().channels[old(self).index as int].1),
                )
            } else {
                UpdateSchedulesActionView::Save
            }),
    {
        if self.index < self.channels.len() {
            self.phase = SweepPhase::Sweeping;
            let channel = &self.channels[self.index].1;
            UpdateSchedulesAction::Collect(
                OpenTunerMessage::for_epg(
                    channel,
                    Some(collect_eits_time_limit(channel.channel_type)),
                ),
            )
        } else {
            self.phase = SweepPhase::Saving;
            UpdateSchedulesAction::Save
        }
    }
}

impl Epg {
    /// The catalogue of the engine as it is published.
    pub fn make_update_epg_message(&self) -> (r: UpdateEpgMessage)
        ensures
            r.deep_view() == UpdateEpgMessageView::of(self.deep_view()),
    {
        UpdateEpgMessage {
            services: self.collect_epg_services(),
            programs: self.collect_epg_programs(),
        }
    }

    /// One step of the update of schedules: takes what happened and says
    /// what is done next.
    ///
    /// An update that may not end before midnight is put off until ten
    /// seconds after midnight. Else the schedules are made ready, and the
    /// sections of one channel of each network are stored as they are
    /// reported. Once the schedules are stored, the sweep is timed and the
    /// catalogue is published. An update that ended well is started again
    /// after fifteen minutes, one that failed after five.
    pub fn update_schedules(&mut self, update: &mut ScheduleUpdate, event: UpdateSchedulesEvent) -> (action:
        UpdateSchedulesAction)
        requires
            update_accepts(old(self).deep_view(), old(update).deep_view(), event.deep_view()),
        ensures
            (UpdateStep {
                epg: final(self).deep_view(),
                update: final(update).deep_view(),
                action: action.deep_view(),
            }) == update_step(old(self).deep_view(), old(update).deep_view(), event.deep_view()),
    {
        match event {
            UpdateSchedulesEvent::Started(now) => {
                proof {
                    lemma_midnight_bounds(now as int);
                }
                let remaining = next_midnight(now) - now;
                if remaining < self.estimate_time() {
                    update.phase = SweepPhase::Idle;
                    return UpdateSchedulesAction::RunLater(remaining + 10 * SECOND);
                }
                let ghost channels = network_channels(
                    self.deep_view().services,
                    self.services.len() as int,
                );
                update.channels = self.collect_channels_for_collecting_programs(&self.services);
                self.prepare_schedules(now);
                update.started_at = now;
                update.index = 0;
                update.phase = SweepPhase::Sweeping;
                update.onward()
            },
            UpdateSchedulesEvent::Collected(sections) => {
                assert(update.deep_view().channels.len() == update.channels.len());
                self.update_tables(sections);
                update.index += 1;
                update.onward()
            },
            UpdateSchedulesEvent::Failed(sections) => {
                self.update_tables(sections);
                update.phase = SweepPhase::Idle;
                UpdateSchedulesAction::RunLater(5 * MINUTE)
            },
            UpdateSchedulesEvent::Saved(now) => {
                let message = self.make_update_epg_message();
                self.update_max_elapsed(elapsed(update.started_at, now));
                update.phase = SweepPhase::Idle;
                UpdateSchedulesAction::Publish(message, 15 * MINUTE)
            },
            UpdateSchedulesEvent::SaveFailed => {
                update.phase = SweepPhase::Idle;
                UpdateSchedulesAction::RunLater(5 * MINUTE)
            },
        }
    }
}

/// One of the periodic tasks of the engine.
#[derive(Clone, Copy, Debug, PartialEq, Eq, Structural)]
pub enum EpgTask {
    ScanServices,
    SyncClocks,
    UpdateSchedules,
}

/// What the caller does when the engine has started.
pub struct Startup {
    /// The clocks to publish, where clocks were loaded.
    pub clocks: Option<Vec<(ServiceTriple, Clock)>>,
    /// The catalogue to publish.
    pub message: UpdateEpgMessage,
    /// The tasks to start, each after its delay.
    pub tasks: Vec<(EpgTask, Millis)>,
}

/// The tasks that are started with the engine, each with its delay: none
/// where the tasks are disabled.
pub open spec fn startup_tasks(tasks_disabled: bool) -> Seq<(EpgTask, Millis)> {
    if tasks_disabled {
        Seq::empty()
    } else {
        seq![
            (EpgTask::ScanServices, 0i64),
            (EpgTask::SyncClocks, 5_000i64),
            (EpgTask::UpdateSchedules, 10_000i64),
        ]
    }
}

/// The engine after what was stored by an earlier run was loaded: what
/// could not be loaded is empty.
pub open spec fn loaded(
    epg: EpgView,
    services: Option<Seq<EpgServiceView>>,
    schedules: Option<Seq<EpgScheduleView>>,
) -> EpgView {
    EpgView {
        services: match services {
            Some(list) => list,
            None => Seq::empty(),
        },
        schedules: match schedules {
            Some(list) => list,
            None => Seq::empty(),
        },
        ..epg
    }
}

/// The clocks of an optional list, as a sequence.
pub open spec fn clocks_view(clocks: Option<Vec<(ServiceTriple, Clock)>>) -> Option<
    Seq<(ServiceTriple, Clock)>,
> {
    match clocks {
        Some(list) => Some(list@),
        None => None,
    }
}

impl Epg {
    /// Starts the engine with what an earlier run stored, as far as it could
    /// be loaded: services and schedules that could not be loaded are
    /// empty. The clocks are handed back to be published where they were
    /// loaded; the catalogue is handed back to be published in any case. The
    /// scan of services is started at once, the synchronisation of clocks
    /// after five seconds and the update of schedules after ten, unless the
    /// tasks are disabled.
    pub fn started(
        &mut self,
        services: Option<Vec<EpgService>>,
        clocks: Option<Vec<(ServiceTriple, Clock)>>,
        schedules: Option<Vec<EpgSchedule>>,
        tasks_disabled: bool,
    ) -> (r: Startup)
        ensures
            final(self).deep_view() == loaded(
                old(self).deep_view(),
                services.deep_view(),
                schedules.deep_view(),
            ),
            clocks_view(r.clocks) == clocks_view(clocks),
            r.message.deep_view() == UpdateEpgMessageView::of(final(self).deep_view()),
            r.tasks@ == startup_tasks(tasks_disabled),
    {
        self.services = match services {
            Some(list) => list,
            None => Vec::new(),
        };
        self.schedules = match schedules {
            Some(list) => list,
            None => Vec::new(),
        };
        assert(services is None ==> self.services.deep_view() =~= Seq::empty());
        assert(schedules is None ==> self.schedules.deep_view() =~= Seq::empty());
        let message = self.make_update_epg_message();
        let mut tasks: Vec<(EpgTask, Millis)> = Vec::new();
        if !tasks_disabled {
            tasks.push((EpgTask::ScanServices, 0));
            tasks.push((EpgTask::SyncClocks, 5 * SECOND));
            tasks.push((EpgTask::UpdateSchedules, 10 * SECOND));
        }
        Startup { clocks, message, tasks }
    }
}

/// Whatever happens to an update, the engine keeps one schedule for each
/// service.
pub proof fn lemma_update_keeps_one_schedule_each(
    epg: EpgView,
    update: ScheduleUpdateView,
    event: UpdateSchedulesEventView,
)
    requires
        one_schedule_each(epg.schedules),
    ensures
        one_schedule_each(update_step(epg, update, event).epg.schedules),
{
    match event {
        UpdateSchedulesEventView::Started(now) => {
            lemma_prepared_schedules(epg.schedules, triples_of(epg.services), now);
        },
        UpdateSchedulesEventView::Collected(sections) => {
            lemma_with_sections(epg.schedules, sections, sections.len() as int);
        },
        UpdateSchedulesEventView::Failed(sections) => {
            lemma_with_sections(epg.schedules, sections, sections.len() as int);
        },
        _ => {},
    }
}

/// An update that is put off starts again after midnight, and within a day
/// and ten seconds.
pub proof fn lemma_postponed_past_midnight(epg: EpgView, update: ScheduleUpdateView, now: Timestamp)
    requires
        has_day_margin(now),
        is_too_late(epg, now),
    ensures
        update_step(epg, update, UpdateSchedulesEventView::Started(now)).action matches UpdateSchedulesActionView::RunLater(
            delay,
        ) && now + delay > spec_next_midnight(now as int) && 0 < delay <= crate::jst::DAY
            + POSTPONE_MARGIN,
{
    lemma_midnight_bounds(now as int);
}

} // verus!
