//! The state of the EPG engine: the channels it sweeps, the services it
//! found, the schedule of each service, and how long a sweep has taken.

use vstd::prelude::*;
use std::collections::HashMap;
use crate::catalogue::{catalogue, with_events, Catalogue};
use crate::config::{ChannelConfig, ChannelConfigView, Config};
use crate::eit::{EitSection, EitSectionView};
use crate::jst::{has_day_margin, midnight, spec_midnight, HOUR, MINUTE, SECOND};
use crate::models::{ChannelType, Millis, NetworkId, ServiceId, ServiceTriple, Timestamp};
use crate::program::ProgramModel;
use crate::schedule::{EpgSchedule, EpgScheduleView};
use crate::service::{EpgChannel, EpgChannelView, EpgService, EpgServiceView, ServiceModel,
    ServiceModelView};

verus! {

/// How long a tuner may run for a scan of the services of a channel.
pub open spec fn spec_scan_services_time_limit(channel_type: ChannelType) -> Millis {
    match channel_type {
        ChannelType::GR => 10_000,
        ChannelType::BS => 20_000,
        _ => 30_000,
    }
}

/// How long a tuner may run for the collection of the sections of a
/// channel.
pub open spec fn spec_collect_eits_time_limit(channel_type: ChannelType) -> Millis {
    match channel_type {
        ChannelType::GR => 70_000,
        ChannelType::BS => 390_000,
        _ => 600_000,
    }
}

pub fn scan_services_time_limit(channel_type: ChannelType) -> (r: Millis)
    ensures
        r == spec_scan_services_time_limit(channel_type),
{
    match channel_type {
        ChannelType::GR => 10 * SECOND,
        ChannelType::BS => 20 * SECOND,
        _ => 30 * SECOND,
    }
}

pub fn collect_eits_time_limit(channel_type: ChannelType) -> (r: Millis)
    ensures
        r == spec_collect_eits_time_limit(channel_type),
{
    match channel_type {
        ChannelType::GR => MINUTE + 10 * SECOND,
        ChannelType::BS => 6 * MINUTE + 30 * SECOND,
        _ => 10 * MINUTE,
    }
}

/// The channels of a configuration that are not disabled, in their order.
pub open spec fn enabled_channels(channels: Seq<ChannelConfigView>) -> Seq<ChannelConfigView>
    decreases channels.len(),
{
    if channels.len() == 0 {
        Seq::empty()
    } else if channels.last().disabled {
        enabled_channels(channels.drop_last())
    } else {
        enabled_channels(channels.drop_last()).push(channels.last())
    }
}

/// The channels to sweep: one for each configured channel.
pub open spec fn channels_of(channels: Seq<ChannelConfigView>) -> Seq<EpgChannelView> {
    Seq::new(channels.len(), |i: int| EpgChannelView::of(channels[i]))
}

/// The triples of a list of services, in its order.
pub open spec fn triples_of(services: Seq<EpgServiceView>) -> Seq<ServiceTriple> {
    Seq::new(services.len(), |i: int| services[i].triple())
}

/// The place, at or behind `from`, of the first schedule of the service
/// `triple`, or the number of schedules where there is none.
pub open spec fn schedule_index_from(
    schedules: Seq<EpgScheduleView>,
    triple: ServiceTriple,
    from: int,
) -> int
    decreases schedules.len() - from,
{
    if from < 0 || from >= schedules.len() {
        schedules.len() as int
    } else if schedules[from].service_triple == triple {
        from
    } else {
        schedule_index_from(schedules, triple, from + 1)
    }
}

/// The place of the schedule of the service `triple`, or the number of
/// schedules where there is none.
pub open spec fn schedule_index(schedules: Seq<EpgScheduleView>, triple: ServiceTriple) -> int {
    schedule_index_from(schedules, triple, 0)
}

/// A schedule made ready for an update at `now`: where it was last touched
/// before the midnight that started the day of `now`, the events that are
/// overnight with respect to that midnight are saved; then it counts as
/// touched at `now`.
pub open spec fn prepared(schedule: EpgScheduleView, now: Timestamp) -> EpgScheduleView {
    let today = spec_midnight(now as int) as i64;
    let saved = if schedule.updated_at < today {
        schedule.with_overnight_events_saved(today)
    } else {
        schedule
    };
    EpgScheduleView { updated_at: now, ..saved }
}

/// The first `n` of the schedules that are kept at `now`: those whose
/// service is still among `triples`, each made ready.
pub open spec fn kept_schedules(
    schedules: Seq<EpgScheduleView>,
    triples: Seq<ServiceTriple>,
    now: Timestamp,
    n: int,
) -> Seq<EpgScheduleView>
    decreases n,
{
    if n <= 0 {
        Seq::empty()
    } else {
        let rest = kept_schedules(schedules, triples, now, n - 1);
        if triples.contains(schedules[n - 1].service_triple) {
            rest.push(prepared(schedules[n - 1], now))
        } else {
            rest
        }
    }
}

/// The schedules after a new one was added for each of the first `n` of
/// `triples` that had none.
pub open spec fn with_missing_schedules(
    schedules: Seq<EpgScheduleView>,
    triples: Seq<ServiceTriple>,
    now: Timestamp,
    n: int,
) -> Seq<EpgScheduleView>
    decreases n,
{
    if n <= 0 {
        schedules
    } else {
        let rest = with_missing_schedules(schedules, triples, now, n - 1);
        if schedule_index(rest, triples[n - 1]) < rest.len() {
            rest
        } else {
            rest.push(EpgScheduleView::empty(triples[n - 1], now))
        }
    }
}

/// The schedules made ready for an update at `now`, for the services
/// `triples`: the schedules of these services in their old order, each made
/// ready, then a new schedule for each service that had none. The
/// schedules of other services are dropped.
pub open spec fn prepared_schedules(
    schedules: Seq<EpgScheduleView>,
    triples: Seq<ServiceTriple>,
    now: Timestamp,
) -> Seq<EpgScheduleView> {
    with_missing_schedules(
        kept_schedules(schedules, triples, now, schedules.len() as int),
        triples,
        now,
        triples.len() as int,
    )
}

/// The schedules after a section was stored: it goes to the schedule of its
/// service; a section of a service without a schedule is ignored.
pub open spec fn with_section(schedules: Seq<EpgScheduleView>, section: EitSectionView) -> Seq<
    EpgScheduleView,
> {
    let i = schedule_index(schedules, section.service_triple());
    if i < schedules.len() {
        schedules.update(i, schedules[i].updated(section))
    } else {
        schedules
    }
}

/// The schedules after the first `n` of `sections` were stored in order.
pub open spec fn with_sections(
    schedules: Seq<EpgScheduleView>,
    sections: Seq<EitSectionView>,
    n: int,
) -> Seq<EpgScheduleView>
    decreases n,
{
    if n <= 0 {
        schedules
    } else {
        with_section(with_sections(schedules, sections, n - 1), sections[n - 1])
    }
}

/// Whether every section that goes to a schedule belongs to one of the
/// schedule tables. A section of a service without a schedule is ignored,
/// whatever table it names.
pub open spec fn sections_fit(schedules: Seq<EpgScheduleView>, sections: Seq<EitSectionView>) -> bool {
    forall|i: int|
        0 <= i < sections.len() && schedule_index(
            schedules,
            (#[trigger] sections[i]).service_triple(),
        ) < schedules.len() ==> sections[i].is_schedule_section()
}

/// The catalogue after the first `n` schedules were collected into it, each
/// under the triple of its service.
pub open spec fn collected_programs(
    programs: Catalogue,
    schedules: Seq<EpgScheduleView>,
    n: int,
) -> Catalogue
    decreases n,
{
    if n <= 0 {
        programs
    } else {
        with_events(
            collected_programs(programs, schedules, n - 1),
            schedules[n - 1].service_triple,
            schedules[n - 1].catalogue_events(),
        )
    }
}

/// The place, at or behind `from`, of the first channel of the network
/// `nid`, or the number of channels where there is none.
pub open spec fn network_index_from(
    channels: Seq<(NetworkId, EpgChannelView)>,
    nid: NetworkId,
    from: int,
) -> int
    decreases channels.len() - from,
{
    if from < 0 || from >= channels.len() {
        channels.len() as int
    } else if channels[from].0 == nid {
        from
    } else {
        network_index_from(channels, nid, from + 1)
    }
}

/// A channel with more services excluded.
pub open spec fn excluding(channel: EpgChannelView, services: Seq<ServiceId>) -> EpgChannelView {
    EpgChannelView { excluded_services: channel.excluded_services + services, ..channel }
}

/// One channel for each network among the first `n` services, in the order
/// in which the networks first appear: the channel of the network's first
/// service, with the excluded services of the channels of its further
/// services added.
pub open spec fn network_channels(services: Seq<EpgServiceView>, n: int) -> Seq<
    (NetworkId, EpgChannelView),
>
    decreases n,
{
    if n <= 0 {
        Seq::empty()
    } else {
        let rest = network_channels(services, n - 1);
        let service = services[n - 1];
        let i = network_index_from(rest, service.nid, 0);
        if i < rest.len() {
            rest.update(i, (service.nid, excluding(rest[i].1, service.channel.excluded_services)))
        } else {
            rest.push((service.nid, service.channel))
        }
    }
}

/// The catalogue entries of a list of services, in its order.
pub open spec fn service_models(services: Seq<EpgServiceView>) -> Seq<ServiceModelView> {
    Seq::new(services.len(), |i: int| services[i].model())
}

/// The estimate of the time a sweep takes: the longest sweep so far and
/// thirty seconds, or an hour where no sweep was timed yet. It never exceeds
/// what a span of time can hold.
pub open spec fn spec_estimate_time(max_elapsed: Option<Millis>) -> Millis {
    match max_elapsed {
        Some(longest) => if longest + 30 * SECOND > i64::MAX {
            i64::MAX
        } else {
            (longest + 30 * SECOND) as i64
        },
        None => HOUR,
    }
}

/// The longest sweep after a sweep of `elapsed` was timed.
pub open spec fn spec_max_elapsed(max_elapsed: Option<Millis>, elapsed: Millis) -> Option<Millis> {
    match max_elapsed {
        Some(longest) => if elapsed <= longest {
            Some(longest)
        } else {
            Some(elapsed)
        },
        None => Some(elapsed),
    }
}

/// The EPG engine.
pub struct Epg {
    pub cache_dir: String,
    pub scan_services: String,
    pub sync_clock: String,
    pub collect_eits: String,
    pub channels: Vec<ChannelConfig>,
    pub services: Vec<EpgService>,
    /// The schedules; the engine keeps one for each service.
    pub schedules: Vec<EpgSchedule>,
    pub max_elapsed: Option<Millis>,
}

/// What an `Epg` holds.
pub struct EpgView {
    pub cache_dir: Seq<char>,
    pub scan_services: Seq<char>,
    pub sync_clock: Seq<char>,
    pub collect_eits: Seq<char>,
    pub channels: Seq<ChannelConfigView>,
    pub services: Seq<EpgServiceView>,
    pub schedules: Seq<EpgScheduleView>,
    pub max_elapsed: Option<Millis>,
}

impl DeepView for Epg {
    type V = EpgView;

    open spec fn deep_view(&self) -> EpgView {
        EpgView {
            cache_dir: self.cache_dir@,
            scan_services: self.scan_services@,
            sync_clock: self.sync_clock@,
            collect_eits: self.collect_eits@,
            channels: self.channels.deep_view(),
            services: self.services.deep_view(),
            schedules: self.schedules.deep_view(),
            max_elapsed: self.max_elapsed,
        }
    }
}

impl Epg {
    /// An engine for the channels that the configuration enables, without
    /// services and schedules.
    pub fn new(config: &Config) -> (r: Self)
        ensures
            r.deep_view() == (EpgView {
                cache_dir: config.epg_cache_dir@,
                scan_services: config.tools.scan_services@,
                sync_clock: config.tools.sync_clock@,
                collect_eits: config.tools.collect_eits@,
                channels: enabled_channels(config.channels.deep_view()),
                services: Seq::empty(),
                schedules: Seq::empty(),
                max_elapsed: None,
            }),
    {
        let mut channels: Vec<ChannelConfig> = Vec::new();
        let ghost all = config.channels.deep_view();
        let mut i: usize = 0;
        while i < config.channels.len()
            invariant
                i <= config.channels.len(),
                all == config.channels.deep_view(),
                channels.deep_view() == enabled_channels(all.take(i as int)),
            decreases config.channels.len() - i,
        {
            proof {
                assert(all.take(i + 1).drop_last() =~= all.take(i as int));
            }
            if !config.channels[i].disabled {
                let channel = config.channels[i].clone();
                channels.push(channel);
            }
            i += 1;
        }
        assert(all.take(config.channels.len() as int) =~= all);
        let r = Epg {
            cache_dir: config.epg_cache_dir.clone(),
            scan_services: config.tools.scan_services.clone(),
            sync_clock: config.tools.sync_clock.clone(),
            collect_eits: config.tools.collect_eits.clone(),
            channels,
            services: Vec::new(),
            schedules: Vec::new(),
            max_elapsed: None,
        };
        assert(r.deep_view().services =~= Seq::empty());
        assert(r.deep_view().schedules =~= Seq::empty());
        r
    }

    pub fn estimate_time(&self) -> (r: Millis)
        ensures
            r == spec_estimate_time(self.max_elapsed),
    {
        match self.max_elapsed {
            Some(max_elapsed) => if max_elapsed > i64::MAX - 30 * SECOND {
                i64::MAX
            } else {
                max_elapsed + 30 * SECOND
            },
            None => HOUR,
        }
    }

    /// Records a sweep of `elapsed` if it took longer than every sweep
    /// before.
    pub fn update_max_elapsed(&mut self, elapsed: Millis)
        ensures
            final(self).deep_view() == (EpgView {
                max_elapsed: spec_max_elapsed(old(self).max_elapsed, elapsed),
                ..old(self).deep_view()
            }),
    {
        let do_update = match self.max_elapsed {
            Some(max_elapsed) => !(elapsed <= max_elapsed),
            None => true,
        };
        if do_update {
            self.max_elapsed = Some(elapsed);
        }
    }

    /// The channels on which services are scanned and clocks are read: all
    /// channels of the engine.
    pub fn collect_channels_for_scanning_services(&self) -> (r: Vec<EpgChannel>)
        ensures
            r.deep_view() == channels_of(self.deep_view().channels),
    {
        let ghost all = self.channels.deep_view();
        let mut r: Vec<EpgChannel> = Vec::new();
        let mut i: usize = 0;
        while i < self.channels.len()
            invariant
                i <= self.channels.len(),
                all == self.channels.deep_view(),
                r.len() == i,
                forall|j: int|
                    0 <= j < i ==> (#[trigger] r[j]).deep_view() == EpgChannelView::of(all[j]),
            decreases self.channels.len() - i,
        {
            r.push(EpgChannel::from(self.channels[i].clone()));
            i += 1;
        }
        r
    }

    /// Whether one of the services has the triple.
    fn has_service(&self, triple: ServiceTriple) -> (r: bool)
        ensures
            r == triples_of(self.deep_view().services).contains(triple),
    {
        let ghost triples = triples_of(self.deep_view().services);
        let mut i: usize = 0;
        while i < self.services.len()
            invariant
                i <= self.services.len(),
                triples == triples_of(self.deep_view().services),
                forall|j: int| 0 <= j < i ==> triples[j] != triple,
            decreases self.services.len() - i,
        {
            assert(triples[i as int] == self.services[i as int].deep_view().triple());
            if self.services[i].triple() == triple {
                return true;
            }
            i += 1;
        }
        false
    }

    /// The place of the schedule of a service, or the number of schedules
    /// where it has none.
    pub fn find_schedule(&self, triple: ServiceTriple) -> (r: usize)
        ensures
            r == schedule_index(self.deep_view().schedules, triple),
            r <= self.schedules.len(),
    {
        let ghost schedules = self.deep_view().schedules;
        let mut i: usize = 0;
        while i < self.schedules.len()
            invariant
                i <= self.schedules.len(),
                schedules == self.deep_view().schedules,
                schedule_index(schedules, triple) == schedule_index_from(schedules, triple, i as int),
            decreases self.schedules.len() - i,
        {
            if self.schedules[i].service_triple == triple {
                return i;
            }
            i += 1;
        }
        i
    }

    /// Makes the schedules ready for an update at `timestamp`: every
    /// service gets a schedule, the schedules that were last touched on an
    /// earlier day save their overnight events, and the schedules of
    /// services that are gone are dropped.
    pub fn prepare_schedules(&mut self, timestamp: Timestamp)
        requires
            has_day_margin(timestamp),
        ensures
            final(self).deep_view() == (EpgView {
                schedules: prepared_schedules(
                    old(self).deep_view().schedules,
                    triples_of(old(self).deep_view().services),
                    timestamp,
                ),
                ..old(self).deep_view()
            }),
            one_schedule_each(old(self).deep_view().schedules) ==> one_schedule_each(
                final(self).deep_view().schedules,
            ),
    {
        let ghost before = self.deep_view();
        let ghost triples = triples_of(before.services);
        proof {
            if one_schedule_each(before.schedules) {
                lemma_prepared_schedules(before.schedules, triples, timestamp);
            }
        }
        let today = midnight(timestamp);
        let mut old_schedules: Vec<EpgSchedule> = Vec::new();
        std::mem::swap(&mut self.schedules, &mut old_schedules);
        let ghost stored = old_schedules@;
        let mut kept: Vec<EpgSchedule> = Vec::new();
        for schedule in it: old_schedules
            invariant
                it.seq() == stored,
                stored.len() == before.schedules.len(),
                forall|j: int|
                    0 <= j < stored.len() ==> (#[trigger] stored[j]).deep_view()
                        == before.schedules[j],
                today == spec_midnight(timestamp as int),
                triples == triples_of(self.deep_view().services),
                kept.deep_view() == kept_schedules(
                    before.schedules,
                    triples,
                    timestamp,
                    it.index() as int,
                ),
        {
            let mut schedule = schedule;
            if self.has_service(schedule.service_triple) {
                if schedule.updated_at < today {
                    schedule.save_overnight_events(today);
                }
                schedule.updated_at = timestamp;
                kept.push(schedule);
            }
        }
        self.schedules = kept;
        let ghost base = self.deep_view().schedules;
        let mut i: usize = 0;
        while i < self.services.len()
            invariant
                i <= self.services.len(),
                triples == triples_of(self.deep_view().services),
                self.deep_view() == (EpgView {
                    schedules: self.deep_view().schedules,
                    ..before
                }),
                self.deep_view().schedules == with_missing_schedules(
                    base,
                    triples,
                    timestamp,
                    i as int,
                ),
            decreases self.services.len() - i,
        {
            let triple = self.services[i].triple();
            if self.find_schedule(triple) >= self.schedules.len() {
                let schedule = EpgSchedule::new(triple, timestamp);
                self.schedules.push(schedule);
            }
            i += 1;
        }
    }

    /// One channel for each network on which a service was found, with the
    /// excluded services of all channels of the network.
    pub fn collect_channels_for_collecting_programs(&self, services: &Vec<EpgService>) -> (r: Vec<
        (NetworkId, EpgChannel),
    >)
        ensures
            r.deep_view() == network_channels(services.deep_view(), services.len() as int),
    {
        let ghost all = services.deep_view();
        let mut r: Vec<(NetworkId, EpgChannel)> = Vec::new();
        let mut i: usize = 0;
        while i < services.len()
            invariant
                i <= services.len(),
                all == services.deep_view(),
                r.deep_view() == network_channels(all, i as int),
            decreases services.len() - i,
        {
            let ghost rest = r.deep_view();
            let nid = services[i].nid;
            let mut k: usize = 0;
            while k < r.len() && r[k].0 != nid
                invariant
                    k <= r.len(),
                    rest == r.deep_view(),
                    network_index_from(rest, nid, 0) == network_index_from(rest, nid, k as int),
                decreases r.len() - k,
            {
                k += 1;
            }
            if k < r.len() {
                let mut j: usize = 0;
                while j < services[i].channel.excluded_services.len()
                    invariant
                        j <= services[i as int].channel.excluded_services.len(),
                        i < services.len(),
                        k < r.len(),
                        r.len() == rest.len(),
                        forall|m: int|
                            0 <= m < r.len() && m != k ==> (#[trigger] r[m]).deep_view() == rest[m],
                        r[k as int].deep_view() == (
                            nid,
                            excluding(
                                rest[k as int].1,
                                services[i as int].channel.excluded_services@.take(j as int),
                            ),
                        ),
                    decreases services[i as int].channel.excluded_services.len() - j,
                {
                    r[k].1.excluded_services.push(services[i].channel.excluded_services[j]);
                    assert(r[k as int].1.excluded_services@ =~= rest[k as int].1.excluded_services
                        + services[i as int].channel.excluded_services@.take(j + 1));
                    j += 1;
                }
                assert(services[i as int].channel.excluded_services@.take(
                    services[i as int].channel.excluded_services.len() as int,
                ) =~= services[i as int].channel.excluded_services@);
            } else {
                r.push((nid, services[i].channel.clone()));
            }
            i += 1;
        }
        r
    }

    /// Stores sections in the schedules of their services, in order. A
    /// section of a service without a schedule is ignored.
    pub fn update_tables(&mut self, sections: Vec<EitSection>)
        requires
            sections_fit(old(self).deep_view().schedules, sections.deep_view()),
        ensures
            final(self).deep_view() == (EpgView {
                schedules: with_sections(
                    old(self).deep_view().schedules,
                    sections.deep_view(),
                    sections.len() as int,
                ),
                ..old(self).deep_view()
            }),
            one_schedule_each(old(self).deep_view().schedules) ==> one_schedule_each(
                final(self).deep_view().schedules,
            ),
    {
        let ghost before = self.deep_view();
        let ghost all = sections.deep_view();
        let ghost stored = sections@;
        proof {
            lemma_with_sections(before.schedules, all, all.len() as int);
        }
        for section in it: sections
            invariant
                it.seq() == stored,
                stored.len() == all.len(),
                forall|j: int| 0 <= j < stored.len() ==> (#[trigger] stored[j]).deep_view() == all[j],
                sections_fit(before.schedules, all),
                self.deep_view() == (EpgView {
                    schedules: with_sections(before.schedules, all, it.index() as int),
                    ..before
                }),
        {
            let ghost prior = self.deep_view().schedules;
            proof {
                lemma_with_sections(before.schedules, all, it.index() as int);
                lemma_same_services_same_place(
                    prior,
                    before.schedules,
                    all[it.index() as int].service_triple(),
                    0,
                );
            }
            let i = self.find_schedule(section.service_triple());
            if i < self.schedules.len() {
                self.schedules[i].update(section);
                assert(self.deep_view().schedules =~= with_section(prior, all[it.index() as int]));
            }
        }
    }

    /// The services for the catalogue.
    pub fn collect_epg_services(&self) -> (r: Vec<ServiceModel>)
        ensures
            r.deep_view() == service_models(self.deep_view().services),
    {
        let ghost all = self.services.deep_view();
        let mut r: Vec<ServiceModel> = Vec::new();
        let mut i: usize = 0;
        while i < self.services.len()
            invariant
                i <= self.services.len(),
                all == self.services.deep_view(),
                r.len() == i,
                forall|j: int| 0 <= j < i ==> (#[trigger] r[j]).deep_view() == all[j].model(),
            decreases self.services.len() - i,
        {
            r.push(self.services[i].clone().into_model());
            i += 1;
        }
        r
    }

    /// The programs for the catalogue: the schedules collected one after
    /// the other, each under the triple of its service.
    pub fn collect_epg_programs(&self) -> (r: HashMap<u64, ProgramModel>)
        ensures
            catalogue(r@) == collected_programs(
                Map::empty(),
                self.deep_view().schedules,
                self.schedules.len() as int,
            ),
    {
        let ghost schedules = self.deep_view().schedules;
        let mut programs: HashMap<u64, ProgramModel> = HashMap::new();
        let mut i: usize = 0;
        while i < self.schedules.len()
            invariant
                i <= self.schedules.len(),
                schedules == self.deep_view().schedules,
                catalogue(programs@) == collected_programs(Map::empty(), schedules, i as int),
            decreases self.schedules.len() - i,
        {
            self.schedules[i].collect_epg_programs(self.schedules[i].service_triple, &mut programs);
            i += 1;
        }
        programs
    }
}

/// Whether no two schedules belong to the same service.
pub open spec fn one_schedule_each(schedules: Seq<EpgScheduleView>) -> bool {
    forall|i: int, j: int|
        0 <= i < j < schedules.len() ==> (#[trigger] schedules[i]).service_triple != (
        #[trigger] schedules[j]).service_triple
}

/// The place that is found for a service lies between where the search
/// starts and the number of schedules; a schedule that is found belongs to
/// the service, and where none is found, none at or behind the start
/// belongs to it.
pub proof fn lemma_schedule_index(
    schedules: Seq<EpgScheduleView>,
    triple: ServiceTriple,
    from: int,
)
    requires
        0 <= from <= schedules.len(),
    ensures
        from <= schedule_index_from(schedules, triple, from) <= schedules.len(),
        schedule_index_from(schedules, triple, from) < schedules.len()
            ==> schedules[schedule_index_from(schedules, triple, from)].service_triple == triple,
        forall|k: int|
            from <= k < schedule_index_from(schedules, triple, from) ==> (
            #[trigger] schedules[k]).service_triple != triple,
    decreases schedules.len() - from,
{
    if from < schedules.len() && schedules[from].service_triple != triple {
        lemma_schedule_index(schedules, triple, from + 1);
    }
}

/// Every schedule that is kept belongs to the service of one of the first
/// `n` old schedules, and where the old schedules had one schedule for each
/// service, so have the kept ones.
pub proof fn lemma_kept_schedules(
    schedules: Seq<EpgScheduleView>,
    triples: Seq<ServiceTriple>,
    now: Timestamp,
    n: int,
)
    requires
        0 <= n <= schedules.len(),
        one_schedule_each(schedules),
    ensures
        one_schedule_each(kept_schedules(schedules, triples, now, n)),
        forall|a: int|
            0 <= a < kept_schedules(schedules, triples, now, n).len() ==> exists|k: int|
                0 <= k < n && (#[trigger] schedules[k]).service_triple == (
                #[trigger] kept_schedules(schedules, triples, now, n)[a]).service_triple,
    decreases n,
{
    if n > 0 {
        lemma_kept_schedules(schedules, triples, now, n - 1);
        let rest = kept_schedules(schedules, triples, now, n - 1);
        let kept = kept_schedules(schedules, triples, now, n);
        assert forall|a: int| 0 <= a < kept.len() implies exists|k: int|
            0 <= k < n && (#[trigger] schedules[k]).service_triple == (
            #[trigger] kept[a]).service_triple by {
            if a < rest.len() {
                assert(kept[a] == rest[a]);
                let k = choose|k: int|
                    0 <= k < n - 1 && (#[trigger] schedules[k]).service_triple == rest[a].service_triple;
                assert(0 <= k < n && schedules[k].service_triple == kept[a].service_triple);
            } else {
                assert(schedules[n - 1].service_triple == kept[a].service_triple);
            }
        }
        assert forall|i: int, j: int| 0 <= i < j < kept.len() implies (
        #[trigger] kept[i]).service_triple != (#[trigger] kept[j]).service_triple by {
            if j < rest.len() {
                assert(kept[i] == rest[i] && kept[j] == rest[j]);
            } else {
                assert(kept[i] == rest[i]);
                let k = choose|k: int|
                    0 <= k < n - 1 && (#[trigger] schedules[k]).service_triple == rest[i].service_triple;
                assert(schedules[k].service_triple != schedules[n - 1].service_triple);
            }
        }
    }
}

/// Adding the missing schedules keeps one schedule for each service.
pub proof fn lemma_with_missing_schedules(
    schedules: Seq<EpgScheduleView>,
    triples: Seq<ServiceTriple>,
    now: Timestamp,
    n: int,
)
    requires
        0 <= n <= triples.len(),
        one_schedule_each(schedules),
    ensures
        one_schedule_each(with_missing_schedules(schedules, triples, now, n)),
    decreases n,
{
    if n > 0 {
        lemma_with_missing_schedules(schedules, triples, now, n - 1);
        let rest = with_missing_schedules(schedules, triples, now, n - 1);
        let after = with_missing_schedules(schedules, triples, now, n);
        lemma_schedule_index(rest, triples[n - 1], 0);
        assert forall|i: int, j: int| 0 <= i < j < after.len() implies (
        #[trigger] after[i]).service_triple != (#[trigger] after[j]).service_triple by {
            if j < rest.len() {
                assert(after[i] == rest[i] && after[j] == rest[j]);
            } else {
                assert(after[i] == rest[i]);
            }
        }
    }
}

/// Making the schedules ready keeps one schedule for each service.
pub proof fn lemma_prepared_schedules(
    schedules: Seq<EpgScheduleView>,
    triples: Seq<ServiceTriple>,
    now: Timestamp,
)
    requires
        one_schedule_each(schedules),
    ensures
        one_schedule_each(prepared_schedules(schedules, triples, now)),
{
    lemma_kept_schedules(schedules, triples, now, schedules.len() as int);
    lemma_with_missing_schedules(
        kept_schedules(schedules, triples, now, schedules.len() as int),
        triples,
        now,
        triples.len() as int,
    );
}

/// Storing sections changes no schedule's service and adds no schedule, so
/// it keeps one schedule for each service.
pub proof fn lemma_with_sections(
    schedules: Seq<EpgScheduleView>,
    sections: Seq<EitSectionView>,
    n: int,
)
    requires
        0 <= n <= sections.len(),
    ensures
        with_sections(schedules, sections, n).len() == schedules.len(),
        forall|i: int|
            0 <= i < schedules.len() ==> (#[trigger] with_sections(
                schedules,
                sections,
                n,
            )[i]).service_triple == schedules[i].service_triple,
        one_schedule_each(schedules) ==> one_schedule_each(with_sections(schedules, sections, n)),
    decreases n,
{
    if n > 0 {
        lemma_with_sections(schedules, sections, n - 1);
        let rest = with_sections(schedules, sections, n - 1);
        lemma_schedule_index(rest, sections[n - 1].service_triple(), 0);
        let after = with_sections(schedules, sections, n);
        assert forall|i: int| 0 <= i < schedules.len() implies (#[trigger] after[i]).service_triple
            == schedules[i].service_triple by {
            assert(rest[i].service_triple == schedules[i].service_triple);
        }
        if one_schedule_each(schedules) {
            assert forall|i: int, j: int| 0 <= i < j < after.len() implies (
            #[trigger] after[i]).service_triple != (#[trigger] after[j]).service_triple by {
                assert(schedules[i].service_triple != schedules[j].service_triple);
            }
        }
    }
}

/// Whether one of the schedules belongs to the service `triple`.
pub open spec fn has_schedule(schedules: Seq<EpgScheduleView>, triple: ServiceTriple) -> bool {
    exists|i: int| 0 <= i < schedules.len() && (#[trigger] schedules[i]).service_triple == triple
}

/// What the schedule of the service `triple` is after the schedules were
/// made ready at `now`: the old schedule of the service made ready, or a new
/// one where the service had none.
pub open spec fn ready_schedule(
    schedules: Seq<EpgScheduleView>,
    triple: ServiceTriple,
    now: Timestamp,
) -> EpgScheduleView {
    let k = schedule_index(schedules, triple);
    if k < schedules.len() {
        prepared(schedules[k], now)
    } else {
        EpgScheduleView::empty(triple, now)
    }
}

/// Whether `schedule` is one of the first `n` old schedules, of one of the
/// services, made ready.
pub open spec fn is_kept_from(
    schedules: Seq<EpgScheduleView>,
    triples: Seq<ServiceTriple>,
    now: Timestamp,
    n: int,
    schedule: EpgScheduleView,
) -> bool {
    exists|k: int|
        0 <= k < n && triples.contains((#[trigger] schedules[k]).service_triple) && schedule
            == prepared(schedules[k], now)
}

/// What is kept: each kept schedule is an old schedule of one of the
/// services, made ready, and each old schedule of one of the services is
/// kept.
pub proof fn lemma_kept_schedules_by_service(
    schedules: Seq<EpgScheduleView>,
    triples: Seq<ServiceTriple>,
    now: Timestamp,
    n: int,
)
    requires
        0 <= n <= schedules.len(),
    ensures
        forall|a: int|
            0 <= a < kept_schedules(schedules, triples, now, n).len() ==> is_kept_from(
                schedules,
                triples,
                now,
                n,
                #[trigger] kept_schedules(schedules, triples, now, n)[a],
            ),
        forall|k: int|
            0 <= k < n && triples.contains((#[trigger] schedules[k]).service_triple)
                ==> has_schedule(
                kept_schedules(schedules, triples, now, n),
                schedules[k].service_triple,
            ),
    decreases n,
{
    if n > 0 {
        lemma_kept_schedules_by_service(schedules, triples, now, n - 1);
        let rest = kept_schedules(schedules, triples, now, n - 1);
        let kept = kept_schedules(schedules, triples, now, n);
        assert forall|a: int| 0 <= a < kept.len() implies is_kept_from(
            schedules,
            triples,
            now,
            n,
            #[trigger] kept[a],
        ) by {
            if a < rest.len() {
                assert(kept[a] == rest[a]);
                assert(is_kept_from(schedules, triples, now, n - 1, rest[a]));
                let k = choose|k: int|
                    0 <= k < n - 1 && triples.contains((#[trigger] schedules[k]).service_triple)
                        && rest[a] == prepared(schedules[k], now);
                assert(0 <= k < n && triples.contains(schedules[k].service_triple) && kept[a]
                    == prepared(schedules[k], now));
            } else {
                assert(triples.contains(schedules[n - 1].service_triple) && kept[a] == prepared(
                    schedules[n - 1],
                    now,
                ));
            }
        }
        assert forall|k: int|
            0 <= k < n && triples.contains((#[trigger] schedules[k]).service_triple) implies has_schedule(
            kept,
            schedules[k].service_triple,
        ) by {
            if k < n - 1 {
                assert(has_schedule(rest, schedules[k].service_triple));
                let a = choose|a: int|
                    0 <= a < rest.len() && (#[trigger] rest[a]).service_triple
                        == schedules[k].service_triple;
                assert(kept[a] == rest[a]);
            } else {
                assert(kept[kept.len() - 1].service_triple == schedules[k].service_triple);
            }
        }
    }
}

/// What is added: the schedules that were there stay in front, and each
/// further one is a new schedule of one of the services that had none;
/// afterwards each of the first `n` services has a schedule.
pub proof fn lemma_missing_schedules_by_service(
    schedules: Seq<EpgScheduleView>,
    triples: Seq<ServiceTriple>,
    now: Timestamp,
    n: int,
)
    requires
        0 <= n <= triples.len(),
    ensures
        with_missing_schedules(schedules, triples, now, n).len() >= schedules.len(),
        forall|i: int|
            0 <= i < schedules.len() ==> (#[trigger] with_missing_schedules(
                schedules,
                triples,
                now,
                n,
            )[i]) == schedules[i],
        forall|i: int|
            schedules.len() <= i < with_missing_schedules(schedules, triples, now, n).len()
                ==> triples.contains(
                (#[trigger] with_missing_schedules(schedules, triples, now, n)[i]).service_triple,
            ) && !has_schedule(
                schedules,
                with_missing_schedules(schedules, triples, now, n)[i].service_triple,
            ) && with_missing_schedules(schedules, triples, now, n)[i] == EpgScheduleView::empty(
                with_missing_schedules(schedules, triples, now, n)[i].service_triple,
                now,
            ),
        forall|m: int|
            0 <= m < n ==> has_schedule(
                with_missing_schedules(schedules, triples, now, n),
                #[trigger] triples[m],
            ),
    decreases n,
{
    if n > 0 {
        lemma_missing_schedules_by_service(schedules, triples, now, n - 1);
        let rest = with_missing_schedules(schedules, triples, now, n - 1);
        let after = with_missing_schedules(schedules, triples, now, n);
        let t = triples[n - 1];
        lemma_schedule_index(rest, t, 0);
        assert forall|i: int| schedules.len() <= i < after.len() implies triples.contains(
            (#[trigger] after[i]).service_triple,
        ) && !has_schedule(schedules, after[i].service_triple) && after[i]
            == EpgScheduleView::empty(after[i].service_triple, now) by {
            if i < rest.len() {
                assert(after[i] == rest[i]);
            } else {
                assert(after[i] == EpgScheduleView::empty(t, now));
                assert(triples[n - 1] == t);
                if has_schedule(schedules, t) {
                    let k = choose|k: int|
                        0 <= k < schedules.len() && (#[trigger] schedules[k]).service_triple == t;
                    assert(rest[k] == schedules[k]);
                    assert(rest[k].service_triple == t);
                }
            }
        }
        assert forall|m: int| 0 <= m < n implies has_schedule(after, #[trigger] triples[m]) by {
            if m < n - 1 {
                assert(has_schedule(rest, triples[m]));
                let a = choose|a: int|
                    0 <= a < rest.len() && (#[trigger] rest[a]).service_triple == triples[m];
                assert(after[a] == rest[a]);
            } else if schedule_index(rest, t) < rest.len() {
                let a = schedule_index(rest, t);
                assert(after[a].service_triple == t);
            } else {
                assert(after[after.len() - 1].service_triple == t);
            }
        }
    }
}

/// In schedules with one schedule for each service, a schedule is found at
/// its own place.
pub proof fn lemma_found_at_own_place(schedules: Seq<EpgScheduleView>, k: int)
    requires
        one_schedule_each(schedules),
        0 <= k < schedules.len(),
    ensures
        schedule_index(schedules, schedules[k].service_triple) == k,
{
    lemma_schedule_index(schedules, schedules[k].service_triple, 0);
    let found = schedule_index(schedules, schedules[k].service_triple);
    if found < k {
        assert(schedules[found].service_triple != schedules[k].service_triple);
    }
}

/// What making ready means for each service. After the schedules were made
/// ready, every service has a schedule and every schedule belongs to a
/// service; the schedule of a service is its old schedule made ready, or a
/// new one where it had none.
pub proof fn lemma_prepared_schedules_by_service(
    schedules: Seq<EpgScheduleView>,
    triples: Seq<ServiceTriple>,
    now: Timestamp,
)
    requires
        one_schedule_each(schedules),
    ensures
        forall|triple: ServiceTriple|
            triples.contains(triple) <==> #[trigger] has_schedule(
                prepared_schedules(schedules, triples, now),
                triple,
            ),
        forall|i: int|
            0 <= i < prepared_schedules(schedules, triples, now).len() ==> (
            #[trigger] prepared_schedules(schedules, triples, now)[i]) == ready_schedule(
                schedules,
                prepared_schedules(schedules, triples, now)[i].service_triple,
                now,
            ),
{
    let kept = kept_schedules(schedules, triples, now, schedules.len() as int);
    let ready = prepared_schedules(schedules, triples, now);
    lemma_kept_schedules_by_service(schedules, triples, now, schedules.len() as int);
    lemma_missing_schedules_by_service(kept, triples, now, triples.len() as int);
    assert forall|i: int| 0 <= i < ready.len() implies triples.contains(
        (#[trigger] ready[i]).service_triple,
    ) && ready[i] == ready_schedule(schedules, ready[i].service_triple, now) by {
        if i < kept.len() {
            assert(ready[i] == kept[i]);
            assert(is_kept_from(schedules, triples, now, schedules.len() as int, kept[i]));
            let k = choose|k: int|
                0 <= k < schedules.len() && triples.contains(
                    (#[trigger] schedules[k]).service_triple,
                ) && kept[i] == prepared(schedules[k], now);
            lemma_found_at_own_place(schedules, k);
        } else {
            let t = ready[i].service_triple;
            lemma_schedule_index(schedules, t, 0);
            let k = schedule_index(schedules, t);
            if k < schedules.len() {
                assert(schedules[k].service_triple == t);
                assert(has_schedule(kept, schedules[k].service_triple));
            }
        }
    }
    assert forall|triple: ServiceTriple| triples.contains(triple) <==> #[trigger] has_schedule(
        ready,
        triple,
    ) by {
        if triples.contains(triple) {
            let m = choose|m: int| 0 <= m < triples.len() && triples[m] == triple;
            assert(has_schedule(ready, triples[m]));
        }
        if has_schedule(ready, triple) {
            let i = choose|i: int|
                0 <= i < ready.len() && (#[trigger] ready[i]).service_triple == triple;
            assert(triples.contains(ready[i].service_triple));
        }
    }
}

/// Where no channel of a network is found at or behind a place, none that
/// stands there belongs to the network; a channel that is found does.
pub proof fn lemma_network_index(
    channels: Seq<(NetworkId, EpgChannelView)>,
    nid: NetworkId,
    from: int,
)
    requires
        0 <= from <= channels.len(),
    ensures
        from <= network_index_from(channels, nid, from) <= channels.len(),
        network_index_from(channels, nid, from) < channels.len() ==> channels[network_index_from(
            channels,
            nid,
            from,
        )].0 == nid,
        forall|k: int|
            from <= k < network_index_from(channels, nid, from) ==> (#[trigger] channels[k]).0
                != nid,
    decreases channels.len() - from,
{
    if from < channels.len() && channels[from].0 != nid {
        lemma_network_index(channels, nid, from + 1);
    }
}

/// No network has two channels, and every service's network has one.
pub proof fn lemma_one_channel_each(services: Seq<EpgServiceView>, n: int)
    requires
        0 <= n <= services.len(),
    ensures
        forall|i: int, j: int|
            0 <= i < j < network_channels(services, n).len() ==> (#[trigger] network_channels(
                services,
                n,
            )[i]).0 != (#[trigger] network_channels(services, n)[j]).0,
        forall|m: int|
            0 <= m < n ==> network_index_from(
                network_channels(services, n),
                (#[trigger] services[m]).nid,
                0,
            ) < network_channels(services, n).len(),
    decreases n,
{
    if n > 0 {
        lemma_one_channel_each(services, n - 1);
        let rest = network_channels(services, n - 1);
        let after = network_channels(services, n);
        let nid = services[n - 1].nid;
        lemma_network_index(rest, nid, 0);
        assert forall|i: int, j: int| 0 <= i < j < after.len() implies (#[trigger] after[i]).0 != (
        #[trigger] after[j]).0 by {
            if after.len() == rest.len() {
                assert(after[i].0 == rest[i].0 && after[j].0 == rest[j].0);
            } else if j < rest.len() {
                assert(after[i] == rest[i] && after[j] == rest[j]);
            } else {
                assert(after[i] == rest[i]);
            }
        }
        assert forall|m: int| 0 <= m < n implies network_index_from(
            after,
            (#[trigger] services[m]).nid,
            0,
        ) < after.len() by {
            let wanted = services[m].nid;
            lemma_network_index(after, wanted, 0);
            if m < n - 1 {
                lemma_network_index(rest, wanted, 0);
                let k = network_index_from(rest, wanted, 0);
                assert(after[k].0 == wanted);
            } else {
                let k = network_index_from(rest, nid, 0);
                if k < rest.len() {
                    assert(after[k].0 == nid);
                } else {
                    assert(after[after.len() - 1].0 == nid);
                }
            }
        }
    }
}

/// In two lists of schedules that agree on the service at each place, the
/// schedule of a service is found at the same place.
pub proof fn lemma_same_services_same_place(
    a: Seq<EpgScheduleView>,
    b: Seq<EpgScheduleView>,
    triple: ServiceTriple,
    from: int,
)
    requires
        a.len() == b.len(),
        forall|i: int| 0 <= i < a.len() ==> (#[trigger] a[i]).service_triple == b[i].service_triple,
        0 <= from <= a.len(),
    ensures
        schedule_index_from(a, triple, from) == schedule_index_from(b, triple, from),
    decreases a.len() - from,
{
    if from < a.len() {
        assert(a[from].service_triple == b[from].service_triple);
        if a[from].service_triple != triple {
            lemma_same_services_same_place(a, b, triple, from + 1);
        }
    }
}

} // verus!
