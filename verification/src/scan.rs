//! The scan of services: a sweep over all channels that asks each for the
//! services it carries.
//!
//! The engine decides what is done next; the caller opens the tuner, pipes
//! its output through the scanner, stores the result, and reports back.

use vstd::prelude::*;
use crate::epg::{channels_of, scan_services_time_limit, spec_scan_services_time_limit, Epg,
    EpgView};
use crate::jst::HOUR;
use crate::models::Millis;
use crate::service::{EpgChannel, EpgChannelView, EpgService, EpgServiceView, OpenTunerMessage,
    OpenTunerMessageView, TsService, TsServiceView};

verus! {

/// Where a task stands.
#[derive(Clone, Copy, Debug, PartialEq, Eq, Structural)]
pub enum SweepPhase {
    /// The task does not run.
    Idle,
    /// The task waits for the result of a channel.
    Sweeping,
    /// The task waits for its result to be stored.
    Saving,
}

/// A scan of services in progress.
pub struct ServiceScan {
    pub phase: SweepPhase,
    pub channels: Vec<EpgChannel>,
    /// The place of the channel whose result is awaited.
    pub index: usize,
    /// The services found so far.
    pub services: Vec<EpgService>,
}

/// What a `ServiceScan` holds.
pub struct ServiceScanView {
    pub phase: SweepPhase,
    pub channels: Seq<EpgChannelView>,
    pub index: usize,
    pub services: Seq<EpgServiceView>,
}

impl DeepView for ServiceScan {
    type V = ServiceScanView;

    open spec fn deep_view(&self) -> ServiceScanView {
        ServiceScanView {
            phase: self.phase,
            channels: self.channels.deep_view(),
            index: self.index,
            services: self.services.deep_view(),
        }
    }
}

/// What happened to a scan of services.
pub enum ScanServicesEvent {
    /// The scan is due.
    Started,
    /// The scanner reported the services of the channel.
    Scanned(Vec<TsService>),
    /// The scanner's report could not be read: the broadcast may be
    /// suspended.
    Suspended,
    /// The tuner could not be opened or piped through the scanner.
    Failed,
    /// The services were stored.
    Saved,
    /// The services could not be stored.
    SaveFailed,
}

/// What a `ScanServicesEvent` holds.
pub enum ScanServicesEventView {
    Started,
    Scanned(Seq<TsServiceView>),
    Suspended,
    Failed,
    Saved,
    SaveFailed,
}

impl DeepView for ScanServicesEvent {
    type V = ScanServicesEventView;

    open spec fn deep_view(&self) -> ScanServicesEventView {
        match *self {
            ScanServicesEvent::Started => ScanServicesEventView::Started,
            ScanServicesEvent::Scanned(services) => ScanServicesEventView::Scanned(
                services.deep_view(),
            ),
            ScanServicesEvent::Suspended => ScanServicesEventView::Suspended,
            ScanServicesEvent::Failed => ScanServicesEventView::Failed,
            ScanServicesEvent::Saved => ScanServicesEventView::Saved,
            ScanServicesEvent::SaveFailed => ScanServicesEventView::SaveFailed,
        }
    }
}

/// What the caller does next for a scan of services.
pub enum ScanServicesAction {
    /// Open a tuner with this request, pipe it through the scanner and
    /// report what the scanner says.
    Scan(OpenTunerMessage),
    /// Store the services of the engine and report whether that worked.
    Save,
    /// Start the scan again after this time.
    RunLater(Millis),
}

/// What a `ScanServicesAction` holds.
pub enum ScanServicesActionView {
    Scan(OpenTunerMessageView),
    Save,
    RunLater(Millis),
}

impl DeepView for ScanServicesAction {
    type V = ScanServicesActionView;

    open spec fn deep_view(&self) -> ScanServicesActionView {
        match *self {
            ScanServicesAction::Scan(message) => ScanServicesActionView::Scan(message.deep_view()),
            ScanServicesAction::Save => ScanServicesActionView::Save,
            ScanServicesAction::RunLater(delay) => ScanServicesActionView::RunLater(delay),
        }
    }
}

/// The time after which a scan that ended well is started again.
pub const SCAN_SERVICES_INTERVAL: Millis = 82_800_000;

/// The time after which a scan that failed is started again.
pub const SCAN_SERVICES_RETRY: Millis = 3_600_000;

/// The engine, the scan and the next action after a step.
pub struct ScanStep {
    pub epg: EpgView,
    pub scan: ServiceScanView,
    pub action: ScanServicesActionView,
}

/// The services that were found on a channel.
pub open spec fn found_services(channel: EpgChannelView, found: Seq<TsServiceView>) -> Seq<
    EpgServiceView,
> {
    Seq::new(found.len(), |i: int| EpgServiceView::of(channel, found[i]))
}

/// The request with which the services of a channel are scanned.
pub open spec fn scan_request(channel: EpgChannelView) -> OpenTunerMessageView {
    OpenTunerMessageView::for_epg(
        channel,
        Some(spec_scan_services_time_limit(channel.channel_type)),
    )
}

/// Whether a scan awaits the result of a channel.
pub open spec fn awaits_channel(scan: ServiceScanView) -> bool {
    scan.phase == SweepPhase::Sweeping && scan.index < scan.channels.len()
}

/// The events that make sense for a scan: the result of a channel only
/// while one is awaited, the result of storing only while it is awaited.
pub open spec fn scan_accepts(scan: ServiceScanView, event: ScanServicesEventView) -> bool {
    match event {
        ScanServicesEventView::Started => true,
        ScanServicesEventView::Scanned(_) => awaits_channel(scan),
        ScanServicesEventView::Suspended => awaits_channel(scan),
        ScanServicesEventView::Failed => true,
        ScanServicesEventView::Saved => scan.phase == SweepPhase::Saving,
        ScanServicesEventView::SaveFailed => scan.phase == SweepPhase::Saving,
    }
}

/// What follows when the scan stands before the channel at `scan.index`:
/// that channel is scanned, or, behind the last channel, the services that
/// were found replace the services of the engine and are stored.
pub open spec fn scan_onward(epg: EpgView, scan: ServiceScanView) -> ScanStep {
    if scan.index < scan.channels.len() {
        ScanStep {
            epg,
            scan: ServiceScanView { phase: SweepPhase::Sweeping, ..scan },
            action: ScanServicesActionView::Scan(scan_request(scan.channels[scan.index as int])),
        }
    } else {
        ScanStep {
            epg: EpgView { services: scan.services, ..epg },
            scan: ServiceScanView { phase: SweepPhase::Saving, services: Seq::empty(), ..scan },
            action: ScanServicesActionView::Save,
        }
    }
}

/// One step of the scan of services.
pub open spec fn scan_step(epg: EpgView, scan: ServiceScanView, event: ScanServicesEventView)
    -> ScanStep {
    match event {
        ScanServicesEventView::Started => scan_onward(
            epg,
            ServiceScanView {
                phase: SweepPhase::Sweeping,
                channels: channels_of(epg.channels),
                index: 0,
                services: Seq::empty(),
            },
        ),
        ScanServicesEventView::Scanned(found) => scan_onward(
            epg,
            ServiceScanView {
                index: (scan.index + 1) as usize,
                services: scan.services + found_services(scan.channels[scan.index as int], found),
                ..scan
            },
        ),
        ScanServicesEventView::Suspended => scan_onward(
            epg,
            ServiceScanView { index: (scan.index + 1) as usize, ..scan },
        ),
        ScanServicesEventView::Failed => ScanStep {
            epg,
            scan: ServiceScanView { phase: SweepPhase::Idle, ..scan },
            action: ScanServicesActionView::RunLater(SCAN_SERVICES_RETRY),
        },
        ScanServicesEventView::Saved => ScanStep {
            epg,
            scan: ServiceScanView { phase: SweepPhase::Idle, ..scan },
            action: ScanServicesActionView::RunLater(SCAN_SERVICES_INTERVAL),
        },
        ScanServicesEventView::SaveFailed => ScanStep {
            epg,
            scan: ServiceScanView { phase: SweepPhase::Idle, ..scan },
            action: ScanServicesActionView::RunLater(SCAN_SERVICES_RETRY),
        },
    }
}

impl ServiceScan {
    /// A scan that does not run.
    pub fn new() -> (r: Self)
        ensures
            r.deep_view() == (ServiceScanView {
                phase: SweepPhase::Idle,
                channels: Seq::empty(),
                index: 0,
                services: Seq::empty(),
            }),
    {
        let r = ServiceScan {
            phase: SweepPhase::Idle,
            channels: Vec::new(),
            index: 0,
            services: Vec::new(),
        };
        assert(r.deep_view().channels =~= Seq::empty());
        assert(r.deep_view().services =~= Seq::empty());
        r
    }

    /// Whether the scan awaits the result of a channel.
    pub fn awaits_channel(&self) -> (r: bool)
        ensures
            r == awaits_channel(self.deep_view()),
    {
        self.phase == SweepPhase::Sweeping && self.index < self.channels.len()
    }

    /// Whether the scan awaits the result of storing.
    pub fn awaits_saving(&self) -> (r: bool)
        ensures
            r == (self.deep_view().phase == SweepPhase::Saving),
    {
        self.phase == SweepPhase::Saving
    }
}

impl Epg {
    /// Goes on with the scan at the channel at `scan.index`.
    fn scan_services_onward(&mut self, scan: &mut ServiceScan) -> (action: ScanServicesAction)
        ensures
            (ScanStep {
                epg: final(self).deep_view(),
                scan: final(scan).deep_view(),
                action: action.deep_view(),
            }) == scan_onward(old(self).deep_view(), old(scan).deep_view()),
    {
        if scan.index < scan.channels.len() {
            scan.phase = SweepPhase::Sweeping;
            let channel = &scan.channels[scan.index];
            ScanServicesAction::Scan(
                OpenTunerMessage::for_epg(
                    channel,
                    Some(scan_services_time_limit(channel.channel_type)),
                ),
            )
        } else {
            let mut services: Vec<EpgService> = Vec::new();
            std::mem::swap(&mut scan.services, &mut services);
            assert(scan.services.deep_view() =~= Seq::empty());
            self.services = services;
            scan.phase = SweepPhase::Saving;
            ScanServicesAction::Save
        }
    }

    /// One step of the scan of services: takes what happened and says what
    /// is done next. A scan that ended well is started again after
    /// twenty-three hours, one that failed after one hour.
    pub fn scan_services(&mut self, scan: &mut ServiceScan, event: ScanServicesEvent) -> (action:
        ScanServicesAction)
        requires
            scan_accepts(old(scan).deep_view(), event.deep_view()),
        ensures
            (ScanStep {
                epg: final(self).deep_view(),
                scan: final(scan).deep_view(),
                action: action.deep_view(),
            }) == scan_step(old(self).deep_view(), old(scan).deep_view(), event.deep_view()),
    {
        match event {
            ScanServicesEvent::Started => {
                scan.channels = self.collect_channels_for_scanning_services();
                scan.index = 0;
                scan.services = Vec::new();
                scan.phase = SweepPhase::Sweeping;
                assert(scan.services.deep_view() =~= Seq::empty());
                self.scan_services_onward(scan)
            },
            ScanServicesEvent::Scanned(found) => {
                let ghost before = scan.deep_view();
                let ghost channel = before.channels[before.index as int];
                let ghost list = found.deep_view();
                let mut i: usize = 0;
                while i < found.len()
                    invariant
                        i <= found.len(),
                        list == found.deep_view(),
                        scan.index < scan.channels.len(),
                        channel == scan.channels[scan.index as int].deep_view(),
                        scan.deep_view() == (ServiceScanView {
                            services: scan.deep_view().services,
                            ..before
                        }),
                        scan.deep_view().services == before.services + found_services(
                            channel,
                            list.take(i as int),
                        ),
                    decreases found.len() - i,
                {
                    let ghost prior = scan.services.deep_view();
                    let service = EpgService::from(&scan.channels[scan.index], &found[i]);
                    scan.services.push(service);
                    assert(scan.services.deep_view() =~= prior.push(service.deep_view()));
                    i += 1;
                }
                assert(list.take(found.len() as int) =~= list);
                scan.index += 1;
                self.scan_services_onward(scan)
            },
            ScanServicesEvent::Suspended => {
                assert(scan.deep_view().channels.len() == scan.channels.len());
                scan.index += 1;
                self.scan_services_onward(scan)
            },
            ScanServicesEvent::Failed => {
                scan.phase = SweepPhase::Idle;
                ScanServicesAction::RunLater(HOUR)
            },
            ScanServicesEvent::Saved => {
                scan.phase = SweepPhase::Idle;
                ScanServicesAction::RunLater(23 * HOUR)
            },
            ScanServicesEvent::SaveFailed => {
                scan.phase = SweepPhase::Idle;
                ScanServicesAction::RunLater(HOUR)
            },
        }
    }
}

} // verus!
