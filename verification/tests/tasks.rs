use chrono::{FixedOffset, TimeZone};
use mirakc::clocks::{make_clock_map, ClockSync, SyncClocksAction, SyncClocksEvent};
use mirakc::config::{ChannelConfig, Config, ToolsConfig};
use mirakc::eit::{EitEvent, EitSection};
use mirakc::epg::{collect_eits_time_limit, scan_services_time_limit, Epg};
use mirakc::models::{ChannelType, Clock, ServiceTriple};
use mirakc::scan::{ScanServicesAction, ScanServicesEvent, ServiceScan, SweepPhase};
use mirakc::schedule::EpgSchedule;
use mirakc::service::{EpgChannel, EpgService, OpenTunerBy, OpenTunerMessage, SyncClock, TsService};
use mirakc::update::{elapsed, EpgTask, ScheduleUpdate, UpdateSchedulesAction, UpdateSchedulesEvent};
use mirakc::user::TunerUserInfo;

const SECOND: i64 = 1_000;
const MINUTE: i64 = 60_000;
const HOUR: i64 = 3_600_000;

fn jst(year: i32, month: u32, day: u32, hour: u32, min: u32, sec: u32) -> i64 {
    FixedOffset::east_opt(9 * 3600)
        .unwrap()
        .with_ymd_and_hms(year, month, day, hour, min, sec)
        .unwrap()
        .timestamp_millis()
}

fn channel(name: &str, channel_type: ChannelType, excluded: Vec<u16>, disabled: bool) -> ChannelConfig {
    ChannelConfig {
        name: name.to_string(),
        channel_type,
        channel: format!("ch-{}", name),
        excluded_services: excluded,
        disabled,
    }
}

fn epg_with(channels: Vec<ChannelConfig>) -> Epg {
    Epg::new(&Config {
        epg_cache_dir: String::new(),
        tools: ToolsConfig {
            scan_services: "scan".to_string(),
            sync_clock: "sync".to_string(),
            collect_eits: "collect".to_string(),
        },
        channels,
        tuners: Vec::new(),
    })
}

fn ts_service(nid: u16, sid: u16, name: &str) -> TsService {
    TsService {
        nid,
        tsid: 1,
        sid,
        service_type: 1,
        logo_id: -1,
        remote_control_key_id: 3,
        name: name.to_string(),
    }
}

fn service(nid: u16, sid: u16, channel: &str, channel_type: ChannelType, excluded: Vec<u16>) -> EpgService {
    EpgService {
        nid,
        tsid: 1,
        sid,
        service_type: 1,
        logo_id: 0,
        remote_control_key_id: 0,
        name: format!("sv{}", sid),
        channel: EpgChannel {
            name: channel.to_string(),
            channel_type,
            channel: channel.to_string(),
            excluded_services: excluded,
        },
    }
}

fn check_request(msg: &OpenTunerMessage, channel_type: ChannelType, channel: &str, duration: Option<i64>) {
    match &msg.by {
        OpenTunerBy::Channel { channel_type: t, channel: c } => {
            assert_eq!(*t, channel_type);
            assert_eq!(c, channel);
        }
    }
    assert!(matches!(&msg.user.info, TunerUserInfo::Job { name } if name == "epg"));
    assert_eq!(msg.user.priority.value(), -1);
    assert_eq!(msg.duration, duration);
    assert!(!msg.preprocess && !msg.postprocess);
}

fn section(sid: u16, events: Vec<EitEvent>) -> EitSection {
    EitSection {
        original_network_id: 1,
        transport_stream_id: 1,
        service_id: sid,
        table_id: 0x50,
        section_number: 0,
        last_section_number: 0,
        segment_last_section_number: 0,
        version_number: 1,
        events,
    }
}

#[test]
fn time_limits_by_channel_type() {
    assert_eq!(scan_services_time_limit(ChannelType::GR), 10 * SECOND);
    assert_eq!(scan_services_time_limit(ChannelType::BS), 20 * SECOND);
    assert_eq!(scan_services_time_limit(ChannelType::CS), 30 * SECOND);
    assert_eq!(scan_services_time_limit(ChannelType::SKY), 30 * SECOND);
    assert_eq!(collect_eits_time_limit(ChannelType::GR), 70 * SECOND);
    assert_eq!(collect_eits_time_limit(ChannelType::BS), 390 * SECOND);
    assert_eq!(collect_eits_time_limit(ChannelType::CS), 10 * MINUTE);
    assert_eq!(collect_eits_time_limit(ChannelType::SKY), 10 * MINUTE);
}

#[test]
fn estimate_follows_the_longest_sweep() {
    let mut epg = epg_with(vec![]);
    assert_eq!(epg.estimate_time(), HOUR);
    epg.update_max_elapsed(5 * MINUTE);
    assert_eq!(epg.max_elapsed, Some(5 * MINUTE));
    assert_eq!(epg.estimate_time(), 5 * MINUTE + 30 * SECOND);
    epg.update_max_elapsed(5 * MINUTE);
    epg.update_max_elapsed(4 * MINUTE);
    assert_eq!(epg.max_elapsed, Some(5 * MINUTE));
    epg.update_max_elapsed(5 * MINUTE + 1);
    assert_eq!(epg.max_elapsed, Some(5 * MINUTE + 1));
    epg.update_max_elapsed(i64::MAX);
    assert_eq!(epg.estimate_time(), i64::MAX);
    assert_eq!(elapsed(10, 25), 15);
    assert_eq!(elapsed(i64::MIN, i64::MAX), i64::MAX);
    assert_eq!(elapsed(i64::MAX, i64::MIN), i64::MIN);
}

#[test]
fn scan_services_sweeps_all_channels() {
    let mut epg = epg_with(vec![
        channel("a", ChannelType::GR, vec![], false),
        channel("off", ChannelType::GR, vec![], true),
        channel("b", ChannelType::BS, vec![9], false),
        channel("c", ChannelType::CS, vec![], false),
    ]);
    epg.services = vec![service(7, 7, "old", ChannelType::GR, vec![])];
    let mut scan = ServiceScan::new();
    assert!(!scan.awaits_channel() && !scan.awaits_saving());

    match epg.scan_services(&mut scan, ScanServicesEvent::Started) {
        ScanServicesAction::Scan(msg) => check_request(&msg, ChannelType::GR, "ch-a", Some(10 * SECOND)),
        _ => panic!("the first channel is scanned"),
    }
    assert!(scan.awaits_channel());
    let found = vec![ts_service(1, 101, "x"), ts_service(1, 102, "y")];
    match epg.scan_services(&mut scan, ScanServicesEvent::Scanned(found)) {
        ScanServicesAction::Scan(msg) => check_request(&msg, ChannelType::BS, "ch-b", Some(20 * SECOND)),
        _ => panic!("the second channel is scanned"),
    }
    // A report that cannot be read is no failure: the sweep goes on.
    match epg.scan_services(&mut scan, ScanServicesEvent::Suspended) {
        ScanServicesAction::Scan(msg) => check_request(&msg, ChannelType::CS, "ch-c", Some(30 * SECOND)),
        _ => panic!("the third channel is scanned"),
    }
    assert_eq!(epg.services.len(), 1);
    let action = epg.scan_services(&mut scan, ScanServicesEvent::Scanned(vec![ts_service(4, 401, "z")]));
    assert!(matches!(action, ScanServicesAction::Save));
    assert!(scan.awaits_saving());
    let names: Vec<(&str, &str, u16)> =
        epg.services.iter().map(|s| (s.name.as_str(), s.channel.name.as_str(), s.sid)).collect();
    assert_eq!(names, vec![("x", "a", 101), ("y", "a", 102), ("z", "c", 401)]);
    assert_eq!(epg.services[0].logo_id, -1);
    assert_eq!(epg.services[0].remote_control_key_id, 3);

    let action = epg.scan_services(&mut scan, ScanServicesEvent::Saved);
    assert!(matches!(action, ScanServicesAction::RunLater(d) if d == 23 * HOUR));
    assert!(scan.phase == SweepPhase::Idle);
}

#[test]
fn scan_services_retries_after_an_hour() {
    let mut epg = epg_with(vec![channel("a", ChannelType::GR, vec![], false)]);
    epg.services = vec![service(7, 7, "old", ChannelType::GR, vec![])];
    let mut scan = ServiceScan::new();
    epg.scan_services(&mut scan, ScanServicesEvent::Started);
    let action = epg.scan_services(&mut scan, ScanServicesEvent::Failed);
    assert!(matches!(action, ScanServicesAction::RunLater(d) if d == HOUR));
    assert_eq!(epg.services.len(), 1);

    epg.scan_services(&mut scan, ScanServicesEvent::Started);
    epg.scan_services(&mut scan, ScanServicesEvent::Suspended);
    assert!(epg.services.is_empty());
    let action = epg.scan_services(&mut scan, ScanServicesEvent::SaveFailed);
    assert!(matches!(action, ScanServicesAction::RunLater(d) if d == HOUR));

    // Without channels there is nothing to scan, and nothing is what is stored.
    let mut epg = epg_with(vec![]);
    let action = epg.scan_services(&mut scan, ScanServicesEvent::Started);
    assert!(matches!(action, ScanServicesAction::Save));
}

#[test]
fn sync_clocks_keeps_the_last_reading_of_a_service() {
    let epg = epg_with(vec![
        channel("a", ChannelType::GR, vec![], false),
        channel("b", ChannelType::BS, vec![], false),
    ]);
    let reading = |sid: u16, pcr: i64| SyncClock { nid: 1, tsid: 2, sid, clock: Clock { pcr, time: pcr * 2 } };
    let mut sync = ClockSync::new();
    match epg.sync_clocks(&mut sync, SyncClocksEvent::Started) {
        SyncClocksAction::Sync(msg) => check_request(&msg, ChannelType::GR, "ch-a", None),
        _ => panic!("the first channel is read"),
    }
    assert!(sync.awaits_channel());
    match epg.sync_clocks(&mut sync, SyncClocksEvent::Synced(vec![reading(1, 10), reading(2, 20)])) {
        SyncClocksAction::Sync(msg) => check_request(&msg, ChannelType::BS, "ch-b", None),
        _ => panic!("the second channel is read"),
    }
    let expected = vec![
        (ServiceTriple::new(1, 2, 1), Clock { pcr: 30, time: 60 }),
        (ServiceTriple::new(1, 2, 2), Clock { pcr: 20, time: 40 }),
        (ServiceTriple::new(1, 2, 3), Clock { pcr: 40, time: 80 }),
    ];
    match epg.sync_clocks(&mut sync, SyncClocksEvent::Synced(vec![reading(1, 30), reading(3, 40)])) {
        SyncClocksAction::Save(clocks) => assert_eq!(clocks, expected),
        _ => panic!("the clocks are stored"),
    }
    assert!(sync.awaits_saving());
    match epg.sync_clocks(&mut sync, SyncClocksEvent::Saved) {
        SyncClocksAction::Publish(clocks, delay) => {
            assert_eq!(clocks, expected);
            assert_eq!(delay, 17 * HOUR);
        }
        _ => panic!("the clocks are published"),
    }
    assert!(make_clock_map(&vec![]).is_empty());

    epg.sync_clocks(&mut sync, SyncClocksEvent::Started);
    epg.sync_clocks(&mut sync, SyncClocksEvent::Suspended);
    match epg.sync_clocks(&mut sync, SyncClocksEvent::Suspended) {
        SyncClocksAction::Save(clocks) => assert!(clocks.is_empty()),
        _ => panic!("the clocks are stored"),
    }
    let action = epg.sync_clocks(&mut sync, SyncClocksEvent::SaveFailed);
    assert!(matches!(action, SyncClocksAction::RunLater(d) if d == HOUR));
    epg.sync_clocks(&mut sync, SyncClocksEvent::Started);
    let action = epg.sync_clocks(&mut sync, SyncClocksEvent::Failed);
    assert!(matches!(action, SyncClocksAction::RunLater(d) if d == HOUR));
}

#[test]
fn one_channel_for_each_network() {
    let epg = epg_with(vec![]);
    let services = vec![
        service(1, 11, "a", ChannelType::GR, vec![5]),
        service(2, 21, "b", ChannelType::BS, vec![]),
        service(1, 12, "a2", ChannelType::GR, vec![6, 7]),
        service(1, 13, "a", ChannelType::GR, vec![5]),
    ];
    let channels = epg.collect_channels_for_collecting_programs(&services);
    assert_eq!(channels.len(), 2);
    assert_eq!(channels[0].0, 1);
    assert_eq!(channels[0].1.name, "a");
    assert_eq!(channels[0].1.excluded_services, vec![5, 6, 7, 5]);
    assert_eq!(channels[1].0, 2);
    assert_eq!(channels[1].1.name, "b");
    assert!(channels[1].1.excluded_services.is_empty());
    assert!(epg.collect_channels_for_collecting_programs(&vec![]).is_empty());
}

#[test]
fn update_schedules_is_put_off_late_in_the_day() {
    let mut epg = epg_with(vec![]);
    epg.services = vec![service(1, 11, "a", ChannelType::GR, vec![])];
    let mut update = ScheduleUpdate::new();

    // Without a timed sweep the estimate is an hour: at 23:00:01 it is too late.
    let now = jst(2019, 10, 13, 23, 0, 1);
    let action = epg.update_schedules(&mut update, UpdateSchedulesEvent::Started(now));
    assert!(matches!(action, UpdateSchedulesAction::RunLater(d) if d == HOUR - SECOND + 10 * SECOND));
    assert!(epg.schedules.is_empty());
    assert!(update.phase == SweepPhase::Idle);

    // At 23:00:00 an hour is left, which is not less than the estimate.
    let now = jst(2019, 10, 13, 23, 0, 0);
    match epg.update_schedules(&mut update, UpdateSchedulesEvent::Started(now)) {
        UpdateSchedulesAction::Collect(msg) => check_request(&msg, ChannelType::GR, "a", Some(70 * SECOND)),
        _ => panic!("the channel is collected"),
    }
    assert_eq!(epg.schedules.len(), 1);
    assert_eq!(update.started_at, now);

    // With a longest sweep of ten minutes, 23:49:31 is too late and 23:49:30 is not.
    epg.max_elapsed = Some(10 * MINUTE);
    let action = epg.update_schedules(
        &mut update, UpdateSchedulesEvent::Started(jst(2019, 10, 13, 23, 49, 31)));
    assert!(matches!(action, UpdateSchedulesAction::RunLater(d) if d == 10 * MINUTE + 39 * SECOND));
    let action = epg.update_schedules(
        &mut update, UpdateSchedulesEvent::Started(jst(2019, 10, 13, 23, 49, 30)));
    assert!(matches!(action, UpdateSchedulesAction::Collect(_)));
}

#[test]
fn update_schedules_collects_saves_and_publishes() {
    let mut epg = epg_with(vec![]);
    epg.services = vec![
        service(1, 11, "a", ChannelType::GR, vec![]),
        service(2, 21, "b", ChannelType::BS, vec![]),
    ];
    let mut update = ScheduleUpdate::new();
    let now = jst(2019, 10, 13, 12, 0, 0);
    let ev = |id: u16| EitEvent {
        event_id: id,
        start_time: now,
        duration: HOUR,
        scrambled: false,
        descriptors: vec![],
    };

    match epg.update_schedules(&mut update, UpdateSchedulesEvent::Started(now)) {
        UpdateSchedulesAction::Collect(msg) => check_request(&msg, ChannelType::GR, "a", Some(70 * SECOND)),
        _ => panic!("the first network is collected"),
    }
    assert!(update.awaits_channel());
    let sections = vec![section(11, vec![ev(1), ev(2)]), section(99, vec![ev(3)])];
    match epg.update_schedules(&mut update, UpdateSchedulesEvent::Collected(sections)) {
        UpdateSchedulesAction::Collect(msg) => check_request(&msg, ChannelType::BS, "b", Some(390 * SECOND)),
        _ => panic!("the second network is collected"),
    }
    let mut other = section(21, vec![ev(4)]);
    other.original_network_id = 2;
    let action = epg.update_schedules(&mut update, UpdateSchedulesEvent::Collected(vec![other]));
    assert!(matches!(action, UpdateSchedulesAction::Save));
    assert!(update.awaits_saving());

    let end = now + 3 * MINUTE;
    match epg.update_schedules(&mut update, UpdateSchedulesEvent::Saved(end)) {
        UpdateSchedulesAction::Publish(message, delay) => {
            assert_eq!(delay, 15 * MINUTE);
            assert_eq!(message.services.len(), 2);
            assert_eq!(message.services[0].id.value(), 100_011);
            assert_eq!(message.services[0].service_id, 11);
            assert_eq!(message.services[0].channel.channel, "a");
            assert!(!message.services[0].has_logo_data);
            let mut ids: Vec<u64> = message.programs.keys().copied().collect();
            ids.sort();
            assert_eq!(ids, vec![10_001_100_001, 10_001_100_002, 20_002_100_004]);
        }
        _ => panic!("the catalogue is published"),
    }
    assert_eq!(epg.max_elapsed, Some(3 * MINUTE));
    assert!(update.phase == SweepPhase::Idle);
}

#[test]
fn update_schedules_keeps_what_was_read_before_a_failure() {
    let mut epg = epg_with(vec![]);
    epg.services = vec![service(1, 11, "a", ChannelType::GR, vec![])];
    epg.max_elapsed = Some(MINUTE);
    let mut update = ScheduleUpdate::new();
    let now = jst(2019, 10, 13, 12, 0, 0);
    epg.update_schedules(&mut update, UpdateSchedulesEvent::Started(now));
    let action =
        epg.update_schedules(&mut update, UpdateSchedulesEvent::Failed(vec![section(11, vec![])]));
    assert!(matches!(action, UpdateSchedulesAction::RunLater(d) if d == 5 * MINUTE));
    assert!(epg.schedules[0].tables[0].is_some());
    assert_eq!(epg.max_elapsed, Some(MINUTE));

    epg.services.clear();
    let action = epg.update_schedules(&mut update, UpdateSchedulesEvent::Started(now));
    assert!(matches!(action, UpdateSchedulesAction::Save));
    assert!(epg.schedules.is_empty());
    let action = epg.update_schedules(&mut update, UpdateSchedulesEvent::SaveFailed);
    assert!(matches!(action, UpdateSchedulesAction::RunLater(d) if d == 5 * MINUTE));
    assert_eq!(epg.max_elapsed, Some(MINUTE));
}

#[test]
fn started_loads_and_schedules_the_tasks() {
    let mut epg = epg_with(vec![]);
    let startup = epg.started(None, None, None, false);
    // The catalogue is handed back even where nothing could be loaded.
    assert!(startup.clocks.is_none());
    assert!(startup.message.services.is_empty());
    assert!(startup.message.programs.is_empty());
    assert_eq!(
        startup.tasks,
        vec![
            (EpgTask::ScanServices, 0),
            (EpgTask::SyncClocks, 5 * SECOND),
            (EpgTask::UpdateSchedules, 10 * SECOND),
        ]
    );
    assert!(epg.services.is_empty());

    let mut sched = EpgSchedule::new(ServiceTriple::new(1, 1, 11), 0);
    sched.update(section(11, vec![EitEvent {
        event_id: 8,
        start_time: 0,
        duration: 1,
        scrambled: true,
        descriptors: vec![],
    }]));
    let clocks = vec![(ServiceTriple::new(1, 1, 11), Clock { pcr: 5, time: 6 })];
    let startup = epg.started(
        Some(vec![service(1, 11, "a", ChannelType::GR, vec![])]),
        Some(clocks.clone()),
        Some(vec![sched]),
        true,
    );
    assert!(startup.tasks.is_empty());
    assert_eq!(startup.clocks, Some(clocks));
    assert_eq!(startup.message.services.len(), 1);
    assert_eq!(startup.message.programs.len(), 1);
    assert!(!startup.message.programs[&10_001_100_008].is_free);
    assert_eq!(epg.services.len(), 1);
    assert_eq!(epg.schedules.len(), 1);

    // Services without schedules: the catalogue shows the services alone.
    let startup =
        epg.started(Some(vec![service(1, 11, "a", ChannelType::GR, vec![])]), None, None, true);
    assert_eq!(startup.message.services.len(), 1);
    assert!(startup.message.programs.is_empty());
    assert_eq!(epg.services.len(), 1);
    assert!(epg.schedules.is_empty());

    // What cannot be loaded is empty.
    let startup = epg.started(None, None, None, true);
    assert!(startup.message.services.is_empty());
    assert!(epg.services.is_empty());
    assert!(epg.schedules.is_empty());
}

#[test]
fn sections_of_unknown_services_may_name_any_table() {
    let mut epg = epg_with(vec![]);
    epg.schedules.push(EpgSchedule::new(ServiceTriple::new(1, 1, 11), 0));
    let mut stray = section(99, vec![]);
    stray.table_id = 0x4E;
    epg.update_tables(vec![stray, section(11, vec![])]);
    assert_eq!(epg.schedules.len(), 1);
    assert!(epg.schedules[0].tables[0].is_some());
}
