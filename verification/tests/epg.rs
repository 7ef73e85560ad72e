use chrono::{FixedOffset, TimeZone, Utc};
use mirakc::config::{ChannelConfig, Config, ToolsConfig};
use mirakc::eit::{EitEvent, EitSection};
use mirakc::epg::Epg;
use mirakc::models::{ChannelType, ServiceTriple};
use mirakc::schedule::{EpgSchedule, EpgSection, EpgSegment, EpgTable};
use mirakc::service::{EpgChannel, EpgService};

const SECOND: i64 = 1_000;
const MINUTE: i64 = 60_000;
const HOUR: i64 = 3_600_000;

fn jst(year: i32, month: u32, day: u32, hour: u32, min: u32, sec: u32) -> i64 {
    FixedOffset::east_opt(9 * 3600)
        .unwrap()
        .with_ymd_and_hms(year, month, day, hour, min, sec)
        .unwrap()
        .timestamp_millis()
}

fn jst_date(year: i32, month: u32, day: u32) -> i64 {
    jst(year, month, day, 0, 0, 0)
}

fn create_config() -> Config {
    Config {
        epg_cache_dir: "/tmp/epg".to_string(),
        tools: ToolsConfig {
            scan_services: "scan-services".to_string(),
            sync_clock: "sync-clock".to_string(),
            collect_eits: "collect-eits".to_string(),
        },
        channels: Vec::new(),
        tuners: Vec::new(),
    }
}

fn create_epg_service(triple: ServiceTriple, channel_type: ChannelType) -> EpgService {
    EpgService {
        nid: triple.nid(),
        tsid: triple.tsid(),
        sid: triple.sid(),
        service_type: 1,
        logo_id: 0,
        remote_control_key_id: 0,
        name: "Service".to_string(),
        channel: EpgChannel {
            name: "Ch".to_string(),
            channel_type,
            channel: "ch".to_string(),
            excluded_services: Vec::new(),
        },
    }
}

fn create_epg_schedule(triple: ServiceTriple) -> EpgSchedule {
    EpgSchedule::new(triple, Utc::now().timestamp_millis())
}

fn create_epg_section_with_overnight_events(date: i64) -> EpgSection {
    EpgSection {
        version: 1,
        events: vec![
            EitEvent {
                event_id: 1,
                start_time: date + 23 * HOUR,
                duration: 30 * MINUTE,
                scrambled: false,
                descriptors: Vec::new(),
            },
            EitEvent {
                event_id: 2,
                start_time: date + 23 * HOUR + 30 * MINUTE,
                duration: HOUR,
                scrambled: false,
                descriptors: Vec::new(),
            },
        ],
    }
}

fn create_epg_segment_with_overnight_events(date: i64) -> EpgSegment {
    let mut segment = EpgSegment::default();
    segment.sections[0] = Some(EpgSection { version: 1, events: Vec::new() });
    segment.sections[1] = Some(create_epg_section_with_overnight_events(date));
    segment
}

fn create_epg_table_with_overnight_events(date: i64) -> EpgTable {
    let mut table = EpgTable::default();
    table.segments[7] = create_epg_segment_with_overnight_events(date);
    table
}

fn create_epg_schedule_with_overnight_events(triple: ServiceTriple) -> EpgSchedule {
    let mut sched = create_epg_schedule(triple);
    sched.updated_at = jst_date(2019, 10, 13);
    sched.tables[0] =
        Some(Box::new(create_epg_table_with_overnight_events(jst_date(2019, 10, 13))));
    sched.tables[1] =
        Some(Box::new(create_epg_table_with_overnight_events(jst_date(2019, 10, 17))));
    sched.tables[8] =
        Some(Box::new(create_epg_table_with_overnight_events(jst_date(2019, 10, 13))));
    sched.tables[16] =
        Some(Box::new(create_epg_table_with_overnight_events(jst_date(2019, 10, 13))));
    sched.tables[24] =
        Some(Box::new(create_epg_table_with_overnight_events(jst_date(2019, 10, 13))));
    sched
}

fn section(section_number: u8, segment_last_section_number: u8) -> EitSection {
    EitSection {
        original_network_id: 1,
        transport_stream_id: 2,
        service_id: 3,
        table_id: 0x50,
        section_number,
        last_section_number: 0xF8,
        segment_last_section_number,
        version_number: 1,
        events: Vec::new(),
    }
}

fn schedule_of(epg: &Epg, triple: ServiceTriple) -> &EpgSchedule {
    let index = epg.find_schedule(triple);
    assert!(index < epg.schedules.len());
    &epg.schedules[index]
}

#[test]
fn test_epg_prepare_schedule() {
    let triple = ServiceTriple::from((1, 2, 3));
    let channel_type = ChannelType::GR;
    let config = create_config();

    let mut epg = Epg::new(&config);
    epg.services = vec![create_epg_service(triple, channel_type)];
    epg.prepare_schedules(Utc::now().timestamp_millis());
    assert_eq!(epg.schedules.len(), 1);
    assert_eq!(schedule_of(&epg, triple).overnight_events.len(), 0);

    let mut epg = Epg::new(&config);
    epg.services = vec![create_epg_service(triple, channel_type)];
    let sched = create_epg_schedule_with_overnight_events(triple);
    epg.schedules.push(sched);

    epg.prepare_schedules(jst_date(2019, 10, 13));
    assert_eq!(schedule_of(&epg, triple).overnight_events.len(), 0);

    epg.prepare_schedules(jst_date(2019, 10, 14));
    assert_eq!(schedule_of(&epg, triple).overnight_events.len(), 4);

    epg.prepare_schedules(jst_date(2019, 10, 15));
    assert_eq!(schedule_of(&epg, triple).overnight_events.len(), 0);

    epg.prepare_schedules(jst_date(2019, 10, 16));
    assert_eq!(schedule_of(&epg, triple).overnight_events.len(), 0);

    epg.prepare_schedules(jst_date(2019, 10, 17));
    assert_eq!(schedule_of(&epg, triple).overnight_events.len(), 0);

    epg.prepare_schedules(jst_date(2019, 10, 18));
    assert_eq!(schedule_of(&epg, triple).overnight_events.len(), 1);

    epg.prepare_schedules(jst_date(2019, 10, 19));
    assert_eq!(schedule_of(&epg, triple).overnight_events.len(), 0);

    epg.prepare_schedules(jst_date(2019, 10, 20));
    assert_eq!(schedule_of(&epg, triple).overnight_events.len(), 0);

    epg.prepare_schedules(jst_date(2019, 10, 21));
    assert_eq!(schedule_of(&epg, triple).overnight_events.len(), 0);

    epg.prepare_schedules(jst_date(2019, 10, 22));
    assert_eq!(schedule_of(&epg, triple).overnight_events.len(), 0);
}

#[test]
fn test_epg_schedule_update() {
    let triple = ServiceTriple::from((1, 2, 3));
    let mut sched = create_epg_schedule(triple);

    sched.update(EitSection {
        original_network_id: triple.nid(),
        transport_stream_id: triple.tsid(),
        service_id: triple.sid(),
        table_id: 0x50,
        section_number: 0x00,
        last_section_number: 0xF8,
        segment_last_section_number: 0x00,
        version_number: 1,
        events: Vec::new(),
    });
    assert!(sched.tables[0].is_some());
}

#[test]
fn test_epg_schedule_save_overnight_events() {
    let mut sched = create_epg_schedule_with_overnight_events(ServiceTriple::from((1, 2, 3)));
    sched.save_overnight_events(jst_date(2019, 10, 13));
    assert_eq!(sched.overnight_events.len(), 0);

    sched.save_overnight_events(jst_date(2019, 10, 14));
    assert_eq!(sched.overnight_events.len(), 4);

    sched.save_overnight_events(jst_date(2019, 10, 15));
    assert_eq!(sched.overnight_events.len(), 0);

    sched.save_overnight_events(jst_date(2019, 10, 16));
    assert_eq!(sched.overnight_events.len(), 0);

    sched.save_overnight_events(jst_date(2019, 10, 17));
    assert_eq!(sched.overnight_events.len(), 0);

    sched.save_overnight_events(jst_date(2019, 10, 18));
    assert_eq!(sched.overnight_events.len(), 1);

    sched.save_overnight_events(jst_date(2019, 10, 19));
    assert_eq!(sched.overnight_events.len(), 0);

    sched.save_overnight_events(jst_date(2019, 10, 20));
    assert_eq!(sched.overnight_events.len(), 0);

    sched.save_overnight_events(jst_date(2019, 10, 21));
    assert_eq!(sched.overnight_events.len(), 0);

    sched.save_overnight_events(jst_date(2019, 10, 22));
    assert_eq!(sched.overnight_events.len(), 0);
}

#[test]
fn test_epg_table_update() {
    let mut table: EpgTable = Default::default();

    table.update(section(0x00, 0x00));
    assert!(table.segments[0].sections[0].is_some());
}

#[test]
fn test_epg_table_collect_overnight_events() {
    let table = create_epg_table_with_overnight_events(jst_date(2019, 10, 13));
    let events = table.collect_overnight_events(jst_date(2019, 10, 14), Vec::new());
    assert_eq!(events.len(), 1);
    assert_eq!(events[0].event_id, 2);
}

#[test]
fn test_epg_segment_update() {
    let mut segment: EpgSegment = Default::default();

    segment.update(section(0x01, 0x01));
    assert!(segment.sections[0].is_none());
    assert!(segment.sections[1].is_some());

    segment.update(section(0x00, 0x00));
    assert!(segment.sections[0].is_some());
    assert!(segment.sections[1].is_none());
}

#[test]
fn test_epg_segment_collect_overnight_events() {
    let segment = create_epg_segment_with_overnight_events(jst_date(2019, 10, 13));
    let events = segment.collect_overnight_events(jst_date(2019, 10, 14), Vec::new());
    assert_eq!(events.len(), 1);
    assert_eq!(events[0].event_id, 2);
}

#[test]
fn test_epg_section_collect_overnight_events() {
    let section = create_epg_section_with_overnight_events(jst_date(2019, 10, 13));
    let events = section.collect_overnight_events(jst_date(2019, 10, 14), Vec::new());
    assert_eq!(events.len(), 1);
    assert_eq!(events[0].event_id, 2);
}

#[test]
fn test_eit_event_is_overnight_event() {
    let event = EitEvent {
        event_id: 0,
        start_time: jst(2019, 10, 13, 23, 59, 59),
        duration: 2 * SECOND,
        scrambled: false,
        descriptors: Vec::new(),
    };
    assert!(!event.is_overnight_event(jst_date(2019, 10, 12)));
    assert!(!event.is_overnight_event(jst_date(2019, 10, 13)));
    assert!(event.is_overnight_event(jst_date(2019, 10, 14)));
    assert!(!event.is_overnight_event(jst_date(2019, 10, 15)));

    let event = EitEvent {
        event_id: 0,
        start_time: jst(2019, 10, 13, 23, 59, 59),
        duration: SECOND,
        scrambled: false,
        descriptors: Vec::new(),
    };
    assert!(!event.is_overnight_event(jst_date(2019, 10, 12)));
    assert!(!event.is_overnight_event(jst_date(2019, 10, 13)));
    assert!(!event.is_overnight_event(jst_date(2019, 10, 14)));
    assert!(!event.is_overnight_event(jst_date(2019, 10, 15)));

    let event = EitEvent {
        event_id: 0,
        start_time: jst(2019, 10, 13, 23, 59, 58),
        duration: SECOND,
        scrambled: false,
        descriptors: Vec::new(),
    };
    assert!(!event.is_overnight_event(jst_date(2019, 10, 12)));
    assert!(!event.is_overnight_event(jst_date(2019, 10, 13)));
    assert!(!event.is_overnight_event(jst_date(2019, 10, 14)));
    assert!(!event.is_overnight_event(jst_date(2019, 10, 15)));
}

#[test]
fn epg_new_keeps_enabled_channels() {
    let mut config = create_config();
    for (name, disabled) in [("a", false), ("b", true), ("c", false)] {
        config.channels.push(ChannelConfig {
            name: name.to_string(),
            channel_type: ChannelType::GR,
            channel: name.to_string(),
            excluded_services: vec![1, 2],
            disabled,
        });
    }
    let epg = Epg::new(&config);
    assert_eq!(epg.channels.len(), 2);
    assert_eq!(epg.channels[0].name, "a");
    assert_eq!(epg.channels[1].name, "c");
    assert_eq!(epg.channels[1].excluded_services, vec![1, 2]);
    assert_eq!(epg.scan_services, "scan-services");
    assert!(epg.services.is_empty());
    assert!(epg.schedules.is_empty());
    assert_eq!(epg.max_elapsed, None);
}

#[test]
fn prepare_schedules_drops_garbage_and_adds_missing() {
    let config = create_config();
    let mut epg = Epg::new(&config);
    let kept = ServiceTriple::from((1, 2, 3));
    let gone = ServiceTriple::from((1, 2, 4));
    let fresh = ServiceTriple::from((1, 2, 5));
    epg.schedules.push(EpgSchedule::new(gone, 0));
    epg.schedules.push(EpgSchedule::new(kept, 0));
    epg.services = vec![
        create_epg_service(fresh, ChannelType::GR),
        create_epg_service(kept, ChannelType::GR),
        create_epg_service(fresh, ChannelType::GR),
    ];
    let now = jst(2019, 10, 14, 12, 0, 0);
    epg.prepare_schedules(now);
    assert_eq!(epg.schedules.len(), 2);
    assert!(epg.schedules[0].service_triple == kept);
    assert!(epg.schedules[1].service_triple == fresh);
    assert_eq!(epg.schedules[0].updated_at, now);
    assert_eq!(epg.schedules[1].updated_at, now);
    assert_eq!(epg.find_schedule(gone), 2);
}

#[test]
fn update_tables_ignores_unknown_services() {
    let config = create_config();
    let mut epg = Epg::new(&config);
    let triple = ServiceTriple::from((1, 2, 3));
    epg.schedules.push(EpgSchedule::new(triple, 0));
    let mut unknown = section(0, 0);
    unknown.service_id = 9;
    let mut known = section(9, 1);
    known.table_id = 0x6F;
    epg.update_tables(vec![unknown, known]);
    assert_eq!(epg.schedules.len(), 1);
    let sched = &epg.schedules[0];
    for (i, table) in sched.tables.iter().enumerate() {
        assert_eq!(table.is_some(), i == 31);
    }
    let table = sched.tables[31].as_ref().unwrap();
    assert!(table.segments[1].sections[1].is_some());
    assert!(table.segments[1].sections[0].is_none());
}

#[test]
fn segment_update_clears_everything_behind_last() {
    let mut segment = EpgSegment::default();
    for i in 0..8 {
        segment.update(section(i, 7));
    }
    assert!(segment.sections.iter().all(|s| s.is_some()));
    // The section's own slot lies behind the last one: it is cleared too.
    segment.update(section(5, 2));
    let filled: Vec<bool> = segment.sections.iter().map(|s| s.is_some()).collect();
    assert_eq!(filled, vec![true, true, true, false, false, false, false, false]);
    // A section within the first slots replaces only its own slot.
    let mut newer = section(1, 2);
    newer.version_number = 9;
    segment.update(newer);
    let versions: Vec<Option<u8>> =
        segment.sections.iter().map(|s| s.as_ref().map(|s| s.version)).collect();
    assert_eq!(versions, vec![Some(1), Some(9), Some(1), None, None, None, None, None]);
}
