use std::collections::HashMap;

use chrono::{FixedOffset, TimeZone};
use mirakc::catalogue::{collect_event, collect_events};
use mirakc::eit::{EitDescriptor, EitEvent, EitSection};
use mirakc::jst::{has_margin, midnight, next_midnight};
use mirakc::models::{ChannelType, EventQuad, MirakurunProgramId, MirakurunServiceId, ServiceTriple};
use mirakc::ordered_map::collect;
use mirakc::program::{EpgAudioInfo, EpgGenre, EpgVideoInfo, ProgramModel};
use mirakc::schedule::EpgSchedule;
use mirakc::template::{is_renderable, render_template};
use mirakc::text::{chars_of, same_text};

fn pair(key: &str, value: &str) -> (String, String) {
    (key.to_string(), value.to_string())
}

fn event(event_id: u16, start_time: i64, descriptors: Vec<EitDescriptor>) -> EitEvent {
    EitEvent { event_id, start_time, duration: 1_800_000, scrambled: false, descriptors }
}

fn short(name: &str, text: &str) -> EitDescriptor {
    EitDescriptor::ShortEvent { event_name: name.to_string(), text: text.to_string() }
}

#[test]
fn identifiers_pack_their_parts() {
    let triple = ServiceTriple::new(0x7FE0, 0x7FE1, 0x0408);
    assert_eq!(triple.value(), 0x7FE0_7FE1_0408);
    assert_eq!(ServiceTriple::from((1, 2, 3)), ServiceTriple::new(1, 2, 3));
    let quad = EventQuad::new(triple, 7);
    assert_eq!((quad.nid(), quad.tsid(), quad.sid(), quad.eid()), (0x7FE0, 0x7FE1, 0x0408, 7));
    assert_eq!(EventQuad::from((triple, 7)), quad);
    assert_eq!(MirakurunServiceId::new(ServiceTriple::new(32736, 1, 1024)).value(), 3273601024);
    assert_eq!(
        MirakurunProgramId::new(EventQuad::new(ServiceTriple::new(32736, 1, 1024), 65535)).value(),
        327360102465535
    );
    assert_eq!(
        MirakurunProgramId::new(EventQuad::new(ServiceTriple::new(65535, 0, 65535), 65535)).value(),
        655356553565535
    );
    assert_eq!(ChannelType::GR.name(), "GR");
    assert_eq!(ChannelType::BS.name(), "BS");
    assert_eq!(ChannelType::CS.name(), "CS");
    assert_eq!(ChannelType::SKY.name(), "SKY");
}

#[test]
fn midnight_agrees_with_the_calendar() {
    let zone = FixedOffset::east_opt(9 * 3600).unwrap();
    let cases = [
        (2019, 10, 13, 0, 0, 0),
        (2019, 10, 13, 23, 59, 59),
        (2019, 12, 31, 15, 0, 1),
        (2020, 2, 29, 8, 59, 59),
        (1969, 12, 31, 23, 0, 0),
        (1900, 1, 1, 0, 0, 1),
        (2100, 3, 1, 9, 0, 0),
    ];
    for (y, m, d, hh, mm, ss) in cases {
        let now = zone.with_ymd_and_hms(y, m, d, hh, mm, ss).unwrap();
        let start = zone.with_ymd_and_hms(y, m, d, 0, 0, 0).unwrap();
        assert!(has_margin(now.timestamp_millis()));
        assert_eq!(midnight(now.timestamp_millis()), start.timestamp_millis());
        assert_eq!(midnight(now.timestamp_millis() + 999), start.timestamp_millis());
        assert_eq!(next_midnight(now.timestamp_millis()), start.timestamp_millis() + 86_400_000);
    }
    assert_eq!(midnight(0), -32_400_000);
    assert_eq!(midnight(-32_400_001), -32_400_000 - 86_400_000);
    assert!(!has_margin(i64::MAX));
    assert!(!has_margin(i64::MIN));
}

#[test]
fn overnight_is_strict_and_total() {
    let e = EitEvent { event_id: 0, start_time: 10, duration: 5, scrambled: false, descriptors: vec![] };
    assert!(!e.is_overnight_event(10));
    assert!(e.is_overnight_event(11));
    assert!(e.is_overnight_event(14));
    assert!(!e.is_overnight_event(15));
    assert_eq!(e.end_time(), 15);
    let far = EitEvent {
        event_id: 0,
        start_time: i64::MAX - 1,
        duration: i64::MAX,
        scrambled: false,
        descriptors: vec![],
    };
    assert!(far.is_overnight_event(i64::MAX));
    assert!(!far.is_overnight_event(i64::MAX - 1));
}

#[test]
fn section_numbers_name_their_slots() {
    let section = EitSection {
        original_network_id: 1,
        transport_stream_id: 2,
        service_id: 3,
        table_id: 0x6F,
        section_number: 0xFB,
        last_section_number: 0xF8,
        segment_last_section_number: 0xFD,
        version_number: 1,
        events: Vec::new(),
    };
    assert!(section.is_schedule_section());
    assert_eq!(section.table_index(), 31);
    assert_eq!(section.segment_index(), 31);
    assert_eq!(section.section_index(), 3);
    assert_eq!(section.last_section_index(), 5);
    assert_eq!(section.service_triple(), ServiceTriple::new(1, 2, 3));
    for (table_id, ok) in [(0x4F, false), (0x50, true), (0x6F, true), (0x70, false)] {
        let s = EitSection { table_id, ..section.clone() };
        assert_eq!(s.is_schedule_section(), ok);
    }
}

#[test]
fn ordered_map_keeps_first_place_and_last_text() {
    let items = vec![pair("a", "1"), pair("b", "2"), pair("a", "3"), pair("c", "4"), pair("b", "5")];
    let map = collect(&items);
    let entries: Vec<(&str, &str)> = map.iter().map(|(k, v)| (k.as_str(), v.as_str())).collect();
    assert_eq!(entries, vec![("a", "3"), ("b", "5"), ("c", "4")]);
    assert!(collect(&Vec::new()).is_empty());
}

#[test]
fn program_update_overwrites_by_kind() {
    let quad = EventQuad::new(ServiceTriple::new(1, 2, 3), 4);
    let mut program = ProgramModel::new(quad);
    assert_eq!(program.id.value(), 10_000_300_004);
    assert_eq!((program.network_id, program.service_id, program.event_id), (1, 3, 4));
    assert_eq!((program.start_at, program.duration, program.is_free), (0, 0, false));
    assert!(program.name.is_none() && program.extended_items().is_none());

    program.update(&EitEvent {
        event_id: 4,
        start_time: 100,
        duration: 50,
        scrambled: false,
        descriptors: vec![
            short("first", "one"),
            EitDescriptor::Component { stream_content: 1, component_type: 0xB3 },
            EitDescriptor::AudioComponent { component_type: 3, sampling_rate: 7 },
            EitDescriptor::Content { nibbles: vec![(1, 2, 3, 4), (5, 6, 7, 8)] },
            EitDescriptor::ExtendedEvent { items: vec![pair("x", "1"), pair("y", "2"), pair("x", "3")] },
            short("second", "two"),
        ],
    });
    assert_eq!((program.start_at, program.duration, program.is_free), (100, 50, true));
    assert_eq!(program.name.as_deref(), Some("second"));
    assert_eq!(program.description.as_deref(), Some("two"));
    assert_eq!(program.video, Some(EpgVideoInfo { stream_content: 1, component_type: 0xB3 }));
    assert_eq!(program.audio, Some(EpgAudioInfo { component_type: 3, sampling_rate: 7 }));
    assert_eq!(
        program.genres,
        Some(vec![
            EpgGenre { lv1: 1, lv2: 2, un1: 3, un2: 4 },
            EpgGenre { lv1: 5, lv2: 6, un1: 7, un2: 8 },
        ])
    );
    assert_eq!(program.extended_items(), Some(vec![pair("x", "3"), pair("y", "2")]));

    // An event without descriptors leaves what the descriptors wrote.
    program.update(&EitEvent {
        event_id: 4,
        start_time: 200,
        duration: 60,
        scrambled: true,
        descriptors: vec![],
    });
    assert_eq!((program.start_at, program.duration, program.is_free), (200, 60, false));
    assert_eq!(program.name.as_deref(), Some("second"));
    assert!(program.video.is_some());
}

#[test]
fn later_events_overwrite_earlier_ones() {
    let triple = ServiceTriple::new(1, 2, 3);
    let mut programs: HashMap<u64, ProgramModel> = HashMap::new();
    collect_events(
        &mut programs,
        triple,
        &vec![event(1, 10, vec![short("a", "A")]), event(2, 20, vec![]), event(1, 30, vec![])],
    );
    assert_eq!(programs.len(), 2);
    let first = &programs[&10_000_300_001];
    assert_eq!(first.start_at, 30);
    assert_eq!(first.name.as_deref(), Some("a"));
    assert_eq!(programs[&10_000_300_002].start_at, 20);
    collect_event(&mut programs, ServiceTriple::new(1, 9, 4), &event(1, 40, vec![]));
    assert_eq!(programs.len(), 3);
    assert_eq!(programs[&10_000_400_001].event_quad, EventQuad::new(ServiceTriple::new(1, 9, 4), 1));
}

#[test]
fn overnight_events_survive_the_overwrite_of_the_tables() {
    let triple = ServiceTriple::new(1, 2, 3);
    let day = 86_400_000i64;
    let m = 10 * day - 32_400_000;
    let mut sched = EpgSchedule::new(triple, 0);
    let section = |events: Vec<EitEvent>| EitSection {
        original_network_id: 1,
        transport_stream_id: 2,
        service_id: 3,
        table_id: 0x50,
        section_number: 0,
        last_section_number: 0,
        segment_last_section_number: 0,
        version_number: 1,
        events,
    };
    sched.update(section(vec![
        event(1, m - 3_600_000, vec![]),
        event(2, m - 60_000, vec![short("late show", "")]),
    ]));
    sched.save_overnight_events(m);
    assert_eq!(sched.overnight_events.len(), 1);
    assert_eq!(sched.overnight_events[0].event_id, 2);

    // The table slot is overwritten by the sections of the new day.
    sched.update(section(vec![event(3, m + 60_000, vec![]), event(2, m - 60_000, vec![])]));
    assert_eq!(sched.overnight_events.len(), 1);
    let mut programs = HashMap::new();
    sched.collect_epg_programs(triple, &mut programs);
    let mut ids: Vec<u64> = programs.keys().copied().collect();
    ids.sort();
    assert_eq!(ids, vec![10_000_300_002, 10_000_300_003]);
    // What the overnight event said of the program is kept where the table
    // says nothing.
    assert_eq!(programs[&10_000_300_002].name.as_deref(), Some("late show"));

    sched.update(section(vec![event(3, m + 60_000, vec![])]));
    let mut programs = HashMap::new();
    sched.collect_epg_programs(triple, &mut programs);
    assert!(programs.contains_key(&10_000_300_002));
}

#[test]
fn templates_render_with_three_names() {
    assert_eq!(
        render_template("{{a}}-{{b}}-{{c}}-{{d}}", "a", "1", "b", "2", "c", "3").as_deref(),
        Some("1-2-3-")
    );
    assert_eq!(
        render_template("{{a}} {{{a}}} {{&a}}", "a", "<x>", "b", "", "c", "").as_deref(),
        Some("&lt;x&gt; <x> <x>")
    );
    assert_eq!(
        render_template("{{#b}}on{{/b}}{{#a}}no{{/a}}{{^d}}off{{/d}}", "a", "", "b", "y", "c", "")
            .as_deref(),
        Some("onoff")
    );
    assert_eq!(render_template("{{a", "a", "1", "b", "2", "c", "3"), None);
    assert_eq!(render_template("{{.}}", "a", "1", "b", "2", "c", "3"), None);
}

#[test]
fn renderable_templates() {
    for t in ["", "plain", "{{channel}}", "a.b", "x . y", "{{a.b}}", ". }}", "{{ .", "{=", "{{ =x",
        "a {.} b", "{ . }x", "{ .}", "&.}", "{.}}", "{{.}", "{&.}}", "{\u{3000}.}"]
    {
        assert!(is_renderable(t), "{:?}", t);
        // A renderable template never stops the renderer, whatever it gives.
        let _ = render_template(t, "channel", "1", "b", "2", "c", "3");
    }
    for t in ["{{.}}", "{{ . }}", "{{\t.\n}}", "{{&.}}", "{{& .}}", "{{{.}}}", "{{{ . }}}",
        "{{\u{3000}.}}", "{{=a b=}}", "{{>p}}", "x{{{="]
    {
        assert!(!is_renderable(t), "{:?}", t);
    }
}

#[test]
fn braces_in_plain_text_are_kept() {
    assert_eq!(
        render_template("a {.} b {{channel}}", "channel", "1", "b", "", "c", "").as_deref(),
        Some("a {.} b 1")
    );
    assert_eq!(
        render_template("sh -c 'f() { . ./env; }; f {{channel}}'", "channel", "27", "b", "", "c", "")
            .as_deref(),
        Some("sh -c 'f() { . ./env; }; f 27'")
    );
}

#[test]
fn text_helpers() {
    assert_eq!(chars_of("aé日"), vec!['a', 'é', '日']);
    assert!(same_text("", ""));
    assert!(same_text("日本", "日本"));
    assert!(!same_text("ab", "abc"));
    assert!(!same_text("ab", "ac"));
}
