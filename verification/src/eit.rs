//! Event Information Table sections as the extractor hands them over.

use vstd::prelude::*;
use crate::jst::spec_is_overnight;
use crate::models::{EventId, Millis, NetworkId, ServiceId, ServiceTriple, Timestamp,
    TransportStreamId};

verus! {

/// One descriptor of an event.
pub enum EitDescriptor {
    ShortEvent { event_name: String, text: String },
    Component { stream_content: u8, component_type: u8 },
    AudioComponent { component_type: u8, sampling_rate: u8 },
    Content { nibbles: Vec<(u8, u8, u8, u8)> },
    ExtendedEvent { items: Vec<(String, String)> },
}

/// What an `EitDescriptor` holds.
pub enum EitDescriptorView {
    ShortEvent { event_name: Seq<char>, text: Seq<char> },
    Component { stream_content: u8, component_type: u8 },
    AudioComponent { component_type: u8, sampling_rate: u8 },
    Content { nibbles: Seq<(u8, u8, u8, u8)> },
    ExtendedEvent { items: Seq<(Seq<char>, Seq<char>)> },
}

impl DeepView for EitDescriptor {
    type V = EitDescriptorView;

    open spec fn deep_view(&self) -> EitDescriptorView {
        match *self {
            EitDescriptor::ShortEvent { event_name, text } => EitDescriptorView::ShortEvent {
                event_name: event_name@,
                text: text@,
            },
            EitDescriptor::Component {
                stream_content,
                component_type,
            } => EitDescriptorView::Component { stream_content, component_type },
            EitDescriptor::AudioComponent {
                component_type,
                sampling_rate,
            } => EitDescriptorView::AudioComponent { component_type, sampling_rate },
            EitDescriptor::Content { nibbles } => EitDescriptorView::Content { nibbles: nibbles@ },
            EitDescriptor::ExtendedEvent { items } => EitDescriptorView::ExtendedEvent {
                items: items.deep_view(),
            },
        }
    }
}

/// A copy of a list of name and text pairs.
pub fn clone_items(items: &Vec<(String, String)>) -> (r: Vec<(String, String)>)
    ensures
        r.deep_view() == items.deep_view(),
{
    let mut r: Vec<(String, String)> = Vec::new();
    let mut i: usize = 0;
    while i < items.len()
        invariant
            i <= items.len(),
            r.len() == i,
            forall|j: int| 0 <= j < i ==> r[j].deep_view() == #[trigger] items[j].deep_view(),
        decreases items.len() - i,
    {
        r.push((items[i].0.clone(), items[i].1.clone()));
        i += 1;
    }
    r
}

/// A copy of a list of genre nibbles.
pub fn clone_nibbles(nibbles: &Vec<(u8, u8, u8, u8)>) -> (r: Vec<(u8, u8, u8, u8)>)
    ensures
        r@ == nibbles@,
{
    let mut r: Vec<(u8, u8, u8, u8)> = Vec::new();
    let mut i: usize = 0;
    while i < nibbles.len()
        invariant
            i <= nibbles.len(),
            r@ == nibbles@.take(i as int),
        decreases nibbles.len() - i,
    {
        r.push(nibbles[i]);
        i += 1;
    }
    r
}

impl Clone for EitDescriptor {
    fn clone(&self) -> (r: Self)
        ensures
            r.deep_view() == self.deep_view(),
    {
        match self {
            EitDescriptor::ShortEvent { event_name, text } => EitDescriptor::ShortEvent {
                event_name: event_name.clone(),
                text: text.clone(),
            },
            EitDescriptor::Component {
                stream_content,
                component_type,
            } => EitDescriptor::Component {
                stream_content: *stream_content,
                component_type: *component_type,
            },
            EitDescriptor::AudioComponent {
                component_type,
                sampling_rate,
            } => EitDescriptor::AudioComponent {
                component_type: *component_type,
                sampling_rate: *sampling_rate,
            },
            EitDescriptor::Content { nibbles } => EitDescriptor::Content {
                nibbles: clone_nibbles(nibbles),
            },
            EitDescriptor::ExtendedEvent { items } => EitDescriptor::ExtendedEvent {
                items: clone_items(items),
            },
        }
    }
}

/// One event of a schedule: a program with its start and its length.
pub struct EitEvent {
    pub event_id: EventId,
    pub start_time: Timestamp,
    pub duration: Millis,
    pub scrambled: bool,
    pub descriptors: Vec<EitDescriptor>,
}

/// What an `EitEvent` holds.
pub struct EitEventView {
    pub event_id: EventId,
    pub start_time: Timestamp,
    pub duration: Millis,
    pub scrambled: bool,
    pub descriptors: Seq<EitDescriptorView>,
}

impl EitEventView {
    /// The moment at which the event ends.
    pub open spec fn end_time(self) -> int {
        self.start_time + self.duration
    }

    pub open spec fn is_overnight_event(self, midnight: Timestamp) -> bool {
        spec_is_overnight(self.start_time as int, self.duration as int, midnight as int)
    }
}

impl DeepView for EitEvent {
    type V = EitEventView;

    open spec fn deep_view(&self) -> EitEventView {
        EitEventView {
            event_id: self.event_id,
            start_time: self.start_time,
            duration: self.duration,
            scrambled: self.scrambled,
            descriptors: self.descriptors.deep_view(),
        }
    }
}

impl Clone for EitEvent {
    fn clone(&self) -> (r: Self)
        ensures
            r.deep_view() == self.deep_view(),
    {
        let descriptors = self.descriptors.clone();
        EitEvent {
            event_id: self.event_id,
            start_time: self.start_time,
            duration: self.duration,
            scrambled: self.scrambled,
            descriptors,
        }
    }
}

impl EitEvent {
    /// Whether the end of the event can be written as a timestamp.
    pub open spec fn ends_in_range(&self) -> bool {
        i64::MIN <= self.start_time + self.duration <= i64::MAX
    }

    pub fn end_time(&self) -> (r: Timestamp)
        requires
            self.ends_in_range(),
        ensures
            r == self.deep_view().end_time(),
    {
        self.start_time + self.duration
    }

    pub fn is_overnight_event(&self, midnight: Timestamp) -> (r: bool)
        ensures
            r == self.deep_view().is_overnight_event(midnight),
    {
        self.start_time < midnight && self.start_time as i128 + self.duration as i128
            > midnight as i128
    }
}

/// One decoded section of an Event Information Table.
pub struct EitSection {
    pub original_network_id: NetworkId,
    pub transport_stream_id: TransportStreamId,
    pub service_id: ServiceId,
    pub table_id: u16,
    pub section_number: u8,
    pub last_section_number: u8,
    pub segment_last_section_number: u8,
    pub version_number: u8,
    pub events: Vec<EitEvent>,
}

/// What an `EitSection` holds.
pub struct EitSectionView {
    pub original_network_id: NetworkId,
    pub transport_stream_id: TransportStreamId,
    pub service_id: ServiceId,
    pub table_id: u16,
    pub section_number: u8,
    pub last_section_number: u8,
    pub segment_last_section_number: u8,
    pub version_number: u8,
    pub events: Seq<EitEventView>,
}

/// The first of the table identifiers that carry schedules.
pub const FIRST_TABLE_ID: u16 = 0x50;

/// The last of the table identifiers that carry schedules.
pub const LAST_TABLE_ID: u16 = 0x6F;

impl EitSectionView {
    /// Whether the section belongs to one of the schedule tables.
    pub open spec fn is_schedule_section(self) -> bool {
        FIRST_TABLE_ID <= self.table_id <= LAST_TABLE_ID
    }

    pub open spec fn table_index(self) -> int {
        self.table_id - FIRST_TABLE_ID
    }

    pub open spec fn segment_index(self) -> int {
        self.section_number as int / 8
    }

    pub open spec fn section_index(self) -> int {
        self.section_number as int % 8
    }

    pub open spec fn last_section_index(self) -> int {
        self.segment_last_section_number as int % 8
    }

    pub open spec fn service_triple(self) -> ServiceTriple {
        ServiceTriple {
            network_id: self.original_network_id,
            transport_stream_id: self.transport_stream_id,
            service_id: self.service_id,
        }
    }
}

impl DeepView for EitSection {
    type V = EitSectionView;

    open spec fn deep_view(&self) -> EitSectionView {
        EitSectionView {
            original_network_id: self.original_network_id,
            transport_stream_id: self.transport_stream_id,
            service_id: self.service_id,
            table_id: self.table_id,
            section_number: self.section_number,
            last_section_number: self.last_section_number,
            segment_last_section_number: self.segment_last_section_number,
            version_number: self.version_number,
            events: self.events.deep_view(),
        }
    }
}

impl Clone for EitSection {
    fn clone(&self) -> (r: Self)
        ensures
            r.deep_view() == self.deep_view(),
    {
        let events = self.events.clone();
        EitSection {
            original_network_id: self.original_network_id,
            transport_stream_id: self.transport_stream_id,
            service_id: self.service_id,
            table_id: self.table_id,
            section_number: self.section_number,
            last_section_number: self.last_section_number,
            segment_last_section_number: self.segment_last_section_number,
            version_number: self.version_number,
            events,
        }
    }
}

impl EitSection {
    pub fn is_schedule_section(&self) -> (r: bool)
        ensures
            r == self.deep_view().is_schedule_section(),
    {
        FIRST_TABLE_ID <= self.table_id && self.table_id <= LAST_TABLE_ID
    }

    pub fn table_index(&self) -> (r: usize)
        requires
            self.deep_view().is_schedule_section(),
        ensures
            r == self.deep_view().table_index(),
            r < 32,
    {
        (self.table_id - FIRST_TABLE_ID) as usize
    }

    pub fn segment_index(&self) -> (r: usize)
        ensures
            r == self.deep_view().segment_index(),
            r < 32,
    {
        self.section_number as usize / 8
    }

    pub fn section_index(&self) -> (r: usize)
        ensures
            r == self.deep_view().section_index(),
            r < 8,
    {
        self.section_number as usize % 8
    }

    pub fn last_section_index(&self) -> (r: usize)
        ensures
            r == self.deep_view().last_section_index(),
            r < 8,
    {
        self.segment_last_section_number as usize % 8
    }

    pub fn service_triple(&self) -> (r: ServiceTriple)
        ensures
            r == self.deep_view().service_triple(),
    {
        ServiceTriple::new(self.original_network_id, self.transport_stream_id, self.service_id)
    }
}

} // verus!
