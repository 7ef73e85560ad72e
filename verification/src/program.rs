//! The catalogue entry of a program, filled from the events that describe it.

use vstd::prelude::*;
use indexmap::IndexMap;
use crate::eit::{EitDescriptor, EitDescriptorView, EitEvent, EitEventView};
use crate::models::{EventId, EventQuad, Millis, MirakurunProgramId, NetworkId, ServiceId,
    Timestamp};
use crate::ordered_map::{collect, collected, entries, to_vec, Entry};

verus! {

/// The kind of picture of a program.
#[derive(Clone, Copy, Debug, PartialEq, Eq, Structural)]
pub struct EpgVideoInfo {
    pub stream_content: u8,
    pub component_type: u8,
}

impl EpgVideoInfo {
    pub fn new(stream_content: u8, component_type: u8) -> (r: Self)
        ensures
            r == (EpgVideoInfo { stream_content, component_type }),
    {
        EpgVideoInfo { stream_content, component_type }
    }
}

/// The kind of sound of a program.
#[derive(Clone, Copy, Debug, PartialEq, Eq, Structural)]
pub struct EpgAudioInfo {
    pub component_type: u8,
    pub sampling_rate: u8,
}

impl EpgAudioInfo {
    pub fn new(component_type: u8, sampling_rate: u8) -> (r: Self)
        ensures
            r == (EpgAudioInfo { component_type, sampling_rate }),
    {
        EpgAudioInfo { component_type, sampling_rate }
    }
}

/// A genre of a program: two levels and two user nibbles.
#[derive(Clone, Copy, Debug, PartialEq, Eq, Structural)]
pub struct EpgGenre {
    pub lv1: u8,
    pub lv2: u8,
    pub un1: u8,
    pub un2: u8,
}

impl EpgGenre {
    pub open spec fn of(nibble: (u8, u8, u8, u8)) -> Self {
        EpgGenre { lv1: nibble.0, lv2: nibble.1, un1: nibble.2, un2: nibble.3 }
    }

    pub fn new(nibble: (u8, u8, u8, u8)) -> (r: Self)
        ensures
            r == Self::of(nibble),
    {
        EpgGenre { lv1: nibble.0, lv2: nibble.1, un1: nibble.2, un2: nibble.3 }
    }
}

/// The genres that a list of nibbles stands for, in its order.
pub open spec fn genres_of(nibbles: Seq<(u8, u8, u8, u8)>) -> Seq<EpgGenre> {
    Seq::new(nibbles.len(), |i: int| EpgGenre::of(nibbles[i]))
}

pub fn collect_genres(nibbles: &Vec<(u8, u8, u8, u8)>) -> (r: Vec<EpgGenre>)
    ensures
        r@ == genres_of(nibbles@),
{
    let mut r: Vec<EpgGenre> = Vec::new();
    let mut i: usize = 0;
    while i < nibbles.len()
        invariant
            i <= nibbles.len(),
            r@ == genres_of(nibbles@.take(i as int)),
        decreases nibbles.len() - i,
    {
        r.push(EpgGenre::new(nibbles[i]));
        i += 1;
    }
    r
}

/// A program as the catalogue shows it.
pub struct ProgramModel {
    pub event_quad: EventQuad,
    pub id: MirakurunProgramId,
    pub event_id: EventId,
    pub service_id: ServiceId,
    pub network_id: NetworkId,
    pub start_at: Timestamp,
    pub duration: Millis,
    pub is_free: bool,
    pub name: Option<String>,
    pub description: Option<String>,
    pub extended: Option<IndexMap<String, String>>,
    pub video: Option<EpgVideoInfo>,
    pub audio: Option<EpgAudioInfo>,
    pub genres: Option<Vec<EpgGenre>>,
}

/// What a `ProgramModel` holds.
pub struct ProgramModelView {
    pub event_quad: EventQuad,
    pub id: MirakurunProgramId,
    pub event_id: EventId,
    pub service_id: ServiceId,
    pub network_id: NetworkId,
    pub start_at: Timestamp,
    pub duration: Millis,
    pub is_free: bool,
    pub name: Option<Seq<char>>,
    pub description: Option<Seq<char>>,
    pub extended: Option<Seq<Entry>>,
    pub video: Option<EpgVideoInfo>,
    pub audio: Option<EpgAudioInfo>,
    pub genres: Option<Seq<EpgGenre>>,
}

impl ProgramModelView {
    /// The entry of a program of which only the identifier is known.
    pub open spec fn blank(quad: EventQuad) -> Self {
        ProgramModelView {
            event_quad: quad,
            id: MirakurunProgramId { value: MirakurunProgramId::spec_of(quad) as u64 },
            event_id: quad.event_id,
            service_id: quad.service_id,
            network_id: quad.network_id,
            start_at: 0,
            duration: 0,
            is_free: false,
            name: None,
            description: None,
            extended: None,
            video: None,
            audio: None,
            genres: None,
        }
    }

    /// The entry after one descriptor was applied: each kind of descriptor
    /// overwrites the fields it speaks of.
    pub open spec fn with_descriptor(self, descriptor: EitDescriptorView) -> Self {
        match descriptor {
            EitDescriptorView::ShortEvent { event_name, text } => ProgramModelView {
                name: Some(event_name),
                description: Some(text),
                ..self
            },
            EitDescriptorView::Component {
                stream_content,
                component_type,
            } => ProgramModelView {
                video: Some(EpgVideoInfo { stream_content, component_type }),
                ..self
            },
            EitDescriptorView::AudioComponent {
                component_type,
                sampling_rate,
            } => ProgramModelView {
                audio: Some(EpgAudioInfo { component_type, sampling_rate }),
                ..self
            },
            EitDescriptorView::Content { nibbles } => ProgramModelView {
                genres: Some(genres_of(nibbles)),
                ..self
            },
            EitDescriptorView::ExtendedEvent { items } => ProgramModelView {
                extended: Some(collected(items)),
                ..self
            },
        }
    }

    /// The entry after the first `n` of `descriptors` were applied in order.
    pub open spec fn with_descriptors(self, descriptors: Seq<EitDescriptorView>, n: int) -> Self
        decreases n,
    {
        if n <= 0 {
            self
        } else {
            self.with_descriptors(descriptors, n - 1).with_descriptor(descriptors[n - 1])
        }
    }

    /// The entry after an event was applied: start, length and scrambling
    /// are taken from the event, then its descriptors are applied in order.
    pub open spec fn updated(self, event: EitEventView) -> Self {
        (ProgramModelView {
            start_at: event.start_time,
            duration: event.duration,
            is_free: !event.scrambled,
            ..self
        }).with_descriptors(event.descriptors, event.descriptors.len() as int)
    }
}

pub open spec fn option_text(text: Option<String>) -> Option<Seq<char>> {
    match text {
        Some(s) => Some(s@),
        None => None,
    }
}

impl DeepView for ProgramModel {
    type V = ProgramModelView;

    open spec fn deep_view(&self) -> ProgramModelView {
        ProgramModelView {
            event_quad: self.event_quad,
            id: self.id,
            event_id: self.event_id,
            service_id: self.service_id,
            network_id: self.network_id,
            start_at: self.start_at,
            duration: self.duration,
            is_free: self.is_free,
            name: option_text(self.name),
            description: option_text(self.description),
            extended: match self.extended {
                Some(map) => Some(entries(map)),
                None => None,
            },
            video: self.video,
            audio: self.audio,
            genres: match self.genres {
                Some(genres) => Some(genres@),
                None => None,
            },
        }
    }
}

impl ProgramModel {
    pub fn new(quad: EventQuad) -> (r: Self)
        ensures
            r.deep_view() == ProgramModelView::blank(quad),
    {
        ProgramModel {
            event_quad: quad,
            id: MirakurunProgramId::new(quad),
            event_id: quad.eid(),
            service_id: quad.sid(),
            network_id: quad.nid(),
            start_at: 0,
            duration: 0,
            is_free: false,
            name: None,
            description: None,
            extended: None,
            video: None,
            audio: None,
            genres: None,
        }
    }

    /// Takes start, length and scrambling from `event` and applies its
    /// descriptors in order; a later descriptor overwrites what an earlier
    /// one of its kind wrote.
    pub fn update(&mut self, event: &EitEvent)
        ensures
            final(self).deep_view() == old(self).deep_view().updated(event.deep_view()),
    {
        self.start_at = event.start_time;
        self.duration = event.duration;
        self.is_free = !event.scrambled;
        let ghost base = self.deep_view();
        let ghost descriptors = event.descriptors.deep_view();
        let mut i: usize = 0;
        while i < event.descriptors.len()
            invariant
                i <= event.descriptors.len(),
                descriptors == event.descriptors.deep_view(),
                self.deep_view() == base.with_descriptors(descriptors, i as int),
            decreases event.descriptors.len() - i,
        {
            match &event.descriptors[i] {
                EitDescriptor::ShortEvent { event_name, text } => {
                    self.name = Some(event_name.clone());
                    self.description = Some(text.clone());
                },
                EitDescriptor::Component { stream_content, component_type } => {
                    self.video = Some(EpgVideoInfo::new(*stream_content, *component_type));
                },
                EitDescriptor::AudioComponent { component_type, sampling_rate } => {
                    self.audio = Some(EpgAudioInfo::new(*component_type, *sampling_rate));
                },
                EitDescriptor::Content { nibbles } => {
                    self.genres = Some(collect_genres(nibbles));
                },
                EitDescriptor::ExtendedEvent { items } => {
                    self.extended = Some(collect(items));
                },
            }
            i += 1;
        }
    }

    /// The entries of the extended description, in their order.
    pub fn extended_items(&self) -> (r: Option<Vec<(String, String)>>)
        ensures
            r.deep_view() == self.deep_view().extended,
    {
        match &self.extended {
            Some(map) => Some(to_vec(map)),
            None => None,
        }
    }
}

} // verus!
