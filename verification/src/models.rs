//! Identifiers and plain value types shared by the tuner manager and the EPG
//! engine.

use vstd::prelude::*;
use vstd::std_specs::convert::FromSpecImpl;

verus! {

pub type NetworkId = u16;

pub type TransportStreamId = u16;

pub type ServiceId = u16;

pub type EventId = u16;

/// Milliseconds since the Unix epoch.
pub type Timestamp = i64;

/// A span of time in milliseconds.
pub type Millis = i64;

/// The kind of broadcast a channel belongs to.
#[derive(Clone, Copy, Debug, PartialEq, Eq, Structural, Hash)]
pub enum ChannelType {
    GR,
    BS,
    CS,
    SKY,
}

impl ChannelType {
    /// The name under which the channel type appears in commands.
    pub open spec fn spec_name(self) -> Seq<char> {
        match self {
            ChannelType::GR => seq!['G', 'R'],
            ChannelType::BS => seq!['B', 'S'],
            ChannelType::CS => seq!['C', 'S'],
            ChannelType::SKY => seq!['S', 'K', 'Y'],
        }
    }

    pub fn name(&self) -> (r: &'static str)
        ensures
            r@ == self.spec_name(),
    {
        match self {
            ChannelType::GR => {
                proof {
                    reveal_strlit("GR");
                }
                "GR"
            },
            ChannelType::BS => {
                proof {
                    reveal_strlit("BS");
                }
                "BS"
            },
            ChannelType::CS => {
                proof {
                    reveal_strlit("CS");
                }
                "CS"
            },
            ChannelType::SKY => {
                proof {
                    reveal_strlit("SKY");
                }
                "SKY"
            },
        }
    }
}

/// The unique identifier of a broadcast service.
#[derive(Clone, Copy, Debug, PartialEq, Eq, Structural, Hash)]
pub struct ServiceTriple {
    pub network_id: NetworkId,
    pub transport_stream_id: TransportStreamId,
    pub service_id: ServiceId,
}

impl ServiceTriple {
    pub fn new(nid: NetworkId, tsid: TransportStreamId, sid: ServiceId) -> (r: Self)
        ensures
            r == (ServiceTriple { network_id: nid, transport_stream_id: tsid, service_id: sid }),
    {
        ServiceTriple { network_id: nid, transport_stream_id: tsid, service_id: sid }
    }

    pub fn nid(&self) -> (r: NetworkId)
        ensures
            r == self.network_id,
    {
        self.network_id
    }

    pub fn tsid(&self) -> (r: TransportStreamId)
        ensures
            r == self.transport_stream_id,
    {
        self.transport_stream_id
    }

    pub fn sid(&self) -> (r: ServiceId)
        ensures
            r == self.service_id,
    {
        self.service_id
    }

    /// The triple packed into one number, sixteen bits for each part.
    pub open spec fn spec_value(self) -> int {
        self.network_id * 0x1_0000_0000 + self.transport_stream_id * 0x1_0000 + self.service_id
    }

    pub fn value(&self) -> (r: u64)
        ensures
            r == self.spec_value(),
    {
        self.network_id as u64 * 0x1_0000_0000 + self.transport_stream_id as u64 * 0x1_0000
            + self.service_id as u64
    }
}

impl From<(NetworkId, TransportStreamId, ServiceId)> for ServiceTriple {
    fn from(v: (NetworkId, TransportStreamId, ServiceId)) -> (r: Self) {
        ServiceTriple { network_id: v.0, transport_stream_id: v.1, service_id: v.2 }
    }
}

impl FromSpecImpl<(NetworkId, TransportStreamId, ServiceId)> for ServiceTriple {
    open spec fn obeys_from_spec() -> bool {
        true
    }

    open spec fn from_spec(v: (NetworkId, TransportStreamId, ServiceId)) -> Self {
        ServiceTriple { network_id: v.0, transport_stream_id: v.1, service_id: v.2 }
    }
}

/// Two triples pack into the same number only if they are the same triple.
pub proof fn lemma_service_triple_value_injective(a: ServiceTriple, b: ServiceTriple)
    requires
        a.spec_value() == b.spec_value(),
    ensures
        a == b,
{
}

/// The unique identifier of a program: a service and an event of it.
#[derive(Clone, Copy, Debug, PartialEq, Eq, Structural, Hash)]
pub struct EventQuad {
    pub network_id: NetworkId,
    pub transport_stream_id: TransportStreamId,
    pub service_id: ServiceId,
    pub event_id: EventId,
}

impl EventQuad {
    pub fn new(triple: ServiceTriple, eid: EventId) -> (r: Self)
        ensures
            r == Self::of(triple, eid),
    {
        EventQuad {
            network_id: triple.network_id,
            transport_stream_id: triple.transport_stream_id,
            service_id: triple.service_id,
            event_id: eid,
        }
    }

    pub open spec fn of(triple: ServiceTriple, eid: EventId) -> Self {
        EventQuad {
            network_id: triple.network_id,
            transport_stream_id: triple.transport_stream_id,
            service_id: triple.service_id,
            event_id: eid,
        }
    }

    pub fn nid(&self) -> (r: NetworkId)
        ensures
            r == self.network_id,
    {
        self.network_id
    }

    pub fn tsid(&self) -> (r: TransportStreamId)
        ensures
            r == self.transport_stream_id,
    {
        self.transport_stream_id
    }

    pub fn sid(&self) -> (r: ServiceId)
        ensures
            r == self.service_id,
    {
        self.service_id
    }

    pub fn eid(&self) -> (r: EventId)
        ensures
            r == self.event_id,
    {
        self.event_id
    }
}

impl From<(ServiceTriple, EventId)> for EventQuad {
    fn from(v: (ServiceTriple, EventId)) -> (r: Self) {
        EventQuad::new(v.0, v.1)
    }
}

impl FromSpecImpl<(ServiceTriple, EventId)> for EventQuad {
    open spec fn obeys_from_spec() -> bool {
        true
    }

    open spec fn from_spec(v: (ServiceTriple, EventId)) -> Self {
        EventQuad::of(v.0, v.1)
    }
}

/// The number by which a service is known to clients: the network
/// identifier followed by the service identifier in five decimal digits.
#[derive(Clone, Copy, Debug, PartialEq, Eq, Structural, Hash)]
pub struct MirakurunServiceId {
    pub value: u64,
}

impl MirakurunServiceId {
    pub open spec fn spec_of(triple: ServiceTriple) -> int {
        triple.network_id * 100_000 + triple.service_id
    }

    pub fn new(triple: ServiceTriple) -> (r: Self)
        ensures
            r.value == Self::spec_of(triple),
    {
        MirakurunServiceId { value: triple.network_id as u64 * 100_000 + triple.service_id as u64 }
    }

    pub fn value(&self) -> (r: u64)
        ensures
            r == self.value,
    {
        self.value
    }
}

/// The number by which a program is known to clients: the network
/// identifier followed by the service identifier and the event identifier, in
/// five decimal digits each.
#[derive(Clone, Copy, Debug, PartialEq, Eq, Structural, Hash)]
pub struct MirakurunProgramId {
    pub value: u64,
}

impl MirakurunProgramId {
    pub open spec fn spec_of(quad: EventQuad) -> int {
        quad.network_id * 10_000_000_000 + quad.service_id * 100_000 + quad.event_id
    }

    pub fn new(quad: EventQuad) -> (r: Self)
        ensures
            r.value == Self::spec_of(quad),
    {
        MirakurunProgramId {
            value: quad.network_id as u64 * 10_000_000_000 + quad.service_id as u64 * 100_000
                + quad.event_id as u64,
        }
    }

    pub fn value(&self) -> (r: u64)
        ensures
            r == self.value,
    {
        self.value
    }
}

/// Within one service, two events have the same program number only if they
/// have the same event identifier.
pub proof fn lemma_program_id_separates_events(triple: ServiceTriple, a: EventId, b: EventId)
    requires
        MirakurunProgramId::spec_of(EventQuad::of(triple, a)) == MirakurunProgramId::spec_of(
            EventQuad::of(triple, b),
        ),
    ensures
        a == b,
{
}

/// A reading of a service's clock: the program clock reference and the
/// wall-clock time that it stands for.
#[derive(Clone, Copy, Debug, PartialEq, Eq, Structural)]
pub struct Clock {
    pub pcr: i64,
    pub time: Timestamp,
}

} // verus!
