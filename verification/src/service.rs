//! Channels and services as the EPG engine knows them, and the requests it
//! sends to open a tuner.

use vstd::prelude::*;
use crate::config::{clone_service_ids, ChannelConfig, ChannelConfigView};
use crate::models::{ChannelType, Clock, Millis, MirakurunServiceId, NetworkId, ServiceId,
    ServiceTriple, TransportStreamId};
use crate::user::{TunerUser, TunerUserView};

verus! {

/// A channel that the EPG engine sweeps.
pub struct EpgChannel {
    pub name: String,
    pub channel_type: ChannelType,
    pub channel: String,
    pub excluded_services: Vec<ServiceId>,
}

/// What an `EpgChannel` holds.
pub struct EpgChannelView {
    pub name: Seq<char>,
    pub channel_type: ChannelType,
    pub channel: Seq<char>,
    pub excluded_services: Seq<ServiceId>,
}

impl EpgChannelView {
    /// The channel that a configuration describes.
    pub open spec fn of(config: ChannelConfigView) -> Self {
        EpgChannelView {
            name: config.name,
            channel_type: config.channel_type,
            channel: config.channel,
            excluded_services: config.excluded_services,
        }
    }

    /// How a tuner is asked for the channel.
    pub open spec fn open_tuner_by(self) -> OpenTunerByView {
        OpenTunerByView::Channel { channel_type: self.channel_type, channel: self.channel }
    }

    /// The channel as the catalogue shows it.
    pub open spec fn model(self) -> ServiceChannelModelView {
        ServiceChannelModelView { channel_type: self.channel_type, channel: self.channel }
    }
}

impl DeepView for EpgChannel {
    type V = EpgChannelView;

    open spec fn deep_view(&self) -> EpgChannelView {
        EpgChannelView {
            name: self.name@,
            channel_type: self.channel_type,
            channel: self.channel@,
            excluded_services: self.excluded_services@,
        }
    }
}

impl Clone for EpgChannel {
    fn clone(&self) -> (r: Self)
        ensures
            r.deep_view() == self.deep_view(),
    {
        EpgChannel {
            name: self.name.clone(),
            channel_type: self.channel_type,
            channel: self.channel.clone(),
            excluded_services: clone_service_ids(&self.excluded_services),
        }
    }
}

impl EpgChannel {
    pub fn from(config: ChannelConfig) -> (r: Self)
        ensures
            r.deep_view() == EpgChannelView::of(config.deep_view()),
    {
        EpgChannel {
            name: config.name,
            channel_type: config.channel_type,
            channel: config.channel,
            excluded_services: config.excluded_services,
        }
    }

    /// How a tuner is asked for this channel.
    pub fn into_open_tuner_by(self) -> (r: OpenTunerBy)
        ensures
            r.deep_view() == self.deep_view().open_tuner_by(),
    {
        OpenTunerBy::Channel { channel_type: self.channel_type, channel: self.channel }
    }

    /// The channel as the catalogue shows it.
    pub fn into_model(self) -> (r: ServiceChannelModel)
        ensures
            r.deep_view() == self.deep_view().model(),
    {
        ServiceChannelModel { channel_type: self.channel_type, channel: self.channel }
    }
}

/// How a tuner is asked for.
pub enum OpenTunerBy {
    Channel { channel_type: ChannelType, channel: String },
}

/// What an `OpenTunerBy` holds.
pub enum OpenTunerByView {
    Channel { channel_type: ChannelType, channel: Seq<char> },
}

impl DeepView for OpenTunerBy {
    type V = OpenTunerByView;

    open spec fn deep_view(&self) -> OpenTunerByView {
        match *self {
            OpenTunerBy::Channel { channel_type, channel } => OpenTunerByView::Channel {
                channel_type,
                channel: channel@,
            },
        }
    }
}

/// A request to open a tuner.
pub struct OpenTunerMessage {
    pub by: OpenTunerBy,
    pub user: TunerUser,
    /// How long the tuner is to run; without a limit where there is none.
    pub duration: Option<Millis>,
    pub preprocess: bool,
    pub postprocess: bool,
}

/// What an `OpenTunerMessage` holds.
pub struct OpenTunerMessageView {
    pub by: OpenTunerByView,
    pub user: TunerUserView,
    pub duration: Option<Millis>,
    pub preprocess: bool,
    pub postprocess: bool,
}

impl OpenTunerMessageView {
    /// The request with which the EPG engine opens a tuner on a channel:
    /// as the background user `epg`, without any processing of the stream.
    pub open spec fn for_epg(channel: EpgChannelView, duration: Option<Millis>) -> Self {
        OpenTunerMessageView {
            by: channel.open_tuner_by(),
            user: TunerUserView::background("epg"@),
            duration,
            preprocess: false,
            postprocess: false,
        }
    }
}

impl DeepView for OpenTunerMessage {
    type V = OpenTunerMessageView;

    open spec fn deep_view(&self) -> OpenTunerMessageView {
        OpenTunerMessageView {
            by: self.by.deep_view(),
            user: self.user.deep_view(),
            duration: self.duration,
            preprocess: self.preprocess,
            postprocess: self.postprocess,
        }
    }
}

impl OpenTunerMessage {
    /// The request with which the EPG engine opens a tuner on a channel.
    pub fn for_epg(channel: &EpgChannel, duration: Option<Millis>) -> (r: Self)
        ensures
            r.deep_view() == OpenTunerMessageView::for_epg(channel.deep_view(), duration),
    {
        OpenTunerMessage {
            by: channel.clone().into_open_tuner_by(),
            user: TunerUser::background("epg".to_owned()),
            duration,
            preprocess: false,
            postprocess: false,
        }
    }
}

/// A service as the service scanner reports it.
pub struct TsService {
    pub nid: NetworkId,
    pub tsid: TransportStreamId,
    pub sid: ServiceId,
    pub service_type: u16,
    pub logo_id: i16,
    pub remote_control_key_id: u16,
    pub name: String,
}

/// What a `TsService` holds.
pub struct TsServiceView {
    pub nid: NetworkId,
    pub tsid: TransportStreamId,
    pub sid: ServiceId,
    pub service_type: u16,
    pub logo_id: i16,
    pub remote_control_key_id: u16,
    pub name: Seq<char>,
}

impl DeepView for TsService {
    type V = TsServiceView;

    open spec fn deep_view(&self) -> TsServiceView {
        TsServiceView {
            nid: self.nid,
            tsid: self.tsid,
            sid: self.sid,
            service_type: self.service_type,
            logo_id: self.logo_id,
            remote_control_key_id: self.remote_control_key_id,
            name: self.name@,
        }
    }
}

/// A service together with the channel on which it was found.
pub struct EpgService {
    pub nid: NetworkId,
    pub tsid: TransportStreamId,
    pub sid: ServiceId,
    pub service_type: u16,
    pub logo_id: i16,
    pub remote_control_key_id: u16,
    pub name: String,
    pub channel: EpgChannel,
}

/// What an `EpgService` holds.
pub struct EpgServiceView {
    pub nid: NetworkId,
    pub tsid: TransportStreamId,
    pub sid: ServiceId,
    pub service_type: u16,
    pub logo_id: i16,
    pub remote_control_key_id: u16,
    pub name: Seq<char>,
    pub channel: EpgChannelView,
}

impl EpgServiceView {
    /// The service that was found on a channel.
    pub open spec fn of(channel: EpgChannelView, service: TsServiceView) -> Self {
        EpgServiceView {
            nid: service.nid,
            tsid: service.tsid,
            sid: service.sid,
            service_type: service.service_type,
            logo_id: service.logo_id,
            remote_control_key_id: service.remote_control_key_id,
            name: service.name,
            channel,
        }
    }

    pub open spec fn triple(self) -> ServiceTriple {
        ServiceTriple { network_id: self.nid, transport_stream_id: self.tsid, service_id: self.sid }
    }

    /// The service as the catalogue shows it.
    pub open spec fn model(self) -> ServiceModelView {
        ServiceModelView {
            id: MirakurunServiceId { value: MirakurunServiceId::spec_of(self.triple()) as u64 },
            service_id: self.sid,
            network_id: self.nid,
            service_type: self.service_type,
            logo_id: self.logo_id,
            remote_control_key_id: self.remote_control_key_id,
            name: self.name,
            channel: self.channel.model(),
            has_logo_data: false,
        }
    }
}

impl DeepView for EpgService {
    type V = EpgServiceView;

    open spec fn deep_view(&self) -> EpgServiceView {
        EpgServiceView {
            nid: self.nid,
            tsid: self.tsid,
            sid: self.sid,
            service_type: self.service_type,
            logo_id: self.logo_id,
            remote_control_key_id: self.remote_control_key_id,
            name: self.name@,
            channel: self.channel.deep_view(),
        }
    }
}

impl Clone for EpgService {
    fn clone(&self) -> (r: Self)
        ensures
            r.deep_view() == self.deep_view(),
    {
        EpgService {
            nid: self.nid,
            tsid: self.tsid,
            sid: self.sid,
            service_type: self.service_type,
            logo_id: self.logo_id,
            remote_control_key_id: self.remote_control_key_id,
            name: self.name.clone(),
            channel: self.channel.clone(),
        }
    }
}

impl EpgService {
    pub fn from(channel: &EpgChannel, service: &TsService) -> (r: Self)
        ensures
            r.deep_view() == EpgServiceView::of(channel.deep_view(), service.deep_view()),
    {
        EpgService {
            nid: service.nid,
            tsid: service.tsid,
            sid: service.sid,
            service_type: service.service_type,
            logo_id: service.logo_id,
            remote_control_key_id: service.remote_control_key_id,
            name: service.name.clone(),
            channel: channel.clone(),
        }
    }

    pub fn triple(&self) -> (r: ServiceTriple)
        ensures
            r == self.deep_view().triple(),
    {
        ServiceTriple::new(self.nid, self.tsid, self.sid)
    }

    /// The service as the catalogue shows it.
    pub fn into_model(self) -> (r: ServiceModel)
        ensures
            r.deep_view() == self.deep_view().model(),
    {
        ServiceModel {
            id: MirakurunServiceId::new(ServiceTriple::new(self.nid, self.tsid, self.sid)),
            service_id: self.sid,
            network_id: self.nid,
            service_type: self.service_type,
            logo_id: self.logo_id,
            remote_control_key_id: self.remote_control_key_id,
            name: self.name,
            channel: self.channel.into_model(),
            has_logo_data: false,
        }
    }
}

/// A channel in the catalogue.
pub struct ServiceChannelModel {
    pub channel_type: ChannelType,
    pub channel: String,
}

/// What a `ServiceChannelModel` holds.
pub struct ServiceChannelModelView {
    pub channel_type: ChannelType,
    pub channel: Seq<char>,
}

impl DeepView for ServiceChannelModel {
    type V = ServiceChannelModelView;

    open spec fn deep_view(&self) -> ServiceChannelModelView {
        ServiceChannelModelView { channel_type: self.channel_type, channel: self.channel@ }
    }
}

/// A service in the catalogue.
pub struct ServiceModel {
    pub id: MirakurunServiceId,
    pub service_id: ServiceId,
    pub network_id: NetworkId,
    pub service_type: u16,
    pub logo_id: i16,
    pub remote_control_key_id: u16,
    pub name: String,
    pub channel: ServiceChannelModel,
    pub has_logo_data: bool,
}

/// What a `ServiceModel` holds.
pub struct ServiceModelView {
    pub id: MirakurunServiceId,
    pub service_id: ServiceId,
    pub network_id: NetworkId,
    pub service_type: u16,
    pub logo_id: i16,
    pub remote_control_key_id: u16,
    pub name: Seq<char>,
    pub channel: ServiceChannelModelView,
    pub has_logo_data: bool,
}

impl DeepView for ServiceModel {
    type V = ServiceModelView;

    open spec fn deep_view(&self) -> ServiceModelView {
        ServiceModelView {
            id: self.id,
            service_id: self.service_id,
            network_id: self.network_id,
            service_type: self.service_type,
            logo_id: self.logo_id,
            remote_control_key_id: self.remote_control_key_id,
            name: self.name@,
            channel: self.channel.deep_view(),
            has_logo_data: self.has_logo_data,
        }
    }
}

/// The clock of a service as the clock synchroniser reports it.
#[derive(Clone, Copy, Debug, PartialEq, Eq, Structural)]
pub struct SyncClock {
    pub nid: NetworkId,
    pub tsid: TransportStreamId,
    pub sid: ServiceId,
    pub clock: Clock,
}

impl SyncClock {
    pub open spec fn spec_triple(self) -> ServiceTriple {
        ServiceTriple { network_id: self.nid, transport_stream_id: self.tsid, service_id: self.sid }
    }

    pub fn triple(&self) -> (r: ServiceTriple)
        ensures
            r == self.spec_triple(),
    {
        ServiceTriple::new(self.nid, self.tsid, self.sid)
    }
}

} // verus!
