//! The parts of the configuration that the tuner manager and the EPG engine
//! read.

use vstd::prelude::*;
use crate::models::{ChannelType, ServiceId};

verus! {

/// A copy of a list of service identifiers.
pub fn clone_service_ids(ids: &Vec<ServiceId>) -> (r: Vec<ServiceId>)
    ensures
        r@ == ids@,
{
    let r = ids.clone();
    r
}

/// A copy of a list of channel types.
pub fn clone_channel_types(types: &Vec<ChannelType>) -> (r: Vec<ChannelType>)
    ensures
        r@ == types@,
{
    let mut r: Vec<ChannelType> = Vec::new();
    let mut i: usize = 0;
    while i < types.len()
        invariant
            i <= types.len(),
            r@ == types@.take(i as int),
        decreases types.len() - i,
    {
        r.push(types[i]);
        i += 1;
    }
    r
}

/// A channel as it is configured.
pub struct ChannelConfig {
    pub name: String,
    pub channel_type: ChannelType,
    pub channel: String,
    pub excluded_services: Vec<ServiceId>,
    pub disabled: bool,
}

/// What a `ChannelConfig` holds.
pub struct ChannelConfigView {
    pub name: Seq<char>,
    pub channel_type: ChannelType,
    pub channel: Seq<char>,
    pub excluded_services: Seq<ServiceId>,
    pub disabled: bool,
}

impl DeepView for ChannelConfig {
    type V = ChannelConfigView;

    open spec fn deep_view(&self) -> ChannelConfigView {
        ChannelConfigView {
            name: self.name@,
            channel_type: self.channel_type,
            channel: self.channel@,
            excluded_services: self.excluded_services@,
            disabled: self.disabled,
        }
    }
}

impl Clone for ChannelConfig {
    fn clone(&self) -> (r: Self)
        ensures
            r.deep_view() == self.deep_view(),
    {
        ChannelConfig {
            name: self.name.clone(),
            channel_type: self.channel_type,
            channel: self.channel.clone(),
            excluded_services: clone_service_ids(&self.excluded_services),
            disabled: self.disabled,
        }
    }
}

/// A tuner as it is configured.
pub struct TunerConfig {
    pub name: String,
    pub channel_types: Vec<ChannelType>,
    pub command: String,
    pub disabled: bool,
}

/// What a `TunerConfig` holds.
pub struct TunerConfigView {
    pub name: Seq<char>,
    pub channel_types: Seq<ChannelType>,
    pub command: Seq<char>,
    pub disabled: bool,
}

impl DeepView for TunerConfig {
    type V = TunerConfigView;

    open spec fn deep_view(&self) -> TunerConfigView {
        TunerConfigView {
            name: self.name@,
            channel_types: self.channel_types@,
            command: self.command@,
            disabled: self.disabled,
        }
    }
}

/// The commands of the tools through which the EPG engine pipes a tuner's
/// output.
pub struct ToolsConfig {
    pub scan_services: String,
    pub sync_clock: String,
    pub collect_eits: String,
}

/// The configuration.
pub struct Config {
    pub epg_cache_dir: String,
    pub tools: ToolsConfig,
    pub channels: Vec<ChannelConfig>,
    pub tuners: Vec<TunerConfig>,
}

} // verus!
