//! The library's own record types for the entities the audio server
//! enumerates: sinks, sources, sink inputs and source outputs.
//!
//! They mirror what the native introspection callbacks report, holding the
//! descriptive fields as plain values. Text fields arrive borrowed from the
//! callback's scope as `Cow::Borrowed` and are turned into owned values by
//! the normalization in [`crate::to_static`].

use std::borrow::Cow;
use vstd::prelude::*;

verus! {

/// Availability of a port.
#[derive(Clone, Copy, Debug, PartialEq, Eq, Structural)]
pub enum PortAvailable {
    Unknown,
    No,
    Yes,
}

/// Volume of a single channel.
#[derive(Clone, Copy, Debug, PartialEq, Eq, Structural)]
pub struct Volume(pub u32);

/// A length of time in microseconds.
#[derive(Clone, Copy, Debug, PartialEq, Eq, Structural)]
pub struct MicroSeconds(pub u64);

/// A sample format specification: format code, channel count and rate.
#[derive(Clone, Copy, Debug, PartialEq, Eq, Structural)]
pub struct SampleSpec {
    pub format: u8,
    pub channels: u8,
    pub rate: u32,
}

/// Running state of a sink.
#[derive(Clone, Copy, Debug, PartialEq, Eq, Structural)]
pub enum SinkState {
    Invalid,
    Running,
    Idle,
    Suspended,
}

/// Running state of a source.
#[derive(Clone, Copy, Debug, PartialEq, Eq, Structural)]
pub enum SourceState {
    Invalid,
    Running,
    Idle,
    Suspended,
}

impl DeepView for PortAvailable {
    type V = PortAvailable;

    open spec fn deep_view(&self) -> PortAvailable {
        *self
    }
}

impl DeepView for Volume {
    type V = Volume;

    open spec fn deep_view(&self) -> Volume {
        *self
    }
}

impl DeepView for MicroSeconds {
    type V = MicroSeconds;

    open spec fn deep_view(&self) -> MicroSeconds {
        *self
    }
}

impl DeepView for SampleSpec {
    type V = SampleSpec;

    open spec fn deep_view(&self) -> SampleSpec {
        *self
    }
}

impl DeepView for SinkState {
    type V = SinkState;

    open spec fn deep_view(&self) -> SinkState {
        *self
    }
}

impl DeepView for SourceState {
    type V = SourceState;

    open spec fn deep_view(&self) -> SourceState {
        *self
    }
}

/// A channel position map: one position code per channel.
#[derive(Clone, Debug, PartialEq)]
pub struct ChannelMap {
    pub positions: Vec<u8>,
}

impl DeepView for ChannelMap {
    type V = Seq<u8>;

    open spec fn deep_view(&self) -> Seq<u8> {
        self.positions.deep_view()
    }
}

/// Per-channel volumes.
#[derive(Clone, Debug, PartialEq)]
pub struct ChannelVolumes {
    pub volumes: Vec<Volume>,
}

impl DeepView for ChannelVolumes {
    type V = Seq<Volume>;

    open spec fn deep_view(&self) -> Seq<Volume> {
        self.volumes.deep_view()
    }
}

/// A free-form property list: key/value pairs of text.
#[derive(Clone, Debug, PartialEq)]
pub struct Proplist {
    pub entries: Vec<(String, String)>,
}

impl DeepView for Proplist {
    type V = Seq<(Seq<char>, Seq<char>)>;

    open spec fn deep_view(&self) -> Seq<(Seq<char>, Seq<char>)> {
        self.entries.deep_view()
    }
}

/// One format the server may negotiate: an encoding code and its properties.
#[derive(Clone, Debug, PartialEq)]
pub struct FormatInfo {
    pub encoding: u8,
    pub properties: Proplist,
}

/// Mathematical value of a [`FormatInfo`].
pub ghost struct FormatInfoModel {
    pub encoding: u8,
    pub properties: Seq<(Seq<char>, Seq<char>)>,
}

impl DeepView for FormatInfo {
    type V = FormatInfoModel;

    open spec fn deep_view(&self) -> FormatInfoModel {
        FormatInfoModel { encoding: self.encoding, properties: self.properties.deep_view() }
    }
}

/// One port of a sink, as the introspection callback reports it: the text
/// fields may still borrow from the callback's scope.
#[derive(Clone, Debug, PartialEq)]
pub struct SinkPortInfo<'a> {
    pub name: Option<Cow<'a, str>>,
    pub description: Option<Cow<'a, str>>,
    pub priority: u32,
    pub available: PortAvailable,
}

/// Mathematical value of a [`SinkPortInfo`], independent of how its text is
/// held.
pub ghost struct SinkPortInfoModel {
    pub name: Option<Seq<char>>,
    pub description: Option<Seq<char>>,
    pub priority: u32,
    pub available: PortAvailable,
}

impl<'a> DeepView for SinkPortInfo<'a> {
    type V = SinkPortInfoModel;

    open spec fn deep_view(&self) -> SinkPortInfoModel {
        SinkPortInfoModel {
            name: self.name.deep_view(),
            description: self.description.deep_view(),
            priority: self.priority,
            available: self.available,
        }
    }
}

/// One port of a source; same shape as a sink's port.
#[derive(Clone, Debug, PartialEq)]
pub struct SourcePortInfo<'a> {
    pub name: Option<Cow<'a, str>>,
    pub description: Option<Cow<'a, str>>,
    pub priority: u32,
    pub available: PortAvailable,
}

/// Mathematical value of a [`SourcePortInfo`].
pub ghost struct SourcePortInfoModel {
    pub name: Option<Seq<char>>,
    pub description: Option<Seq<char>>,
    pub priority: u32,
    pub available: PortAvailable,
}

impl<'a> DeepView for SourcePortInfo<'a> {
    type V = SourcePortInfoModel;

    open spec fn deep_view(&self) -> SourcePortInfoModel {
        SourcePortInfoModel {
            name: self.name.deep_view(),
            description: self.description.deep_view(),
            priority: self.priority,
            available: self.available,
        }
    }
}

/// A sink (an output device), as one introspection callback reports it.
#[derive(Clone, Debug, PartialEq)]
pub struct SinkInfo<'a> {
    pub name: Option<Cow<'a, str>>,
    pub index: u32,
    pub description: Option<Cow<'a, str>>,
    pub sample_spec: SampleSpec,
    pub channel_map: ChannelMap,
    pub owner_module: Option<u32>,
    pub volume: ChannelVolumes,
    pub mute: bool,
    pub monitor_source: u32,
    pub monitor_source_name: Option<Cow<'a, str>>,
    pub latency: MicroSeconds,
    pub driver: Option<Cow<'a, str>>,
    pub flags: u32,
    pub proplist: Proplist,
    pub configured_latency: MicroSeconds,
    pub base_volume: Volume,
    pub state: SinkState,
    pub n_volume_steps: u32,
    pub card: Option<u32>,
    pub ports: Vec<SinkPortInfo<'a>>,
    pub active_port: Option<Box<SinkPortInfo<'a>>>,
    pub formats: Vec<FormatInfo>,
}

/// Mathematical value of a [`SinkInfo`].
pub ghost struct SinkInfoModel {
    pub name: Option<Seq<char>>,
    pub index: u32,
    pub description: Option<Seq<char>>,
    pub sample_spec: SampleSpec,
    pub channel_map: Seq<u8>,
    pub owner_module: Option<u32>,
    pub volume: Seq<Volume>,
    pub mute: bool,
    pub monitor_source: u32,
    pub monitor_source_name: Option<Seq<char>>,
    pub latency: MicroSeconds,
    pub driver: Option<Seq<char>>,
    pub flags: u32,
    pub proplist: Seq<(Seq<char>, Seq<char>)>,
    pub configured_latency: MicroSeconds,
    pub base_volume: Volume,
    pub state: SinkState,
    pub n_volume_steps: u32,
    pub card: Option<u32>,
    pub ports: Seq<SinkPortInfoModel>,
    pub active_port: Option<SinkPortInfoModel>,
    pub formats: Seq<FormatInfoModel>,
}

impl<'a> DeepView for SinkInfo<'a> {
    type V = SinkInfoModel;

    open spec fn deep_view(&self) -> SinkInfoModel {
        SinkInfoModel {
            name: self.name.deep_view(),
            index: self.index,
            description: self.description.deep_view(),
            sample_spec: self.sample_spec,
            channel_map: self.channel_map.deep_view(),
            owner_module: self.owner_module,
            volume: self.volume.deep_view(),
            mute: self.mute,
            monitor_source: self.monitor_source,
            monitor_source_name: self.monitor_source_name.deep_view(),
            latency: self.latency,
            driver: self.driver.deep_view(),
            flags: self.flags,
            proplist: self.proplist.deep_view(),
            configured_latency: self.configured_latency,
            base_volume: self.base_volume,
            state: self.state,
            n_volume_steps: self.n_volume_steps,
            card: self.card,
            ports: self.ports.deep_view(),
            active_port: self.active_port.deep_view(),
            formats: self.formats.deep_view(),
        }
    }
}

/// A source (an input device), as one introspection callback reports it.
#[derive(Clone, Debug, PartialEq)]
pub struct SourceInfo<'a> {
    pub name: Option<Cow<'a, str>>,
    pub index: u32,
    pub description: Option<Cow<'a, str>>,
    pub sample_spec: SampleSpec,
    pub channel_map: ChannelMap,
    pub owner_module: Option<u32>,
    pub volume: ChannelVolumes,
    pub mute: bool,
    pub monitor_of_sink: Option<u32>,
    pub monitor_of_sink_name: Option<Cow<'a, str>>,
    pub latency: MicroSeconds,
    pub driver: Option<Cow<'a, str>>,
    pub flags: u32,
    pub proplist: Proplist,
    pub configured_latency: MicroSeconds,
    pub base_volume: Volume,
    pub state: SourceState,
    pub n_volume_steps: u32,
    pub card: Option<u32>,
    pub ports: Vec<SourcePortInfo<'a>>,
    pub active_port: Option<Box<SourcePortInfo<'a>>>,
    pub formats: Vec<FormatInfo>,
}

/// Mathematical value of a [`SourceInfo`].
pub ghost struct SourceInfoModel {
    pub name: Option<Seq<char>>,
    pub index: u32,
    pub description: Option<Seq<char>>,
    pub sample_spec: SampleSpec,
    pub channel_map: Seq<u8>,
    pub owner_module: Option<u32>,
    pub volume: Seq<Volume>,
    pub mute: bool,
    pub monitor_of_sink: Option<u32>,
    pub monitor_of_sink_name: Option<Seq<char>>,
    pub latency: MicroSeconds,
    pub driver: Option<Seq<char>>,
    pub flags: u32,
    pub proplist: Seq<(Seq<char>, Seq<char>)>,
    pub configured_latency: MicroSeconds,
    pub base_volume: Volume,
    pub state: SourceState,
    pub n_volume_steps: u32,
    pub card: Option<u32>,
    pub ports: Seq<SourcePortInfoModel>,
    pub active_port: Option<SourcePortInfoModel>,
    pub formats: Seq<FormatInfoModel>,
}

impl<'a> DeepView for SourceInfo<'a> {
    type V = SourceInfoModel;

    open spec fn deep_view(&self) -> SourceInfoModel {
        SourceInfoModel {
            name: self.name.deep_view(),
            index: self.index,
            description: self.description.deep_view(),
            sample_spec: self.sample_spec,
            channel_map: self.channel_map.deep_view(),
            owner_module: self.owner_module,
            volume: self.volume.deep_view(),
            mute: self.mute,
            monitor_of_sink: self.monitor_of_sink,
            monitor_of_sink_name: self.monitor_of_sink_name.deep_view(),
            latency: self.latency,
            driver: self.driver.deep_view(),
            flags: self.flags,
            proplist: self.proplist.deep_view(),
            configured_latency: self.configured_latency,
            base_volume: self.base_volume,
            state: self.state,
            n_volume_steps: self.n_volume_steps,
            card: self.card,
            ports: self.ports.deep_view(),
            active_port: self.active_port.deep_view(),
            formats: self.formats.deep_view(),
        }
    }
}

/// A sink input (a playback stream), as one introspection callback reports
/// it.
#[derive(Clone, Debug, PartialEq)]
pub struct SinkInputInfo<'a> {
    pub index: u32,
    pub name: Option<Cow<'a, str>>,
    pub owner_module: Option<u32>,
    pub client: Option<u32>,
    pub sink: u32,
    pub sample_spec: SampleSpec,
    pub channel_map: ChannelMap,
    pub volume: ChannelVolumes,
    pub buffer_usec: MicroSeconds,
    pub sink_usec: MicroSeconds,
    pub resample_method: Option<Cow<'a, str>>,
    pub driver: Option<Cow<'a, str>>,
    pub mute: bool,
    pub proplist: Proplist,
    pub corked: bool,
    pub has_volume: bool,
    pub volume_writable: bool,
    pub format: FormatInfo,
}

/// Mathematical value of a [`SinkInputInfo`].
pub ghost struct SinkInputInfoModel {
    pub index: u32,
    pub name: Option<Seq<char>>,
    pub owner_module: Option<u32>,
    pub client: Option<u32>,
    pub sink: u32,
    pub sample_spec: SampleSpec,
    pub channel_map: Seq<u8>,
    pub volume: Seq<Volume>,
    pub buffer_usec: MicroSeconds,
    pub sink_usec: MicroSeconds,
    pub resample_method: Option<Seq<char>>,
    pub driver: Option<Seq<char>>,
    pub mute: bool,
    pub proplist: Seq<(Seq<char>, Seq<char>)>,
    pub corked: bool,
    pub has_volume: bool,
    pub volume_writable: bool,
    pub format: FormatInfoModel,
}

impl<'a> DeepView for SinkInputInfo<'a> {
    type V = SinkInputInfoModel;

    open spec fn deep_view(&self) -> SinkInputInfoModel {
        SinkInputInfoModel {
            index: self.index,
            name: self.name.deep_view(),
            owner_module: self.owner_module,
            client: self.client,
            sink: self.sink,
            sample_spec: self.sample_spec,
            channel_map: self.channel_map.deep_view(),
            volume: self.volume.deep_view(),
            buffer_usec: self.buffer_usec,
            sink_usec: self.sink_usec,
            resample_method: self.resample_method.deep_view(),
            driver: self.driver.deep_view(),
            mute: self.mute,
            proplist: self.proplist.deep_view(),
            corked: self.corked,
            has_volume: self.has_volume,
            volume_writable: self.volume_writable,
            format: self.format.deep_view(),
        }
    }
}

/// A source output (a recording stream), as one introspection callback
/// reports it.
#[derive(Clone, Debug, PartialEq)]
pub struct SourceOutputInfo<'a> {
    pub index: u32,
    pub name: Option<Cow<'a, str>>,
    pub owner_module: Option<u32>,
    pub client: Option<u32>,
    pub source: u32,
    pub sample_spec: SampleSpec,
    pub channel_map: ChannelMap,
    pub buffer_usec: MicroSeconds,
    pub source_usec: MicroSeconds,
    pub resample_method: Option<Cow<'a, str>>,
    pub driver: Option<Cow<'a, str>>,
    pub proplist: Proplist,
    pub corked: bool,
    pub volume: ChannelVolumes,
    pub mute: bool,
    pub has_volume: bool,
    pub volume_writable: bool,
    pub format: FormatInfo,
}

/// Mathematical value of a [`SourceOutputInfo`].
pub ghost struct SourceOutputInfoModel {
    pub index: u32,
    pub name: Option<Seq<char>>,
    pub owner_module: Option<u32>,
    pub client: Option<u32>,
    pub source: u32,
    pub sample_spec: SampleSpec,
    pub channel_map: Seq<u8>,
    pub buffer_usec: MicroSeconds,
    pub source_usec: MicroSeconds,
    pub resample_method: Option<Seq<char>>,
    pub driver: Option<Seq<char>>,
    pub proplist: Seq<(Seq<char>, Seq<char>)>,
    pub corked: bool,
    pub volume: Seq<Volume>,
    pub mute: bool,
    pub has_volume: bool,
    pub volume_writable: bool,
    pub format: FormatInfoModel,
}

impl<'a> DeepView for SourceOutputInfo<'a> {
    type V = SourceOutputInfoModel;

    open spec fn deep_view(&self) -> SourceOutputInfoModel {
        SourceOutputInfoModel {
            index: self.index,
            name: self.name.deep_view(),
            owner_module: self.owner_module,
            client: self.client,
            source: self.source,
            sample_spec: self.sample_spec,
            channel_map: self.channel_map.deep_view(),
            buffer_usec: self.buffer_usec,
            source_usec: self.source_usec,
            resample_method: self.resample_method.deep_view(),
            driver: self.driver.deep_view(),
            proplist: self.proplist.deep_view(),
            corked: self.corked,
            volume: self.volume.deep_view(),
            mute: self.mute,
            has_volume: self.has_volume,
            volume_writable: self.volume_writable,
            format: self.format.deep_view(),
        }
    }
}

} // verus!
