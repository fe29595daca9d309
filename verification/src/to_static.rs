//! Deep ownership-normalization: turning records whose text still borrows
//! from a callback's scope into self-contained owned values.
//!
//! Every implementation promises the same thing: the normalized value has
//! exactly the mathematical value of the input, so normalization is
//! lossless, and normalizing an already-owned value changes nothing that
//! the model can see.

use crate::introspect::ChannelMap;
use crate::introspect::ChannelVolumes;
use crate::introspect::FormatInfo;
use crate::introspect::MicroSeconds;
use crate::introspect::Proplist;
use crate::introspect::SampleSpec;
use crate::introspect::SinkInfo;
use crate::introspect::SinkInputInfo;
use crate::introspect::SinkPortInfo;
use crate::introspect::SinkState;
use crate::introspect::SourceInfo;
use crate::introspect::SourceOutputInfo;
use crate::introspect::SourcePortInfo;
use crate::introspect::SourceState;
use crate::introspect::Volume;
use std::borrow::Cow;
use vstd::prelude::*;

verus! {

/// Capability of being deep-copied into a value with no borrowed lifetime
/// left. `Static` is the owned shape; it shares the mathematical model of
/// `Self`, and `to_static` preserves that model exactly.
pub trait ToStatic: DeepView + Sized {
    type Static: DeepView<V = <Self as DeepView>::V>;

    fn to_static(&self) -> (r: Self::Static)
        ensures
            r.deep_view() == self.deep_view(),
    ;
}

/// Normalization is deterministic at the level of the model: two
/// independent normalizations of the same value have results with the same
/// mathematical value, since each preserves the input's model.
pub proof fn lemma_normalize_twice_agrees<T: ToStatic>(v: T, r1: T::Static, r2: T::Static)
    requires
        r1.deep_view() == v.deep_view(),
        r2.deep_view() == v.deep_view(),
    ensures
        r1.deep_view() == r2.deep_view(),
{
}

/// Normalization is idempotent at the level of the model: normalizing a
/// value that is itself the result of a normalization changes nothing the
/// model can see.
pub proof fn lemma_normalize_idempotent<T: ToStatic>(
    v: T,
    once: T::Static,
    again: <T::Static as ToStatic>::Static,
) where T::Static: ToStatic
    requires
        once.deep_view() == v.deep_view(),
        again.deep_view() == once.deep_view(),
    ensures
        again.deep_view() == v.deep_view(),
{
}

impl<'a> ToStatic for Cow<'a, str> {
    type Static = Cow<'static, str>;

    fn to_static(&self) -> (r: Cow<'static, str>)
        ensures
            r.deep_view() == self.deep_view(),
    {
        match self {
            Cow::Borrowed(s) => Cow::Owned((*s).to_owned()),
            Cow::Owned(s) => Cow::Owned(s.clone()),
        }
    }
}

impl ToStatic for String {
    type Static = String;

    fn to_static(&self) -> (r: String)
        ensures
            r.deep_view() == self.deep_view(),
    {
        self.clone()
    }
}

impl<T: ToStatic> ToStatic for Option<T> {
    type Static = Option<T::Static>;

    fn to_static(&self) -> (r: Option<T::Static>)
        ensures
            r.deep_view() == self.deep_view(),
    {
        match self {
            Some(v) => Some(v.to_static()),
            None => None,
        }
    }
}

impl<T: ToStatic> ToStatic for Box<T> {
    type Static = Box<T::Static>;

    fn to_static(&self) -> (r: Box<T::Static>)
        ensures
            r.deep_view() == self.deep_view(),
    {
        Box::new((**self).to_static())
    }
}

impl<T: ToStatic> ToStatic for Vec<T> {
    type Static = Vec<T::Static>;

    fn to_static(&self) -> (r: Vec<T::Static>)
        ensures
            r.deep_view() == self.deep_view(),
    {
        let mut r: Vec<T::Static> = Vec::new();
        let mut i: usize = 0;
        while i < self.len()
            invariant
                i <= self.len(),
                r.len() == i,
                forall|k: int| 0 <= k < i ==> r.deep_view()[k] == self.deep_view()[k],
            decreases self.len() - i,
        {
            r.push(self[i].to_static());
            i = i + 1;
        }
        proof {
            assert(r.deep_view() =~= self.deep_view());
        }
        r
    }
}

impl<A: ToStatic, B: ToStatic> ToStatic for (A, B) {
    type Static = (A::Static, B::Static);

    fn to_static(&self) -> (r: (A::Static, B::Static))
        ensures
            r.deep_view() == self.deep_view(),
    {
        (self.0.to_static(), self.1.to_static())
    }
}

impl ToStatic for u8 {
    type Static = u8;

    fn to_static(&self) -> (r: u8)
        ensures
            r.deep_view() == self.deep_view(),
    {
        *self
    }
}

impl ToStatic for u32 {
    type Static = u32;

    fn to_static(&self) -> (r: u32)
        ensures
            r.deep_view() == self.deep_view(),
    {
        *self
    }
}

impl ToStatic for bool {
    type Static = bool;

    fn to_static(&self) -> (r: bool)
        ensures
            r.deep_view() == self.deep_view(),
    {
        *self
    }
}

impl ToStatic for SampleSpec {
    type Static = SampleSpec;

    fn to_static(&self) -> (r: SampleSpec)
        ensures
            r.deep_view() == self.deep_view(),
    {
        *self
    }
}

impl ToStatic for Volume {
    type Static = Volume;

    fn to_static(&self) -> (r: Volume)
        ensures
            r.deep_view() == self.deep_view(),
    {
        *self
    }
}

impl ToStatic for MicroSeconds {
    type Static = MicroSeconds;

    fn to_static(&self) -> (r: MicroSeconds)
        ensures
            r.deep_view() == self.deep_view(),
    {
        *self
    }
}

impl ToStatic for SinkState {
    type Static = SinkState;

    fn to_static(&self) -> (r: SinkState)
        ensures
            r.deep_view() == self.deep_view(),
    {
        *self
    }
}

impl ToStatic for SourceState {
    type Static = SourceState;

    fn to_static(&self) -> (r: SourceState)
        ensures
            r.deep_view() == self.deep_view(),
    {
        *self
    }
}

impl ToStatic for ChannelMap {
    type Static = ChannelMap;

    fn to_static(&self) -> (r: ChannelMap)
        ensures
            r.deep_view() == self.deep_view(),
    {
        ChannelMap { positions: self.positions.to_static() }
    }
}

impl ToStatic for ChannelVolumes {
    type Static = ChannelVolumes;

    fn to_static(&self) -> (r: ChannelVolumes)
        ensures
            r.deep_view() == self.deep_view(),
    {
        ChannelVolumes { volumes: self.volumes.to_static() }
    }
}

impl ToStatic for Proplist {
    type Static = Proplist;

    fn to_static(&self) -> (r: Proplist)
        ensures
            r.deep_view() == self.deep_view(),
    {
        Proplist { entries: self.entries.to_static() }
    }
}

impl ToStatic for FormatInfo {
    type Static = FormatInfo;

    fn to_static(&self) -> (r: FormatInfo)
        ensures
            r.deep_view() == self.deep_view(),
    {
        FormatInfo { encoding: self.encoding, properties: self.properties.to_static() }
    }
}

impl<'a> ToStatic for SinkPortInfo<'a> {
    type Static = SinkPortInfo<'static>;

    fn to_static(&self) -> (r: SinkPortInfo<'static>)
        ensures
            r.deep_view() == self.deep_view(),
    {
        SinkPortInfo {
            name: self.name.to_static(),
            description: self.description.to_static(),
            priority: self.priority,
            available: self.available,
        }
    }
}

impl<'a> ToStatic for SourcePortInfo<'a> {
    type Static = SourcePortInfo<'static>;

    fn to_static(&self) -> (r: SourcePortInfo<'static>)
        ensures
            r.deep_view() == self.deep_view(),
    {
        SourcePortInfo {
            name: self.name.to_static(),
            description: self.description.to_static(),
            priority: self.priority,
            available: self.available,
        }
    }
}

impl<'a> ToStatic for SinkInfo<'a> {
    type Static = SinkInfo<'static>;

    fn to_static(&self) -> (r: SinkInfo<'static>)
        ensures
            r.deep_view() == self.deep_view(),
    {
        SinkInfo {
            name: self.name.to_static(),
            index: self.index,
            description: self.description.to_static(),
            sample_spec: self.sample_spec,
            channel_map: self.channel_map.to_static(),
            owner_module: self.owner_module,
            volume: self.volume.to_static(),
            mute: self.mute,
            monitor_source: self.monitor_source,
            monitor_source_name: self.monitor_source_name.to_static(),
            latency: self.latency,
            driver: self.driver.to_static(),
            flags: self.flags,
            proplist: self.proplist.to_static(),
            configured_latency: self.configured_latency,
            base_volume: self.base_volume,
            state: self.state,
            n_volume_steps: self.n_volume_steps,
            card: self.card,
            ports: self.ports.to_static(),
            active_port: self.active_port.to_static(),
            formats: self.formats.to_static(),
        }
    }
}

impl<'a> ToStatic for SourceInfo<'a> {
    type Static = SourceInfo<'static>;

    fn to_static(&self) -> (r: SourceInfo<'static>)
        ensures
            r.deep_view() == self.deep_view(),
    {
        SourceInfo {
            name: self.name.to_static(),
            index: self.index,
            description: self.description.to_static(),
            sample_spec: self.sample_spec,
            channel_map: self.channel_map.to_static(),
            owner_module: self.owner_module,
            volume: self.volume.to_static(),
            mute: self.mute,
            monitor_of_sink: self.monitor_of_sink,
            monitor_of_sink_name: self.monitor_of_sink_name.to_static(),
            latency: self.latency,
            driver: self.driver.to_static(),
            flags: self.flags,
            proplist: self.proplist.to_static(),
            configured_latency: self.configured_latency,
            base_volume: self.base_volume,
            state: self.state,
            n_volume_steps: self.n_volume_steps,
            card: self.card,
            ports: self.ports.to_static(),
            active_port: self.active_port.to_static(),
            formats: self.formats.to_static(),
        }
    }
}

impl<'a> ToStatic for SinkInputInfo<'a> {
    type Static = SinkInputInfo<'static>;

    fn to_static(&self) -> (r: SinkInputInfo<'static>)
        ensures
            r.deep_view() == self.deep_view(),
    {
        SinkInputInfo {
            index: self.index,
            name: self.name.to_static(),
            owner_module: self.owner_module,
            client: self.client,
            sink: self.sink,
            sample_spec: self.sample_spec,
            channel_map: self.channel_map.to_static(),
            volume: self.volume.to_static(),
            buffer_usec: self.buffer_usec,
            sink_usec: self.sink_usec,
            resample_method: self.resample_method.to_static(),
            driver: self.driver.to_static(),
            mute: self.mute,
            proplist: self.proplist.to_static(),
            corked: self.corked,
            has_volume: self.has_volume,
            volume_writable: self.volume_writable,
            format: self.format.to_static(),
        }
    }
}

impl<'a> ToStatic for SourceOutputInfo<'a> {
    type Static = SourceOutputInfo<'static>;

    fn to_static(&self) -> (r: SourceOutputInfo<'static>)
        ensures
            r.deep_view() == self.deep_view(),
    {
        SourceOutputInfo {
            index: self.index,
            name: self.name.to_static(),
            owner_module: self.owner_module,
            client: self.client,
            source: self.source,
            sample_spec: self.sample_spec,
            channel_map: self.channel_map.to_static(),
            buffer_usec: self.buffer_usec,
            source_usec: self.source_usec,
            resample_method: self.resample_method.to_static(),
            driver: self.driver.to_static(),
            proplist: self.proplist.to_static(),
            corked: self.corked,
            volume: self.volume.to_static(),
            mute: self.mute,
            has_volume: self.has_volume,
            volume_writable: self.volume_writable,
            format: self.format.to_static(),
        }
    }
}

} // verus!
