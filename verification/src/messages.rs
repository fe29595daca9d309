//! The messages the bridge deals in: raw notifications as the subscription
//! callback delivers them, and the typed change messages the consumer
//! receives.

use crate::introspect::SinkInfo;
use crate::introspect::SinkInfoModel;
use crate::introspect::SinkInputInfo;
use crate::introspect::SinkInputInfoModel;
use crate::introspect::SourceInfo;
use crate::introspect::SourceInfoModel;
use crate::introspect::SourceOutputInfo;
use crate::introspect::SourceOutputInfoModel;
use vstd::prelude::*;

verus! {

/// The category of entity a notification speaks of. Only the first four
/// kinds are represented in the reconciled state; the others are known so
/// that ignoring them is a deliberate decision, not a fallthrough.
#[derive(Clone, Copy, Debug, PartialEq, Eq, Structural)]
pub enum Facility {
    Sink,
    Source,
    SinkInput,
    SourceOutput,
    Module,
    Client,
    SampleCache,
    Server,
    Card,
}

/// The notification verb.
#[derive(Clone, Copy, Debug, PartialEq, Eq, Structural)]
pub enum Operation {
    New,
    Changed,
    Removed,
}

/// One notification from the native subscription callback, already checked
/// for a present kind and operation.
#[derive(Clone, Copy, Debug, PartialEq, Eq, Structural)]
pub struct RawPulseMessage {
    pub facility: Facility,
    pub operation: Operation,
    pub index: u32,
}

impl Facility {
    /// Whether entities of this kind have any representation in the
    /// reconciled state.
    pub open spec fn spec_is_supported(self) -> bool {
        match self {
            Facility::Sink => true,
            Facility::Source => true,
            Facility::SinkInput => true,
            Facility::SourceOutput => true,
            _ => false,
        }
    }

    /// Exec twin of [`Self::spec_is_supported`].
    #[verifier::when_used_as_spec(spec_is_supported)]
    pub fn is_supported(self) -> (r: bool)
        ensures
            r == self.spec_is_supported(),
    {
        match self {
            Facility::Sink => true,
            Facility::Source => true,
            Facility::SinkInput => true,
            Facility::SourceOutput => true,
            _ => false,
        }
    }
}

/// The subscribe callback's first decision: a notification whose kind or
/// operation is missing is malformed and dropped; anything else is passed
/// on whole.
pub fn classify_notification(
    facility: Option<Facility>,
    operation: Option<Operation>,
    index: u32,
) -> (r: Option<RawPulseMessage>)
    ensures
        r matches Some(raw) ==> {
            &&& facility == Some(raw.facility)
            &&& operation == Some(raw.operation)
            &&& raw.index == index
        },
        r is None <==> (facility is None || operation is None),
{
    match (facility, operation) {
        (Some(facility), Some(operation)) => Some(RawPulseMessage { facility, operation, index }),
        _ => None,
    }
}

/// The payload of an `Add` change message: one freshly fetched record,
/// tagged with the kind it belongs to.
#[derive(Clone, Debug, PartialEq)]
pub enum PulseAddMessage<'a> {
    MsgSink(SinkInfo<'a>),
    MsgSource(SourceInfo<'a>),
    MsgSourceOutput(SourceOutputInfo<'a>),
    MsgSinkInput(SinkInputInfo<'a>),
}

/// Mathematical value of a [`PulseAddMessage`].
pub ghost enum PulseAddMessageModel {
    MsgSink(SinkInfoModel),
    MsgSource(SourceInfoModel),
    MsgSourceOutput(SourceOutputInfoModel),
    MsgSinkInput(SinkInputInfoModel),
}

impl<'a> DeepView for PulseAddMessage<'a> {
    type V = PulseAddMessageModel;

    open spec fn deep_view(&self) -> PulseAddMessageModel {
        match self {
            PulseAddMessage::MsgSink(info) => PulseAddMessageModel::MsgSink(info.deep_view()),
            PulseAddMessage::MsgSource(info) => PulseAddMessageModel::MsgSource(info.deep_view()),
            PulseAddMessage::MsgSourceOutput(info) => PulseAddMessageModel::MsgSourceOutput(
                info.deep_view(),
            ),
            PulseAddMessage::MsgSinkInput(info) => PulseAddMessageModel::MsgSinkInput(
                info.deep_view(),
            ),
        }
    }
}

impl PulseAddMessageModel {
    /// The id the wrapped record's model carries.
    pub open spec fn spec_index(self) -> u32 {
        match self {
            PulseAddMessageModel::MsgSink(info) => info.index,
            PulseAddMessageModel::MsgSource(info) => info.index,
            PulseAddMessageModel::MsgSourceOutput(info) => info.index,
            PulseAddMessageModel::MsgSinkInput(info) => info.index,
        }
    }
}

impl<'a> PulseAddMessage<'a> {
    /// The id the wrapped record carries.
    pub open spec fn spec_index(self) -> u32 {
        match self {
            PulseAddMessage::MsgSink(info) => info.index,
            PulseAddMessage::MsgSource(info) => info.index,
            PulseAddMessage::MsgSourceOutput(info) => info.index,
            PulseAddMessage::MsgSinkInput(info) => info.index,
        }
    }

    /// Exec twin of [`Self::spec_index`].
    pub fn index(&self) -> (r: u32)
        ensures
            r == self.spec_index(),
    {
        match self {
            PulseAddMessage::MsgSink(info) => info.index,
            PulseAddMessage::MsgSource(info) => info.index,
            PulseAddMessage::MsgSourceOutput(info) => info.index,
            PulseAddMessage::MsgSinkInput(info) => info.index,
        }
    }
}

/// One change message of the assembled stream: an upsert of a record under
/// its id, or a deletion of an id from every kind's namespace.
#[derive(Clone, Debug, PartialEq)]
pub enum PulseMessage<'a> {
    MsgAdd { id: u32, msg: PulseAddMessage<'a> },
    MsgDel { id: u32 },
}

/// Mathematical value of a [`PulseMessage`].
pub ghost enum PulseMessageModel {
    MsgAdd { id: u32, msg: PulseAddMessageModel },
    MsgDel { id: u32 },
}

impl<'a> DeepView for PulseMessage<'a> {
    type V = PulseMessageModel;

    open spec fn deep_view(&self) -> PulseMessageModel {
        match self {
            PulseMessage::MsgAdd { id, msg } => PulseMessageModel::MsgAdd {
                id: *id,
                msg: msg.deep_view(),
            },
            PulseMessage::MsgDel { id } => PulseMessageModel::MsgDel { id: *id },
        }
    }
}

} // verus!
