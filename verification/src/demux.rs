//! The notification demultiplexer: each raw notification becomes at most
//! one outbound action, and together with the records a fetch brings back,
//! a short sequence of change messages.

use crate::messages::Facility;
use crate::messages::Operation;
use crate::messages::PulseAddMessage;
use crate::messages::PulseMessage;
use crate::messages::PulseMessageModel;
use crate::messages::RawPulseMessage;
use vstd::prelude::*;

verus! {

/// What one notification asks the bridge to do next.
#[derive(Clone, Copy, Debug, PartialEq, Eq, Structural)]
pub enum DemuxAction {
    /// Emit `MsgDel` for this id at once; nothing is fetched.
    EmitDelete(u32),
    /// Fetch the record of this kind and id, then emit `MsgAdd`.
    Fetch(Facility, u32),
    /// The kind has no representation in the reconciled state: no message.
    Ignore,
}

/// The demultiplexing rule. Kinds without representation in the reconciled
/// state produce nothing, whatever the operation; a removal of a supported
/// kind needs no fetch; anything else of a supported kind is re-fetched.
pub open spec fn spec_demux(raw: RawPulseMessage) -> DemuxAction {
    if !raw.facility.spec_is_supported() {
        DemuxAction::Ignore
    } else if raw.operation is Removed {
        DemuxAction::EmitDelete(raw.index)
    } else {
        DemuxAction::Fetch(raw.facility, raw.index)
    }
}

/// Exec twin of [`spec_demux`].
#[verifier::when_used_as_spec(spec_demux)]
pub fn demux(raw: RawPulseMessage) -> (action: DemuxAction)
    ensures
        action == spec_demux(raw),
{
    if !raw.facility.is_supported() {
        DemuxAction::Ignore
    } else {
        match raw.operation {
            Operation::Removed => DemuxAction::EmitDelete(raw.index),
            _ => DemuxAction::Fetch(raw.facility, raw.index),
        }
    }
}

/// The change messages one notification contributes to the live sequence,
/// given the records its fetch (if any) brought back.
///
/// An unsupported kind contributes nothing, whatever the operation and
/// whatever was fetched. A removal contributes exactly one `MsgDel`,
/// whether or not the id is known to anyone. Anything else contributes one
/// `MsgAdd` per fetched record, in fetch order, each under the notified
/// id.
pub fn messages_for_notification<'a>(
    raw: &RawPulseMessage,
    fetched: Vec<PulseAddMessage<'a>>,
) -> (out: Vec<PulseMessage<'a>>)
    ensures
        spec_demux(*raw) is Ignore ==> out.deep_view() == Seq::<PulseMessageModel>::empty(),
        spec_demux(*raw) is EmitDelete ==> out.deep_view() == seq![
            PulseMessageModel::MsgDel { id: raw.index },
        ],
        spec_demux(*raw) is Fetch ==> {
            &&& out.deep_view().len() == fetched.deep_view().len()
            &&& forall|k: int|
                0 <= k < fetched.deep_view().len() ==> out.deep_view()[k]
                    == (PulseMessageModel::MsgAdd { id: raw.index, msg: fetched.deep_view()[k] })
        },
{
    let mut out: Vec<PulseMessage<'a>> = Vec::new();
    match demux(*raw) {
        DemuxAction::Ignore => {
            proof {
                assert(out.deep_view() =~= Seq::<PulseMessageModel>::empty());
            }
        },
        DemuxAction::EmitDelete(id) => {
            out.push(PulseMessage::MsgDel { id });
            proof {
                assert(out.deep_view() =~= seq![PulseMessageModel::MsgDel { id: raw.index }]);
            }
        },
        DemuxAction::Fetch(_, id) => {
            let mut fetched = fetched;
            let ghost all = fetched.deep_view();
            let n: usize = fetched.len();
            proof {
                assert(all.len() == n);
            }
            let mut taken: usize = 0;
            while fetched.len() > 0
                invariant
                    taken + fetched.len() == all.len(),
                    all.len() <= usize::MAX,
                    out.len() == taken,
                    id == raw.index,
                    forall|k: int|
                        0 <= k < fetched.len() ==> fetched.deep_view()[k] == all[taken + k],
                    forall|k: int|
                        0 <= k < taken ==> out.deep_view()[k] == (PulseMessageModel::MsgAdd {
                            id: raw.index,
                            msg: all[k],
                        }),
                decreases fetched.len(),
            {
                let ghost prev = fetched@;
                let ghost prevd = fetched.deep_view();
                let ghost outprev = out.deep_view();
                let item = fetched.remove(0);
                let ghost itemd = item.deep_view();
                out.push(PulseMessage::MsgAdd { id, msg: item });
                proof {
                    assert(itemd == prevd[0]);
                    assert forall|k: int| 0 <= k < fetched@.len() implies fetched.deep_view()[k]
                        == all[taken + 1 + k] by {
                        assert(fetched@ =~= prev.drop_first());
                        assert(fetched@[k] == prev[k + 1]);
                        assert(fetched.deep_view()[k] == fetched@[k].deep_view());
                        assert(prevd[k + 1] == prev[k + 1].deep_view());
                        assert(prevd[k + 1] == all[taken + 1 + k]);
                    }
                    assert(prevd[0] == all[taken as int]);
                    assert forall|k: int| 0 <= k < taken + 1 implies out.deep_view()[k]
                        == (PulseMessageModel::MsgAdd { id: raw.index, msg: all[k] }) by {
                        assert(out.deep_view()[k] == out@[k].deep_view());
                        if k < taken {
                            assert(out@[k].deep_view() == outprev[k]);
                        } else {
                            assert(out@[k].deep_view() == (PulseMessageModel::MsgAdd {
                                id: raw.index,
                                msg: itemd,
                            }));
                        }
                    }
                }
                taken = taken + 1;
            }
        },
    }
    out
}

/// An unsupported kind produces no message at all, whatever the operation:
/// ignoring it is a defined no-op of the demultiplexer, not an accident.
pub proof fn lemma_unsupported_kind_is_silent(raw: RawPulseMessage)
    requires
        !raw.facility.spec_is_supported(),
    ensures
        spec_demux(raw) is Ignore,
{
}

} // verus!
