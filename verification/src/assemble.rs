//! The stream assembler: the four per-kind snapshot sequences are emitted
//! in full, in a fixed kind order, before the first live-update message.
//! That order is what keeps a phantom delete from racing ahead of the add
//! that populates the state.

use crate::messages::PulseAddMessage;
use crate::messages::PulseAddMessageModel;
use crate::messages::PulseMessage;
use crate::messages::PulseMessageModel;
use vstd::prelude::*;

verus! {

/// Turns one kind's enumeration result into its snapshot sequence: one
/// `MsgAdd` per record, in enumeration order, each under the id the record
/// itself carries.
pub fn snapshot_messages<'a>(items: Vec<PulseAddMessage<'a>>) -> (out: Vec<PulseMessage<'a>>)
    ensures
        out.deep_view().len() == items.deep_view().len(),
        forall|k: int|
            0 <= k < items.deep_view().len() ==> out.deep_view()[k] == (PulseMessageModel::MsgAdd {
                id: items.deep_view()[k].spec_index(),
                msg: items.deep_view()[k],
            }),
{
    let mut out: Vec<PulseMessage<'a>> = Vec::new();
    let mut items = items;
    let ghost all = items.deep_view();
    let n: usize = items.len();
    proof {
        assert(all.len() == n);
    }
    let mut taken: usize = 0;
    while items.len() > 0
        invariant
            taken + items.len() == all.len(),
            all.len() <= usize::MAX,
            out.len() == taken,
            forall|k: int| 0 <= k < items.len() ==> items.deep_view()[k] == all[taken + k],
            forall|k: int|
                0 <= k < taken ==> out.deep_view()[k] == (PulseMessageModel::MsgAdd {
                    id: all[k].spec_index(),
                    msg: all[k],
                }),
        decreases items.len(),
    {
        let ghost prev = items@;
        let ghost prevd = items.deep_view();
        let ghost outprev = out.deep_view();
        let item = items.remove(0);
        let ghost itemd = item.deep_view();
        let id: u32 = item.index();
        proof {
            assert(itemd == prevd[0]);
            assert(id == itemd.spec_index());
        }
        out.push(PulseMessage::MsgAdd { id, msg: item });
        proof {
            assert forall|k: int| 0 <= k < items@.len() implies items.deep_view()[k] == all[taken + 1
                + k] by {
                assert(items@ =~= prev.drop_first());
                assert(items@[k] == prev[k + 1]);
                assert(items.deep_view()[k] == items@[k].deep_view());
                assert(prevd[k + 1] == prev[k + 1].deep_view());
                assert(prevd[k + 1] == all[taken + 1 + k]);
            }
            assert(prevd[0] == all[taken as int]);
            assert forall|k: int| 0 <= k < taken + 1 implies out.deep_view()[k]
                == (PulseMessageModel::MsgAdd { id: all[k].spec_index(), msg: all[k] }) by {
                assert(out.deep_view()[k] == out@[k].deep_view());
                if k < taken {
                    assert(out@[k].deep_view() == outprev[k]);
                } else {
                    assert(out@[k].deep_view() == (PulseMessageModel::MsgAdd {
                        id: itemd.spec_index(),
                        msg: itemd,
                    }));
                }
            }
        }
        taken = taken + 1;
    }
    out
}

/// Concatenates the four snapshot sequences and the live sequence into the
/// one ordered output stream: sinks, then sources, then sink inputs, then
/// source outputs, then every live message, in exactly that order.
pub fn assemble<'a>(
    sinks: Vec<PulseMessage<'a>>,
    sources: Vec<PulseMessage<'a>>,
    sink_inputs: Vec<PulseMessage<'a>>,
    source_outputs: Vec<PulseMessage<'a>>,
    live: Vec<PulseMessage<'a>>,
) -> (out: Vec<PulseMessage<'a>>)
    ensures
        out.deep_view() == sinks.deep_view() + sources.deep_view() + sink_inputs.deep_view()
            + source_outputs.deep_view() + live.deep_view(),
{
    let ghost parts = sinks.deep_view() + sources.deep_view() + sink_inputs.deep_view()
        + source_outputs.deep_view() + live.deep_view();
    let ghost flat = sinks@ + sources@ + sink_inputs@ + source_outputs@ + live@;
    let mut out = sinks;
    let mut sources = sources;
    let mut sink_inputs = sink_inputs;
    let mut source_outputs = source_outputs;
    let mut live = live;
    out.append(&mut sources);
    out.append(&mut sink_inputs);
    out.append(&mut source_outputs);
    out.append(&mut live);
    proof {
        assert(out@ =~= flat);
        assert forall|k: int| 0 <= k < out@.len() implies out.deep_view()[k] == parts[k] by {
            assert(out.deep_view()[k] == out@[k].deep_view());
        }
        assert(out.deep_view() =~= parts);
    }
    out
}

/// Snapshot-before-live: in the assembled output, every message of the
/// four snapshot sequences stands, in order, strictly before every message
/// of the live sequence.
pub proof fn lemma_snapshot_before_live(
    sinks: Seq<PulseMessageModel>,
    sources: Seq<PulseMessageModel>,
    sink_inputs: Seq<PulseMessageModel>,
    source_outputs: Seq<PulseMessageModel>,
    live: Seq<PulseMessageModel>,
    out: Seq<PulseMessageModel>,
)
    requires
        out == sinks + sources + sink_inputs + source_outputs + live,
    ensures
        out.len() == sinks.len() + sources.len() + sink_inputs.len() + source_outputs.len()
            + live.len(),
        forall|i: int|
            0 <= i < sinks.len() + sources.len() + sink_inputs.len() + source_outputs.len()
                ==> out[i] == (sinks + sources + sink_inputs + source_outputs)[i],
        forall|j: int|
            sinks.len() + sources.len() + sink_inputs.len() + source_outputs.len() <= j < out.len()
                ==> out[j] == live[j - (sinks.len() + sources.len() + sink_inputs.len()
                + source_outputs.len())],
{
    let snap = sinks + sources + sink_inputs + source_outputs;
    assert(out =~= snap + live);
    assert forall|i: int| 0 <= i < snap.len() implies out[i] == snap[i] by {
        assert(out[i] == (snap + live)[i]);
    }
}

} // verus!
