//! The consumer's reconciled state: one map from id to record per
//! supported kind, mutated only by applying change messages.
//!
//! The reference semantics is the oracle below: `MsgAdd` upserts into the
//! one map its kind names, last write wins; `MsgDel` removes the id from
//! every kind's map, because an id is unique only within its kind.
//! Applying messages to the executable state is proved to agree with the
//! oracle, message by message and over whole replays.

use crate::introspect::SinkInfo;
use crate::introspect::SinkInfoModel;
use crate::introspect::SinkInputInfo;
use crate::introspect::SinkInputInfoModel;
use crate::introspect::SourceInfo;
use crate::introspect::SourceInfoModel;
use crate::introspect::SourceOutputInfo;
use crate::introspect::SourceOutputInfoModel;
use crate::messages::PulseAddMessage;
use crate::messages::PulseAddMessageModel;
use crate::messages::PulseMessage;
use crate::messages::PulseMessageModel;
use std::collections::HashMap;
use vstd::prelude::*;

verus! {

broadcast use vstd::std_specs::hash::group_hash_axioms;

/// The value of a map from id to record, with each record replaced by its
/// mathematical model.
pub open spec fn deep_map<T: DeepView>(m: Map<u32, T>) -> Map<u32, <T as DeepView>::V> {
    Map::new(|k: u32| m.dom().contains(k), |k: u32| m[k].deep_view())
}

/// The reconciled per-kind maps, as one introspection consumer owns them.
pub struct PulseState {
    pub sinks: HashMap<u32, SinkInfo<'static>>,
    pub sources: HashMap<u32, SourceInfo<'static>>,
    pub sourceoutputs: HashMap<u32, SourceOutputInfo<'static>>,
    pub sinkinputs: HashMap<u32, SinkInputInfo<'static>>,
}

/// Mathematical value of a [`PulseState`].
pub ghost struct PulseStateModel {
    pub sinks: Map<u32, SinkInfoModel>,
    pub sources: Map<u32, SourceInfoModel>,
    pub sourceoutputs: Map<u32, SourceOutputInfoModel>,
    pub sinkinputs: Map<u32, SinkInputInfoModel>,
}

impl View for PulseState {
    type V = PulseStateModel;

    open spec fn view(&self) -> PulseStateModel {
        PulseStateModel {
            sinks: deep_map(self.sinks@),
            sources: deep_map(self.sources@),
            sourceoutputs: deep_map(self.sourceoutputs@),
            sinkinputs: deep_map(self.sinkinputs@),
        }
    }
}

/// The oracle's single step: what one change message does to the
/// reconciled maps.
pub open spec fn oracle_step(s: PulseStateModel, m: PulseMessageModel) -> PulseStateModel {
    match m {
        PulseMessageModel::MsgAdd { id, msg } => match msg {
            PulseAddMessageModel::MsgSink(info) => PulseStateModel {
                sinks: s.sinks.insert(id, info),
                ..s
            },
            PulseAddMessageModel::MsgSource(info) => PulseStateModel {
                sources: s.sources.insert(id, info),
                ..s
            },
            PulseAddMessageModel::MsgSourceOutput(info) => PulseStateModel {
                sourceoutputs: s.sourceoutputs.insert(id, info),
                ..s
            },
            PulseAddMessageModel::MsgSinkInput(info) => PulseStateModel {
                sinkinputs: s.sinkinputs.insert(id, info),
                ..s
            },
        },
        PulseMessageModel::MsgDel { id } => PulseStateModel {
            sinks: s.sinks.remove(id),
            sources: s.sources.remove(id),
            sourceoutputs: s.sourceoutputs.remove(id),
            sinkinputs: s.sinkinputs.remove(id),
        },
    }
}

/// The oracle run over a whole message sequence, oldest first.
pub open spec fn oracle_run(s: PulseStateModel, msgs: Seq<PulseMessageModel>) -> PulseStateModel
    decreases msgs.len(),
{
    if msgs.len() == 0 {
        s
    } else {
        oracle_run(oracle_step(s, msgs.first()), msgs.drop_first())
    }
}

impl PulseState {
    /// The empty reconciled state, as the consumer starts with.
    pub fn new() -> (r: Self)
        ensures
            r@.sinks =~= Map::<u32, SinkInfoModel>::empty(),
            r@.sources =~= Map::<u32, SourceInfoModel>::empty(),
            r@.sourceoutputs =~= Map::<u32, SourceOutputInfoModel>::empty(),
            r@.sinkinputs =~= Map::<u32, SinkInputInfoModel>::empty(),
    {
        PulseState {
            sinks: HashMap::new(),
            sources: HashMap::new(),
            sourceoutputs: HashMap::new(),
            sinkinputs: HashMap::new(),
        }
    }
}

/// The consumer-side applier of change messages.
pub struct PulseCommunication {}

impl PulseCommunication {
    /// A fresh applier; it carries no state of its own.
    pub fn new() -> Self {
        PulseCommunication {}
    }

    /// Applies one change message to the reconciled state, exactly as the
    /// oracle says: an upsert into the named kind's map, or a removal of
    /// the id from all four maps.
    pub fn event(&mut self, data: &mut PulseState, msg: PulseMessage<'static>)
        ensures
            final(data)@ == oracle_step(old(data)@, msg.deep_view()),
    {
        let ghost goal = oracle_step(old(data)@, msg.deep_view());
        match msg {
            PulseMessage::MsgAdd { id, msg } => match msg {
                PulseAddMessage::MsgSink(s) => {
                    self.upsert_sink(data, id, s);
                },
                PulseAddMessage::MsgSource(s) => {
                    self.upsert_source(data, id, s);
                },
                PulseAddMessage::MsgSourceOutput(s) => {
                    self.upsert_source_output(data, id, s);
                },
                PulseAddMessage::MsgSinkInput(s) => {
                    self.upsert_sink_input(data, id, s);
                },
            },
            PulseMessage::MsgDel { id } => {
                data.sinks.remove(&id);
                data.sources.remove(&id);
                data.sourceoutputs.remove(&id);
                data.sinkinputs.remove(&id);
                proof {
                    assert(data@.sinks =~= goal.sinks);
                    assert(data@.sources =~= goal.sources);
                    assert(data@.sourceoutputs =~= goal.sourceoutputs);
                    assert(data@.sinkinputs =~= goal.sinkinputs);
                }
            },
        }
    }

    fn upsert_sink(&mut self, data: &mut PulseState, id: u32, s: SinkInfo<'static>)
        ensures
            final(data)@ == oracle_step(
                old(data)@,
                PulseMessageModel::MsgAdd { id, msg: PulseAddMessageModel::MsgSink(s.deep_view()) },
            ),
    {
        let ghost goal = oracle_step(
            old(data)@,
            PulseMessageModel::MsgAdd { id, msg: PulseAddMessageModel::MsgSink(s.deep_view()) },
        );
        data.sinks.insert(id, s);
        proof {
            assert(data@.sinks =~= goal.sinks);
            assert(data@.sources =~= goal.sources);
            assert(data@.sourceoutputs =~= goal.sourceoutputs);
            assert(data@.sinkinputs =~= goal.sinkinputs);
        }
    }

    fn upsert_source(&mut self, data: &mut PulseState, id: u32, s: SourceInfo<'static>)
        ensures
            final(data)@ == oracle_step(
                old(data)@,
                PulseMessageModel::MsgAdd {
                    id,
                    msg: PulseAddMessageModel::MsgSource(s.deep_view()),
                },
            ),
    {
        let ghost goal = oracle_step(
            old(data)@,
            PulseMessageModel::MsgAdd { id, msg: PulseAddMessageModel::MsgSource(s.deep_view()) },
        );
        data.sources.insert(id, s);
        proof {
            assert(data@.sinks =~= goal.sinks);
            assert(data@.sources =~= goal.sources);
            assert(data@.sourceoutputs =~= goal.sourceoutputs);
            assert(data@.sinkinputs =~= goal.sinkinputs);
        }
    }

    fn upsert_source_output(&mut self, data: &mut PulseState, id: u32, s: SourceOutputInfo<'static>)
        ensures
            final(data)@ == oracle_step(
                old(data)@,
                PulseMessageModel::MsgAdd {
                    id,
                    msg: PulseAddMessageModel::MsgSourceOutput(s.deep_view()),
                },
            ),
    {
        let ghost goal = oracle_step(
            old(data)@,
            PulseMessageModel::MsgAdd {
                id,
                msg: PulseAddMessageModel::MsgSourceOutput(s.deep_view()),
            },
        );
        data.sourceoutputs.insert(id, s);
        proof {
            assert(data@.sinks =~= goal.sinks);
            assert(data@.sources =~= goal.sources);
            assert(data@.sourceoutputs =~= goal.sourceoutputs);
            assert(data@.sinkinputs =~= goal.sinkinputs);
        }
    }

    fn upsert_sink_input(&mut self, data: &mut PulseState, id: u32, s: SinkInputInfo<'static>)
        ensures
            final(data)@ == oracle_step(
                old(data)@,
                PulseMessageModel::MsgAdd {
                    id,
                    msg: PulseAddMessageModel::MsgSinkInput(s.deep_view()),
                },
            ),
    {
        let ghost goal = oracle_step(
            old(data)@,
            PulseMessageModel::MsgAdd {
                id,
                msg: PulseAddMessageModel::MsgSinkInput(s.deep_view()),
            },
        );
        data.sinkinputs.insert(id, s);
        proof {
            assert(data@.sinks =~= goal.sinks);
            assert(data@.sources =~= goal.sources);
            assert(data@.sourceoutputs =~= goal.sourceoutputs);
            assert(data@.sinkinputs =~= goal.sinkinputs);
        }
    }

    /// Replays a whole message sequence, oldest first. The reconciled
    /// state afterwards is exactly what the oracle computes for the same
    /// sequence: the executable consumer and the last-write-wins reference
    /// machine agree on every replay.
    pub fn replay(&mut self, data: &mut PulseState, msgs: Vec<PulseMessage<'static>>)
        ensures
            final(data)@ == oracle_run(old(data)@, msgs.deep_view()),
    {
        let mut msgs = msgs;
        let ghost all = msgs.deep_view();
        let ghost start = data@;
        let n: usize = msgs.len();
        proof {
            assert(all.len() == n);
            assert(all.skip(0) =~= all);
        }
        let mut taken: usize = 0;
        while msgs.len() > 0
            invariant
                taken + msgs.len() == all.len(),
                all.len() <= usize::MAX,
                forall|k: int| 0 <= k < msgs.len() ==> msgs.deep_view()[k] == all[taken + k],
                oracle_run(start, all) == oracle_run(data@, all.skip(taken as int)),
            decreases msgs.len(),
        {
            let ghost prev = msgs@;
            let ghost prevd = msgs.deep_view();
            let msg = msgs.remove(0);
            let ghost msgd = msg.deep_view();
            let ghost before = data@;
            self.event(data, msg);
            proof {
                assert(msgd == prevd[0]);
                assert(msgd == all[taken as int]);
                assert forall|k: int| 0 <= k < msgs@.len() implies msgs.deep_view()[k] == all[taken
                    + 1 + k] by {
                    assert(msgs@ =~= prev.drop_first());
                    assert(msgs@[k] == prev[k + 1]);
                    assert(msgs.deep_view()[k] == msgs@[k].deep_view());
                    assert(prevd[k + 1] == prev[k + 1].deep_view());
                    assert(prevd[k + 1] == all[taken + 1 + k]);
                }
                let rest = all.skip(taken as int);
                assert(rest.first() == msgd);
                assert(rest.drop_first() =~= all.skip(taken + 1));
                assert(oracle_run(before, rest) == oracle_run(
                    oracle_step(before, msgd),
                    all.skip(taken + 1),
                ));
            }
            taken = taken + 1;
        }
        proof {
            assert(all.skip(taken as int) =~= Seq::<PulseMessageModel>::empty());
        }
    }
}

/// A duplicate `MsgAdd` for the same id and record — a snapshot entry and
/// a racing live update, say — is an idempotent upsert: applying it twice
/// leaves exactly the state of applying it once.
pub proof fn lemma_duplicate_add_is_idempotent(
    s: PulseStateModel,
    id: u32,
    msg: PulseAddMessageModel,
)
    ensures
        oracle_step(
            oracle_step(s, PulseMessageModel::MsgAdd { id, msg }),
            PulseMessageModel::MsgAdd { id, msg },
        ) == oracle_step(s, PulseMessageModel::MsgAdd { id, msg }),
{
    let once = oracle_step(s, PulseMessageModel::MsgAdd { id, msg });
    let twice = oracle_step(once, PulseMessageModel::MsgAdd { id, msg });
    match msg {
        PulseAddMessageModel::MsgSink(info) => {
            assert(twice.sinks =~= once.sinks);
        },
        PulseAddMessageModel::MsgSource(info) => {
            assert(twice.sources =~= once.sources);
        },
        PulseAddMessageModel::MsgSourceOutput(info) => {
            assert(twice.sourceoutputs =~= once.sourceoutputs);
        },
        PulseAddMessageModel::MsgSinkInput(info) => {
            assert(twice.sinkinputs =~= once.sinkinputs);
        },
    }
}

/// A `MsgDel` for an id no kind knows is a no-op on the reconciled state,
/// and a later `MsgAdd` for the same id is taken exactly as any other:
/// the id then maps to the added record.
pub proof fn lemma_removed_unknown_id_is_noop(s: PulseStateModel, id: u32, info: SinkInfoModel)
    requires
        !s.sinks.dom().contains(id),
        !s.sources.dom().contains(id),
        !s.sourceoutputs.dom().contains(id),
        !s.sinkinputs.dom().contains(id),
    ensures
        oracle_step(s, PulseMessageModel::MsgDel { id }) == s,
        oracle_step(
            oracle_step(s, PulseMessageModel::MsgDel { id }),
            PulseMessageModel::MsgAdd { id, msg: PulseAddMessageModel::MsgSink(info) },
        ).sinks == s.sinks.insert(id, info),
{
    let after = oracle_step(s, PulseMessageModel::MsgDel { id });
    assert(after.sinks =~= s.sinks);
    assert(after.sources =~= s.sources);
    assert(after.sourceoutputs =~= s.sourceoutputs);
    assert(after.sinkinputs =~= s.sinkinputs);
}

} // verus!
