use futuristic_pulse::assemble::assemble;
use futuristic_pulse::assemble::snapshot_messages;
use futuristic_pulse::demux::messages_for_notification;
use futuristic_pulse::driver::ConnectionGate;
use futuristic_pulse::driver::ContextState;
use futuristic_pulse::driver::ForwardOutcome;
use futuristic_pulse::driver::IterateOutcome;
use futuristic_pulse::driver::connection_gate;
use futuristic_pulse::driver::forward_is_fatal;
use futuristic_pulse::driver::iterate_is_fatal;
use futuristic_pulse::introspect::ChannelMap;
use futuristic_pulse::introspect::ChannelVolumes;
use futuristic_pulse::introspect::FormatInfo;
use futuristic_pulse::introspect::MicroSeconds;
use futuristic_pulse::introspect::Proplist;
use futuristic_pulse::introspect::SampleSpec;
use futuristic_pulse::introspect::SinkInfo;
use futuristic_pulse::introspect::SinkState;
use futuristic_pulse::introspect::Volume;
use futuristic_pulse::messages::Facility;
use futuristic_pulse::messages::Operation;
use futuristic_pulse::messages::PulseAddMessage;
use futuristic_pulse::messages::PulseMessage;
use futuristic_pulse::messages::RawPulseMessage;
use futuristic_pulse::state::PulseCommunication;
use futuristic_pulse::state::PulseState;
use std::borrow::Cow;

fn sink(index: u32, name: &str) -> SinkInfo<'static> {
    SinkInfo {
        name: Some(Cow::Owned(name.to_string())),
        index,
        description: None,
        sample_spec: SampleSpec { format: 3, channels: 2, rate: 48000 },
        channel_map: ChannelMap { positions: vec![1, 2] },
        owner_module: None,
        volume: ChannelVolumes { volumes: vec![Volume(65536)] },
        mute: false,
        monitor_source: 0,
        monitor_source_name: None,
        latency: MicroSeconds(0),
        driver: None,
        flags: 0,
        proplist: Proplist { entries: vec![] },
        configured_latency: MicroSeconds(0),
        base_volume: Volume(65536),
        state: SinkState::Idle,
        n_volume_steps: 65537,
        card: None,
        ports: vec![],
        active_port: None,
        formats: vec![FormatInfo { encoding: 1, properties: Proplist { entries: vec![] } }],
    }
}

fn add(id: u32, info: SinkInfo<'static>) -> PulseMessage<'static> {
    PulseMessage::MsgAdd { id, msg: PulseAddMessage::MsgSink(info) }
}

#[test]
fn snapshot_messages_add_each_record_under_its_own_id() {
    let records = vec![
        PulseAddMessage::MsgSink(sink(10, "a")),
        PulseAddMessage::MsgSink(sink(20, "b")),
    ];
    let out = snapshot_messages(records);
    assert_eq!(out, vec![add(10, sink(10, "a")), add(20, sink(20, "b"))]);
}

#[test]
fn assembled_output_delivers_every_snapshot_before_any_live_message() {
    let snapshots = snapshot_messages(vec![
        PulseAddMessage::MsgSink(sink(1, "first")),
        PulseAddMessage::MsgSink(sink(2, "second")),
        PulseAddMessage::MsgSink(sink(3, "third")),
    ]);
    let live = messages_for_notification(
        &RawPulseMessage { facility: Facility::Sink, operation: Operation::New, index: 99 },
        vec![PulseAddMessage::MsgSink(sink(99, "late"))],
    );
    let out = assemble(snapshots, vec![], vec![], vec![], live);
    assert_eq!(
        out,
        vec![
            add(1, sink(1, "first")),
            add(2, sink(2, "second")),
            add(3, sink(3, "third")),
            add(99, sink(99, "late")),
        ]
    );
}

#[test]
fn end_to_end_add_remove_add_yields_exactly_that_order() {
    let s1 = sink(1, "s1");
    let notifications = [
        RawPulseMessage { facility: Facility::Sink, operation: Operation::New, index: 1 },
        RawPulseMessage { facility: Facility::Sink, operation: Operation::Removed, index: 1 },
        RawPulseMessage { facility: Facility::Sink, operation: Operation::New, index: 1 },
    ];
    let mut live: Vec<PulseMessage<'static>> = Vec::new();
    for raw in &notifications {
        // The fake fetch returns snapshot s1 for id 1 on every call; a
        // removal asks for no fetch at all.
        let fetched = match raw.operation {
            Operation::Removed => vec![],
            _ => vec![PulseAddMessage::MsgSink(s1.clone())],
        };
        live.extend(messages_for_notification(raw, fetched));
    }
    assert_eq!(
        live,
        vec![add(1, s1.clone()), PulseMessage::MsgDel { id: 1 }, add(1, s1.clone())]
    );

    let mut state = PulseState::new();
    let mut comm = PulseCommunication::new();
    comm.replay(&mut state, live);
    assert_eq!(state.sinks.len(), 1);
    assert_eq!(state.sinks.get(&1), Some(&s1));
}

#[test]
fn delete_for_unknown_id_is_a_no_op_and_later_add_still_lands() {
    let mut state = PulseState::new();
    let mut comm = PulseCommunication::new();
    comm.event(&mut state, PulseMessage::MsgDel { id: 5 });
    assert!(state.sinks.is_empty());
    assert!(state.sources.is_empty());
    assert!(state.sourceoutputs.is_empty());
    assert!(state.sinkinputs.is_empty());
    let s = sink(5, "revived");
    comm.event(&mut state, add(5, s.clone()));
    assert_eq!(state.sinks.len(), 1);
    assert_eq!(state.sinks.get(&5), Some(&s));
}

#[test]
fn replay_agrees_with_last_write_wins() {
    let mut state = PulseState::new();
    let mut comm = PulseCommunication::new();
    comm.replay(
        &mut state,
        vec![
            add(1, sink(1, "old")),
            add(2, sink(2, "kept")),
            add(1, sink(1, "new")),
            PulseMessage::MsgDel { id: 2 },
        ],
    );
    assert_eq!(state.sinks.len(), 1);
    assert_eq!(state.sinks.get(&1), Some(&sink(1, "new")));
    assert_eq!(state.sinks.get(&2), None);
}

#[test]
fn duplicate_add_from_snapshot_and_live_update_is_an_idempotent_upsert() {
    let mut state = PulseState::new();
    let mut comm = PulseCommunication::new();
    comm.event(&mut state, add(4, sink(4, "seen-twice")));
    comm.event(&mut state, add(4, sink(4, "seen-twice")));
    assert_eq!(state.sinks.len(), 1);
    assert_eq!(state.sinks.get(&4), Some(&sink(4, "seen-twice")));
}

#[test]
fn delete_clears_the_id_from_every_kind() {
    let mut state = PulseState::new();
    let mut comm = PulseCommunication::new();
    comm.event(&mut state, add(3, sink(3, "same-id")));
    comm.event(&mut state, PulseMessage::MsgDel { id: 3 });
    assert!(state.sinks.is_empty());
    assert!(state.sources.is_empty());
    assert!(state.sourceoutputs.is_empty());
    assert!(state.sinkinputs.is_empty());
}

#[test]
fn readiness_gate_decides_per_connection_state() {
    assert_eq!(connection_gate(ContextState::Ready), ConnectionGate::Proceed);
    assert_eq!(connection_gate(ContextState::Failed), ConnectionGate::Fatal);
    assert_eq!(connection_gate(ContextState::Terminated), ConnectionGate::Fatal);
    assert_eq!(connection_gate(ContextState::Unconnected), ConnectionGate::Wait);
    assert_eq!(connection_gate(ContextState::Connecting), ConnectionGate::Wait);
    assert_eq!(connection_gate(ContextState::Authorizing), ConnectionGate::Wait);
    assert_eq!(connection_gate(ContextState::SettingName), ConnectionGate::Wait);
}

#[test]
fn loop_iteration_failures_are_fatal_but_forwarding_failures_are_not() {
    assert!(!iterate_is_fatal(IterateOutcome::Success));
    assert!(iterate_is_fatal(IterateOutcome::Quit));
    assert!(iterate_is_fatal(IterateOutcome::Failure));
    assert!(!forward_is_fatal(ForwardOutcome::Delivered));
    assert!(!forward_is_fatal(ForwardOutcome::ChannelFull));
    assert!(!forward_is_fatal(ForwardOutcome::ChannelClosed));
}
