use futuristic_pulse::callback_future::AcceptOutcome;
use futuristic_pulse::callback_future::CallbackFuture;
use futuristic_pulse::callback_future::FutureState;
use futuristic_pulse::callback_future::ListCallbackStream;
use futuristic_pulse::callback_future::ListEvent;
use futuristic_pulse::callback_future::PollOutcome;
use futuristic_pulse::callback_future::StreamPoll;
use futuristic_pulse::callback_future::callback_stream_sink_info;
use futuristic_pulse::introspect::PortAvailable;
use futuristic_pulse::introspect::SinkPortInfo;
use std::borrow::Cow;

fn port(name: &str) -> SinkPortInfo<'_> {
    SinkPortInfo {
        name: Some(Cow::Borrowed(name)),
        description: None,
        priority: 100,
        available: PortAvailable::Yes,
    }
}

fn ready_name(poll: StreamPoll<SinkPortInfo<'static>>) -> String {
    match poll {
        StreamPoll::Ready(item) => item.name.as_deref().expect("port must keep its name").to_string(),
        other => panic!("expected a ready item, got {:?}", other),
    }
}

#[test]
fn list_stream_yields_all_items_in_emission_order_then_terminates() {
    let mut stream: ListCallbackStream<SinkPortInfo<'static>> = ListCallbackStream::new();
    for name in ["a", "b", "c"] {
        assert_eq!(stream.accept(ListEvent::Item(port(name))), AcceptOutcome::Queued);
    }
    assert_eq!(stream.accept(ListEvent::<SinkPortInfo>::End), AcceptOutcome::Terminated);
    assert!(stream.is_closed());
    assert_eq!(ready_name(stream.poll_next()), "a");
    assert_eq!(ready_name(stream.poll_next()), "b");
    assert_eq!(ready_name(stream.poll_next()), "c");
    assert_eq!(stream.poll_next(), StreamPoll::Terminated);
    assert_eq!(stream.poll_next(), StreamPoll::Terminated);
}

#[test]
fn closed_list_stream_accepts_nothing_further() {
    let mut stream: ListCallbackStream<SinkPortInfo<'static>> = ListCallbackStream::new();
    assert_eq!(stream.accept(ListEvent::Item(port("kept"))), AcceptOutcome::Queued);
    assert_eq!(stream.accept(ListEvent::<SinkPortInfo>::End), AcceptOutcome::Terminated);
    assert_eq!(stream.accept(ListEvent::Item(port("late"))), AcceptOutcome::IgnoredClosed);
    assert_eq!(stream.accept(ListEvent::<SinkPortInfo>::End), AcceptOutcome::IgnoredClosed);
    assert_eq!(ready_name(stream.poll_next()), "kept");
    assert_eq!(stream.poll_next(), StreamPoll::Terminated);
}

#[test]
fn full_buffer_drops_items_instead_of_blocking() {
    let mut stream: ListCallbackStream<SinkPortInfo<'static>> =
        ListCallbackStream::with_capacity(2);
    assert_eq!(stream.accept(ListEvent::Item(port("one"))), AcceptOutcome::Queued);
    assert_eq!(stream.accept(ListEvent::Item(port("two"))), AcceptOutcome::Queued);
    assert_eq!(stream.accept(ListEvent::Item(port("three"))), AcceptOutcome::DroppedFull);
    assert_eq!(stream.accept(ListEvent::<SinkPortInfo>::End), AcceptOutcome::Terminated);
    assert_eq!(ready_name(stream.poll_next()), "one");
    assert_eq!(ready_name(stream.poll_next()), "two");
    assert_eq!(stream.poll_next(), StreamPoll::Terminated);
}

#[test]
fn error_signal_terminates_and_is_remembered() {
    let mut stream: ListCallbackStream<SinkPortInfo<'static>> = ListCallbackStream::new();
    assert_eq!(stream.accept(ListEvent::Item(port("kept"))), AcceptOutcome::Queued);
    assert_eq!(stream.accept(ListEvent::<SinkPortInfo>::Error), AcceptOutcome::Terminated);
    assert!(stream.has_failed());
    assert!(stream.is_closed());
    assert_eq!(ready_name(stream.poll_next()), "kept");
    assert_eq!(stream.poll_next(), StreamPoll::Terminated);
}

#[test]
fn empty_open_stream_reports_pending() {
    let mut stream: ListCallbackStream<SinkPortInfo<'static>> = ListCallbackStream::new();
    assert_eq!(stream.poll_next(), StreamPoll::Pending);
    assert!(!stream.is_closed());
    assert!(!stream.has_failed());
}

#[test]
fn sink_info_stream_constructor_starts_open_and_empty() {
    let mut stream = callback_stream_sink_info();
    assert!(!stream.is_closed());
    assert!(!stream.has_failed());
    assert_eq!(stream.poll_next(), StreamPoll::Pending);
}

#[test]
fn callback_future_registers_waker_and_hands_out_result_once() {
    let mut future: CallbackFuture<u32> = CallbackFuture::new();
    assert_eq!(future.poll(1), PollOutcome::Pending);
    assert_eq!(future.poll(1), PollOutcome::Pending);
    let woken = future.complete(42);
    assert_eq!(woken, Some(1));
    assert_eq!(future.poll(1), PollOutcome::Ready(42));
    assert_eq!(future.poll(1), PollOutcome::Spent);
    assert_eq!(future.poll(2), PollOutcome::Spent);
}

#[test]
fn callback_future_rejects_second_distinct_waker() {
    let mut future: CallbackFuture<u32> = CallbackFuture::new();
    assert_eq!(future.poll(1), PollOutcome::Pending);
    assert_eq!(future.poll(2), PollOutcome::Busy);
    assert_eq!(future.poll(1), PollOutcome::Pending);
    let woken = future.complete(7);
    assert_eq!(woken, Some(1));
    assert_eq!(future.poll(2), PollOutcome::Ready(7));
}

#[test]
fn callback_future_completes_without_a_registered_waker() {
    let mut future: CallbackFuture<bool> = CallbackFuture::new();
    assert_eq!(future.state, FutureState::Running { waker: None });
    let woken = future.complete(true);
    assert_eq!(woken, None);
    assert_eq!(future.poll(9), PollOutcome::Ready(true));
}
