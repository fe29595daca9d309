//! The two callback adapters: a one-shot callback turned into a pollable
//! future, and a list callback turned into a bounded stream.
//!
//! Both are written as plain state machines. The native glue drives one
//! side (the callback fires, items arrive) and the asynchronous consumer
//! drives the other (polling); the mutual exclusion that lets the two sides
//! share a machine lives outside the library, which only decides what each
//! event does to the state.

use crate::introspect::SinkInfo;
use crate::introspect::SinkInputInfo;
use crate::introspect::SourceInfo;
use crate::introspect::SourceOutputInfo;
use crate::to_static::ToStatic;
use vstd::prelude::*;

verus! {

/// State of a one-shot callback bridge: still waiting (with at most one
/// registered waker), completed with an unconsumed result, or already
/// consumed.
#[derive(Debug, PartialEq)]
pub enum FutureState<T> {
    Running { waker: Option<u64> },
    Done { result: T },
    Spent,
}

/// What one poll of a [`CallbackFuture`] reports.
#[derive(Debug, PartialEq)]
pub enum PollOutcome<T> {
    /// No result yet; the caller's waker is now the registered one.
    Pending,
    /// The result, handed out exactly once.
    Ready(T),
    /// A second, distinct waker was offered while one is registered: a
    /// caller protocol error, reported rather than silently overwriting.
    Busy,
    /// The result was already consumed by an earlier poll: a caller
    /// protocol error.
    Spent,
}

/// Bridges one native callback invocation into a single pollable result.
///
/// The callback side calls [`Self::complete`] exactly once; the consumer
/// side calls [`Self::poll`], identifying itself by a waker id, until the
/// result is handed out.
pub struct CallbackFuture<T> {
    pub state: FutureState<T>,
}

impl<T> CallbackFuture<T> {
    /// A fresh future: running, no waker registered.
    pub fn new() -> (r: Self)
        ensures
            r.state matches FutureState::Running { waker } && waker is None,
    {
        CallbackFuture { state: FutureState::Running { waker: None } }
    }

    /// The one-shot completion, called from the native side when the
    /// callback fires. Stores the result and hands back the waker that a
    /// suspended poll may have registered, so the caller can wake it.
    pub fn complete(&mut self, result: T) -> (to_wake: Option<u64>)
        requires
            old(self).state is Running,
        ensures
            final(self).state matches FutureState::Done { result: stored } && stored == result,
            old(self).state matches FutureState::Running { waker } && to_wake == waker,
    {
        let mut prior = FutureState::Done { result };
        core::mem::swap(&mut self.state, &mut prior);
        match prior {
            FutureState::Running { waker } => waker,
            _ => None,
        }
    }

    /// One poll by the consumer, identified by its waker id.
    ///
    /// While running, the first waker is registered and polling with the
    /// same waker stays pending; a distinct second waker is a protocol
    /// error (`Busy`) and changes nothing. Once done, the result is
    /// returned exactly once; any later poll is a protocol error
    /// (`Spent`).
    pub fn poll(&mut self, waker_id: u64) -> (r: PollOutcome<T>)
        ensures
            match old(self).state {
                FutureState::Running { waker: None } => {
                    &&& r is Pending
                    &&& final(self).state matches FutureState::Running { waker }
                        && waker == Some(waker_id)
                },
                FutureState::Running { waker: Some(w) } => {
                    if w == waker_id {
                        &&& r is Pending
                        &&& final(self).state == old(self).state
                    } else {
                        &&& r is Busy
                        &&& final(self).state == old(self).state
                    }
                },
                FutureState::Done { result } => {
                    &&& r matches PollOutcome::Ready(v) && v == result
                    &&& final(self).state is Spent
                },
                FutureState::Spent => {
                    &&& r is Spent
                    &&& final(self).state is Spent
                },
            },
    {
        let mut taken = FutureState::Spent;
        core::mem::swap(&mut self.state, &mut taken);
        match taken {
            FutureState::Running { waker: None } => {
                self.state = FutureState::Running { waker: Some(waker_id) };
                PollOutcome::Pending
            },
            FutureState::Running { waker: Some(w) } => {
                self.state = FutureState::Running { waker: Some(w) };
                if w == waker_id {
                    PollOutcome::Pending
                } else {
                    PollOutcome::Busy
                }
            },
            FutureState::Done { result } => PollOutcome::Ready(result),
            FutureState::Spent => PollOutcome::Spent,
        }
    }
}

/// One event of a list callback: an item, or one of the two terminal
/// signals.
#[derive(Debug, PartialEq)]
pub enum ListEvent<T> {
    Item(T),
    End,
    Error,
}

/// What [`ListCallbackStream::accept`] did with an event.
#[derive(Clone, Copy, Debug, PartialEq, Eq, Structural)]
pub enum AcceptOutcome {
    /// The item was normalized and queued.
    Queued,
    /// The buffer was full; the item was dropped, by design.
    DroppedFull,
    /// A terminal signal closed the stream.
    Terminated,
    /// The stream was already closed; the event changed nothing.
    IgnoredClosed,
}

/// What one poll of a [`ListCallbackStream`] reports.
#[derive(Debug, PartialEq)]
pub enum StreamPoll<S> {
    /// The oldest queued item, in emission order.
    Ready(S),
    /// Nothing queued yet, but the stream is still open.
    Pending,
    /// Nothing queued and the stream is closed: the sequence has ended.
    Terminated,
}

/// Mathematical value of a [`ListCallbackStream`].
pub ghost struct ListStreamModel<V> {
    pub contents: Seq<V>,
    pub capacity: nat,
    pub closed: bool,
    pub failed: bool,
}

/// What queuing one item does to the model: queued while open and not
/// full, dropped otherwise.
pub open spec fn accept_item_model<V>(s: ListStreamModel<V>, v: V) -> ListStreamModel<V> {
    if s.closed || s.contents.len() >= s.capacity {
        s
    } else {
        ListStreamModel { contents: s.contents.push(v), ..s }
    }
}

/// What the `End` signal does to the model: closes an open stream.
pub open spec fn accept_end_model<V>(s: ListStreamModel<V>) -> ListStreamModel<V> {
    if s.closed {
        s
    } else {
        ListStreamModel { closed: true, ..s }
    }
}

/// What the `Error` signal does to the model: closes an open stream and
/// records the failure.
pub open spec fn accept_error_model<V>(s: ListStreamModel<V>) -> ListStreamModel<V> {
    if s.closed {
        s
    } else {
        ListStreamModel { closed: true, failed: true, ..s }
    }
}

/// Queuing a sequence of items, oldest first.
pub open spec fn feed_items_model<V>(s: ListStreamModel<V>, items: Seq<V>) -> ListStreamModel<V>
    decreases items.len(),
{
    if items.len() == 0 {
        s
    } else {
        feed_items_model(accept_item_model(s, items.first()), items.drop_first())
    }
}

/// Bridges a native list callback (zero or more items, then `End` or
/// `Error`) into a bounded queue read by the consumer.
///
/// Items that arrive while the buffer is full are dropped rather than ever
/// blocking the native callback thread: a deliberately lossy policy.
pub struct ListCallbackStream<S> {
    items: Vec<S>,
    capacity: usize,
    closed: bool,
    failed: bool,
}

impl<S: DeepView> View for ListCallbackStream<S> {
    type V = ListStreamModel<<S as DeepView>::V>;

    closed spec fn view(&self) -> ListStreamModel<<S as DeepView>::V> {
        ListStreamModel {
            contents: self.items.deep_view(),
            capacity: self.capacity as nat,
            closed: self.closed,
            failed: self.failed,
        }
    }
}

impl<S: DeepView> ListCallbackStream<S> {
    /// A fresh open stream with the given buffer capacity.
    pub fn with_capacity(capacity: usize) -> (r: Self)
        ensures
            r@ == (ListStreamModel {
                contents: Seq::<<S as DeepView>::V>::empty(),
                capacity: capacity as nat,
                closed: false,
                failed: false,
            }),
    {
        let r = ListCallbackStream { items: Vec::new(), capacity, closed: false, failed: false };
        proof {
            assert(r@.contents =~= Seq::<<S as DeepView>::V>::empty());
        }
        r
    }

    /// A fresh open stream with the default buffer capacity of 64.
    pub fn new() -> (r: Self)
        ensures
            r@ == (ListStreamModel {
                contents: Seq::<<S as DeepView>::V>::empty(),
                capacity: 64 as nat,
                closed: false,
                failed: false,
            }),
    {
        Self::with_capacity(64)
    }

    /// The callback side: one event arrives from the native thread. An
    /// item is normalized and queued (or dropped when the buffer is full);
    /// a terminal signal closes the stream; everything after the close
    /// changes nothing.
    pub fn accept<T: ToStatic<Static = S> + DeepView<V = <S as DeepView>::V>>(
        &mut self,
        event: ListEvent<T>,
    ) -> (outcome: AcceptOutcome)
        ensures
            match event {
                ListEvent::Item(v) => {
                    &&& final(self)@ == accept_item_model(old(self)@, v.deep_view())
                    &&& outcome == if old(self)@.closed {
                        AcceptOutcome::IgnoredClosed
                    } else if old(self)@.contents.len() >= old(self)@.capacity {
                        AcceptOutcome::DroppedFull
                    } else {
                        AcceptOutcome::Queued
                    }
                },
                ListEvent::End => {
                    &&& final(self)@ == accept_end_model(old(self)@)
                    &&& outcome == if old(self)@.closed {
                        AcceptOutcome::IgnoredClosed
                    } else {
                        AcceptOutcome::Terminated
                    }
                },
                ListEvent::Error => {
                    &&& final(self)@ == accept_error_model(old(self)@)
                    &&& outcome == if old(self)@.closed {
                        AcceptOutcome::IgnoredClosed
                    } else {
                        AcceptOutcome::Terminated
                    }
                },
            },
    {
        match event {
            ListEvent::Item(v) => {
                if self.closed {
                    AcceptOutcome::IgnoredClosed
                } else if self.items.len() >= self.capacity {
                    AcceptOutcome::DroppedFull
                } else {
                    self.items.push(v.to_static());
                    proof {
                        assert(self@.contents =~= accept_item_model(old(self)@, v.deep_view()).contents);
                    }
                    AcceptOutcome::Queued
                }
            },
            ListEvent::End => {
                if self.closed {
                    AcceptOutcome::IgnoredClosed
                } else {
                    self.closed = true;
                    AcceptOutcome::Terminated
                }
            },
            ListEvent::Error => {
                if self.closed {
                    AcceptOutcome::IgnoredClosed
                } else {
                    self.closed = true;
                    self.failed = true;
                    AcceptOutcome::Terminated
                }
            },
        }
    }

    /// The consumer side: take the oldest queued item, or report that the
    /// stream is still pending or has terminated.
    pub fn poll_next(&mut self) -> (r: StreamPoll<S>)
        ensures
            if old(self)@.contents.len() > 0 {
                &&& r matches StreamPoll::Ready(v) && v.deep_view() == old(self)@.contents.first()
                &&& final(self)@ == (ListStreamModel {
                    contents: old(self)@.contents.drop_first(),
                    ..old(self)@
                })
            } else {
                &&& final(self)@ == old(self)@
                &&& r == if old(self)@.closed {
                    StreamPoll::<S>::Terminated
                } else {
                    StreamPoll::<S>::Pending
                }
            },
    {
        if self.items.len() > 0 {
            let v = self.items.remove(0);
            proof {
                assert(self@.contents =~= old(self)@.contents.drop_first());
            }
            StreamPoll::Ready(v)
        } else if self.closed {
            StreamPoll::Terminated
        } else {
            StreamPoll::Pending
        }
    }

    /// Whether the stream was closed by `Error` rather than `End`.
    pub fn has_failed(&self) -> (r: bool)
        ensures
            r == self@.failed,
    {
        self.failed
    }

    /// Whether the stream is closed to further items.
    pub fn is_closed(&self) -> (r: bool)
        ensures
            r == self@.closed,
    {
        self.closed
    }
}

/// A closed stream accepts nothing: items offered after the terminal
/// signal leave the model unchanged.
pub proof fn lemma_closed_stream_rejects<V>(s: ListStreamModel<V>, v: V)
    requires
        s.closed,
    ensures
        accept_item_model(s, v) == s,
        accept_end_model(s) == s,
        accept_error_model(s) == s,
{
}

/// A source that emits any sequence of items that fits the free buffer
/// space, then `End`, leaves the stream holding exactly those items in
/// emission order after what it already held, closed to further input.
pub proof fn lemma_stream_yields_all_in_order<V>(s: ListStreamModel<V>, items: Seq<V>)
    requires
        !s.closed,
        s.contents.len() + items.len() <= s.capacity,
    ensures
        feed_items_model(s, items).contents == s.contents + items,
        !feed_items_model(s, items).closed,
        feed_items_model(s, items).capacity == s.capacity,
        feed_items_model(s, items).failed == s.failed,
        accept_end_model(feed_items_model(s, items)).closed,
        accept_end_model(feed_items_model(s, items)).contents == s.contents + items,
    decreases items.len(),
{
    if items.len() == 0 {
        assert(s.contents + items =~= s.contents);
    } else {
        let stepped = accept_item_model(s, items.first());
        assert(stepped.contents == s.contents.push(items.first()));
        lemma_stream_yields_all_in_order(stepped, items.drop_first());
        assert(s.contents.push(items.first()) + items.drop_first() =~= s.contents + items);
    }
}

/// The capability the bridge needs from the native introspector: fetch
/// one record by id, or enumerate all records of a kind, each answered
/// through a handle on a list-callback stream of normalized records.
///
/// The native side implements this outside the library by arming the
/// matching introspection call with a callback that feeds one of the
/// streams below; nothing is promised of what a fetch returns, so
/// everything downstream is proved for every possible answer.
pub trait IntrospectorStream<T: DeepView> {
    type Handle;

    fn stream_info_by_index(&self, index: u32) -> Self::Handle;

    fn stream_info_list(&self) -> Self::Handle;
}

/// The per-kind list-callback constructors: each yields a fresh stream of
/// normalized records with the default capacity, ready to be handed to the
/// native enumeration call.
pub fn callback_stream_sink_info() -> (r: ListCallbackStream<SinkInfo<'static>>)
    ensures
        r@.contents == Seq::<<SinkInfo<'static> as DeepView>::V>::empty(),
        !r@.closed,
        !r@.failed,
        r@.capacity == 64,
{
    ListCallbackStream::new()
}

/// See [`callback_stream_sink_info`].
pub fn callback_stream_source_info() -> (r: ListCallbackStream<SourceInfo<'static>>)
    ensures
        r@.contents == Seq::<<SourceInfo<'static> as DeepView>::V>::empty(),
        !r@.closed,
        !r@.failed,
        r@.capacity == 64,
{
    ListCallbackStream::new()
}

/// See [`callback_stream_sink_info`].
pub fn callback_stream_sink_input_info() -> (r: ListCallbackStream<SinkInputInfo<'static>>)
    ensures
        r@.contents == Seq::<<SinkInputInfo<'static> as DeepView>::V>::empty(),
        !r@.closed,
        !r@.failed,
        r@.capacity == 64,
{
    ListCallbackStream::new()
}

/// See [`callback_stream_sink_info`].
pub fn callback_stream_source_output_info() -> (r: ListCallbackStream<SourceOutputInfo<'static>>)
    ensures
        r@.contents == Seq::<<SourceOutputInfo<'static> as DeepView>::V>::empty(),
        !r@.closed,
        !r@.failed,
        r@.capacity == 64,
{
    ListCallbackStream::new()
}

} // verus!
