//! Bridge from a callback-driven audio-server API to one ordered stream of
//! typed change messages.
//!
//! The library holds the decision logic of that bridge: classification of raw
//! notifications, deep ownership-normalization of call-scoped records, the
//! one-shot callback future and the list-callback stream state machines, the
//! snapshot-before-live stream assembly, and the consumer's reconciled state.
//! The native connection, its event loop and the cross-thread channels live
//! outside the library and hand it plain values.

pub mod assemble;
pub mod callback_future;
pub mod demux;
pub mod driver;
pub mod introspect;
pub mod messages;
pub mod state;
pub mod to_static;
