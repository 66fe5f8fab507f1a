//! A verified core for a C-callable filesystem-change notification library.
//!
//! The library models the boundary protocol itself: an opaque watch handle,
//! batches of typed change-event records, and tagged result envelopes that
//! carry either a payload or an error message. Every decision the boundary
//! makes (input validation, event filtering and decoding, envelope shape,
//! handle invalidation) is verified here; a thin unverified shell performs
//! the native calls and hands plain values in and out.

pub mod boundary;
pub mod events;
pub mod transport;

pub use events::INotifyCEvent;
pub use events::INotifyCEventMask;
pub use events::RawEvent;
pub use transport::INotifyC;
pub use transport::ResultINotifyCTransport;
pub use transport::ResultINotifyEventCTransport;
