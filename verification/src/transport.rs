//! The opaque watch handle and the tagged result envelopes.
//!
//! A handle is an integer-sized opaque token: zero stands for a null or
//! already-destroyed handle, any other value for a live native session.
//! Every boundary operation returns a result envelope: a discriminated
//! struct that is either a success carrying a payload and no error, or a
//! failure carrying a non-empty error message and an empty payload. The
//! error message and the payload are independent: at most one of the two is
//! ever populated, so releasing one never touches the other.

use vstd::prelude::*;
use vstd::string::StrSliceExecFns;
use vstd::string::StringExecFns;
use crate::events::INotifyCEvent;

verus! {

/// The opaque watch handle: a token standing for one native notification
/// session. A zero token is the null handle; a live handle's token is the
/// identity of the session the unverified shell holds for it.
pub struct INotifyC {
    pub token: usize,
}

/// The handle a destroy operation leaves behind: the null handle, whatever
/// the handle was before.
pub open spec fn after_destroy(handle: INotifyC) -> INotifyC {
    INotifyC { token: 0 }
}

/// A destroy operation releases the native session exactly when the handle
/// it is given is still live.
pub open spec fn releases_session(handle: INotifyC) -> bool {
    handle.is_live()
}

impl INotifyC {
    /// A handle is live while its token is non-zero; destroying it nulls
    /// the token.
    pub open spec fn is_live(self) -> bool {
        self.token != 0
    }

    /// Whether the handle is live: the check every read performs before
    /// touching the native session.
    pub fn live(&self) -> (live: bool)
        ensures
            live == self.is_live(),
    {
        self.token != 0
    }

    /// Invalidates the handle, telling the caller whether the native
    /// session must be released: true exactly on the first destruction of a
    /// live handle, so a second destruction releases nothing.
    pub fn destroy(&mut self) -> (release: bool)
        ensures
            release == old(self).is_live(),
            *final(self) == after_destroy(*old(self)),
    {
        let was_live = self.token != 0;
        self.token = 0;
        was_live
    }
}

/// Destroying a handle twice releases the native session at most once: the
/// handle a destruction leaves behind is dead, so a second destruction is a
/// no-op that releases nothing and changes nothing.
pub proof fn lemma_second_destroy_is_noop(handle: INotifyC)
    ensures
        !releases_session(after_destroy(handle)),
        after_destroy(after_destroy(handle)) == after_destroy(handle),
{
}

/// A live handle's one native session is released exactly once by a
/// destruction: the destruction of the live handle releases it, and no
/// destruction of what is left behind releases anything more.
pub proof fn lemma_destroy_releases_once(handle: INotifyC)
    requires
        handle.is_live(),
    ensures
        releases_session(handle),
        !releases_session(after_destroy(handle)),
{
}

/// The characters of an optional error message; empty when there is none.
pub open spec fn msg_chars(msg: Option<String>) -> Seq<char> {
    match msg {
        Some(s) => s@,
        None => Seq::empty(),
    }
}

/// The result envelope of watch creation: either a live handle, or an
/// error message and the null handle.
pub struct ResultINotifyCTransport {
    pub is_ok: bool,
    pub err_msg: Option<String>,
    pub err_len: usize,
    pub inotify: INotifyC,
}

impl ResultINotifyCTransport {
    /// The envelope invariant: a success carries a live handle and no
    /// error; a failure carries a non-empty message, its length, and the
    /// null handle. At most one of payload and error is ever populated.
    pub open spec fn wf(self) -> bool {
        if self.is_ok {
            self.err_msg is None && self.err_len == 0 && self.inotify.is_live()
        } else {
            self.err_msg is Some && msg_chars(self.err_msg).len() > 0
                && self.err_len == msg_chars(self.err_msg).len() && !self.inotify.is_live()
        }
    }

    /// Wraps a live handle in a success envelope.
    pub fn new(inotify: INotifyC) -> (envelope: Self)
        requires
            inotify.is_live(),
        ensures
            envelope.is_ok,
            envelope.inotify == inotify,
            envelope.err_msg is None,
            envelope.err_len == 0,
            envelope.wf(),
    {
        ResultINotifyCTransport { is_ok: true, err_msg: None, err_len: 0, inotify }
    }

    /// Wraps an error message in a failure envelope carrying the null
    /// handle.
    pub fn new_err(msg: &str) -> (envelope: Self)
        requires
            msg@.len() > 0,
        ensures
            !envelope.is_ok,
            envelope.err_msg is Some,
            msg_chars(envelope.err_msg) == msg@,
            envelope.err_len == msg@.len(),
            !envelope.inotify.is_live(),
            envelope.wf(),
    {
        let err_len = msg.unicode_len();
        ResultINotifyCTransport {
            is_ok: false,
            err_msg: Some(String::from_str(msg)),
            err_len,
            inotify: INotifyC { token: 0 },
        }
    }
}

/// The result envelope of a blocking read: either an event batch (an array
/// of records and its count), or an error message and an empty batch.
pub struct ResultINotifyEventCTransport {
    pub is_ok: bool,
    pub err_msg: Option<String>,
    pub err_len: usize,
    pub event_array: Vec<INotifyCEvent>,
    pub event_len: usize,
}

impl ResultINotifyEventCTransport {
    /// The envelope invariant: the count always matches the array, a
    /// success carries no error, and a failure carries a non-empty message,
    /// its length, and an empty batch. An empty batch under `is_ok` is a
    /// valid state distinct from a failure.
    pub open spec fn wf(self) -> bool {
        self.event_len == self.event_array@.len() && if self.is_ok {
            self.err_msg is None && self.err_len == 0
        } else {
            self.err_msg is Some && msg_chars(self.err_msg).len() > 0
                && self.err_len == msg_chars(self.err_msg).len() && self.event_array@.len() == 0
        }
    }

    /// Wraps a decoded batch in a success envelope; the recorded count is
    /// the batch's length.
    pub fn new(events: Vec<INotifyCEvent>) -> (envelope: Self)
        ensures
            envelope.is_ok,
            envelope.event_array == events,
            envelope.event_len == events@.len(),
            envelope.err_msg is None,
            envelope.err_len == 0,
            envelope.wf(),
    {
        let event_len = events.len();
        ResultINotifyEventCTransport {
            is_ok: true,
            err_msg: None,
            err_len: 0,
            event_array: events,
            event_len,
        }
    }

    /// Wraps an error message in a failure envelope carrying an empty
    /// batch.
    pub fn new_err(msg: &str) -> (envelope: Self)
        requires
            msg@.len() > 0,
        ensures
            !envelope.is_ok,
            envelope.err_msg is Some,
            msg_chars(envelope.err_msg) == msg@,
            envelope.err_len == msg@.len(),
            envelope.event_array@.len() == 0,
            envelope.event_len == 0,
            envelope.wf(),
    {
        let err_len = msg.unicode_len();
        ResultINotifyEventCTransport {
            is_ok: false,
            err_msg: Some(String::from_str(msg)),
            err_len,
            event_array: Vec::new(),
            event_len: 0,
        }
    }
}

} // verus!
