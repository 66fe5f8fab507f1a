//! The decisions of the boundary operations.
//!
//! The unverified shell performs the native calls (opening a session,
//! registering the watch, the blocking read) and hands their outcomes in as
//! plain values; the functions here make every decision — which input is
//! rejected before any native resource is touched, which failure produces
//! which message, and what a successful read's batch contains — and build
//! the envelope that crosses the boundary.

use vstd::prelude::*;
use vstd::string::StrSliceExecFns;
use crate::events::RawEvent;
use crate::events::batch_views;
use crate::events::decode_events;
use crate::events::decode_spec;
use crate::events::raw_views;
use crate::transport::INotifyC;
use crate::transport::ResultINotifyCTransport;
use crate::transport::ResultINotifyEventCTransport;
use crate::transport::msg_chars;

verus! {

/// A watch path is acceptable exactly when it is present and non-empty.
pub open spec fn path_valid_spec(path: Option<Seq<char>>) -> bool {
    match path {
        Some(p) => p.len() > 0,
        None => false,
    }
}

/// Whether a watch path is acceptable: a null or empty path is rejected
/// here, before any native resource is touched.
pub fn path_is_valid(path: &Option<String>) -> (valid: bool)
    ensures
        valid == path_valid_spec(match *path {
            Some(p) => Some(p@),
            None => None,
        }),
{
    match path {
        Some(p) => p.as_str().unicode_len() > 0,
        None => false,
    }
}

/// The envelope watch creation returns, decided from what happened at each
/// step: whether the path was acceptable, the token of the session the
/// shell opened (absent when opening failed), and whether registering the
/// watch on the open session succeeded. An invalid path or a failed step
/// yields a failure envelope with the step's message and no handle — in
/// particular, a session whose watch registration failed is discarded, not
/// returned. Only a fully successful creation yields a success envelope,
/// and its handle is the live handle of that session.
pub fn init_outcome(path_valid: bool, session: Option<usize>, watch_ok: bool) -> (envelope:
    ResultINotifyCTransport)
    requires
        session matches Some(token) ==> token != 0,
    ensures
        envelope.wf(),
        envelope.is_ok <==> path_valid && session is Some && watch_ok,
        !path_valid ==> msg_chars(envelope.err_msg) == "Path is null or empty"@,
        path_valid && session is None ==> msg_chars(envelope.err_msg)
            == "Failed to initialize inotify"@,
        path_valid && session is Some && !watch_ok ==> msg_chars(envelope.err_msg)
            == "Failed to watch directory"@,
        match session {
            Some(token) => path_valid && watch_ok ==> envelope.inotify == (INotifyC { token }),
            None => true,
        },
{
    proof {
        reveal_strlit("Path is null or empty");
        reveal_strlit("Failed to initialize inotify");
        reveal_strlit("Failed to watch directory");
    }
    if !path_valid {
        return ResultINotifyCTransport::new_err("Path is null or empty");
    }
    match session {
        None => ResultINotifyCTransport::new_err("Failed to initialize inotify"),
        Some(token) => {
            if !watch_ok {
                ResultINotifyCTransport::new_err("Failed to watch directory")
            } else {
                ResultINotifyCTransport::new(INotifyC { token })
            }
        },
    }
}

/// The envelope a blocking read returns, decided from whether the handle
/// was live and from the raw events the shell's native read produced
/// (absent when the native read failed). A dead handle and a failed read
/// each yield a failure envelope with their message; a successful read
/// yields a success envelope whose batch is exactly the decoding of the raw
/// events — reported kinds kept in arrival order, everything else filtered
/// out — and whose count matches the batch. An all-filtered read is a
/// success with count zero, distinct from any failure.
pub fn read_outcome(handle_live: bool, read: Option<Vec<RawEvent>>) -> (envelope:
    ResultINotifyEventCTransport)
    ensures
        envelope.wf(),
        envelope.is_ok <==> handle_live && read is Some,
        !handle_live ==> msg_chars(envelope.err_msg) == "Inotify instance is a nullptr."@,
        handle_live && read is None ==> msg_chars(envelope.err_msg)
            == "Error while reading events from inotify"@,
        match read {
            Some(raws) => handle_live ==> batch_views(envelope.event_array@)
                == decode_spec(raw_views(raws@)) && envelope.event_len
                == envelope.event_array@.len(),
            None => true,
        },
{
    proof {
        reveal_strlit("Inotify instance is a nullptr.");
        reveal_strlit("Error while reading events from inotify");
    }
    if !handle_live {
        return ResultINotifyEventCTransport::new_err("Inotify instance is a nullptr.");
    }
    match read {
        None => ResultINotifyEventCTransport::new_err("Error while reading events from inotify"),
        Some(raws) => {
            let batch = decode_events(&raws);
            ResultINotifyEventCTransport::new(batch)
        },
    }
}

} // verus!
