use inotify_c::INotifyC;
use inotify_c::INotifyCEventMask;
use inotify_c::RawEvent;
use inotify_c::ResultINotifyCTransport;
use inotify_c::ResultINotifyEventCTransport;
use inotify_c::boundary::init_outcome;
use inotify_c::boundary::path_is_valid;
use inotify_c::boundary::read_outcome;
use inotify_c::events::MASK_CREATE;
use inotify_c::events::MASK_DELETE;
use inotify_c::events::MASK_ISDIR;
use inotify_c::events::MASK_MODIFY;

#[test]
fn path_validity_rejects_null_and_empty() {
    assert!(!path_is_valid(&None));
    assert!(!path_is_valid(&Some(String::new())));
    assert!(path_is_valid(&Some(String::from("/var/log"))));
}

#[test]
fn invalid_path_yields_failure_without_session() {
    let envelope = init_outcome(false, None, false);
    assert!(!envelope.is_ok);
    let msg = envelope.err_msg.as_deref().unwrap();
    assert_eq!(msg, "Path is null or empty");
    assert!(!msg.is_empty());
    assert_eq!(envelope.err_len, msg.len());
    assert_eq!(envelope.inotify.token, 0);
}

#[test]
fn failed_session_open_yields_its_message() {
    let envelope = init_outcome(true, None, false);
    assert!(!envelope.is_ok);
    assert_eq!(envelope.err_msg.as_deref(), Some("Failed to initialize inotify"));
    assert_eq!(envelope.inotify.token, 0);
}

#[test]
fn failed_watch_registration_discards_the_session() {
    let envelope = init_outcome(true, Some(41), false);
    assert!(!envelope.is_ok);
    assert_eq!(envelope.err_msg.as_deref(), Some("Failed to watch directory"));
    // No partially initialized handle is handed out.
    assert_eq!(envelope.inotify.token, 0);
}

#[test]
fn successful_creation_wraps_the_live_handle() {
    let envelope = init_outcome(true, Some(41), true);
    assert!(envelope.is_ok);
    assert!(envelope.err_msg.is_none());
    assert_eq!(envelope.err_len, 0);
    assert_eq!(envelope.inotify.token, 41);
    assert!(envelope.inotify.live());
}

#[test]
fn destroy_releases_exactly_once() {
    let mut handle = INotifyC { token: 41 };
    assert!(handle.live());
    let first = handle.destroy();
    let second = handle.destroy();
    assert!(first);
    assert!(!second);
    assert_eq!(handle.token, 0);
    assert!(!handle.live());
}

#[test]
fn read_on_dead_handle_is_a_reported_error() {
    let envelope = read_outcome(false, None);
    assert!(!envelope.is_ok);
    assert_eq!(envelope.err_msg.as_deref(), Some("Inotify instance is a nullptr."));
    assert_eq!(envelope.event_array.len(), 0);
    assert_eq!(envelope.event_len, 0);
}

#[test]
fn failed_native_read_is_a_reported_error() {
    let envelope = read_outcome(true, None);
    assert!(!envelope.is_ok);
    assert_eq!(envelope.err_msg.as_deref(), Some("Error while reading events from inotify"));
    assert_eq!(envelope.event_array.len(), 0);
}

#[test]
fn single_create_read_yields_one_create_record() {
    let raws = vec![RawEvent { mask: MASK_CREATE, name: Some(String::from("fresh.txt")) }];
    let envelope = read_outcome(true, Some(raws));
    assert!(envelope.is_ok);
    assert!(envelope.err_msg.is_none());
    assert_eq!(envelope.event_len, 1);
    assert_eq!(envelope.event_array.len(), 1);
    assert_eq!(envelope.event_array[0].name, "fresh.txt");
    assert!(envelope.event_array[0].mask == INotifyCEventMask::CREATE);
}

#[test]
fn modify_then_delete_read_yields_both_records() {
    let raws = vec![
        RawEvent { mask: MASK_MODIFY, name: Some(String::from("log")) },
        RawEvent { mask: MASK_DELETE, name: Some(String::from("log")) },
    ];
    let envelope = read_outcome(true, Some(raws));
    assert!(envelope.is_ok);
    assert_eq!(envelope.event_len, 2);
    assert!(envelope.event_array[0].mask == INotifyCEventMask::MODIFY);
    assert!(envelope.event_array[1].mask == INotifyCEventMask::DELETE);
    assert_eq!(envelope.event_array[0].name, "log");
    assert_eq!(envelope.event_array[1].name, "log");
}

#[test]
fn noise_only_read_is_ok_with_count_zero() {
    let raws = vec![RawEvent { mask: MASK_CREATE | MASK_ISDIR, name: Some(String::from("d")) }];
    let envelope = read_outcome(true, Some(raws));
    // A batch with count zero is a valid success, distinct from an error.
    assert!(envelope.is_ok);
    assert!(envelope.err_msg.is_none());
    assert_eq!(envelope.err_len, 0);
    assert_eq!(envelope.event_len, 0);
    assert_eq!(envelope.event_array.len(), 0);
}

#[test]
fn empty_read_is_ok_with_count_zero() {
    let envelope = read_outcome(true, Some(Vec::new()));
    assert!(envelope.is_ok);
    assert_eq!(envelope.event_len, 0);
}

#[test]
fn handle_envelope_constructors_keep_the_shapes() {
    let ok = ResultINotifyCTransport::new(INotifyC { token: 7 });
    assert!(ok.is_ok && ok.err_msg.is_none() && ok.err_len == 0 && ok.inotify.token == 7);
    let err = ResultINotifyCTransport::new_err("watch failed");
    assert!(!err.is_ok);
    assert_eq!(err.err_msg.as_deref(), Some("watch failed"));
    assert_eq!(err.err_len, "watch failed".len());
    assert_eq!(err.inotify.token, 0);
}

#[test]
fn event_envelope_constructors_keep_the_shapes() {
    let ok = ResultINotifyEventCTransport::new(Vec::new());
    assert!(ok.is_ok && ok.err_msg.is_none() && ok.event_len == 0);
    let err = ResultINotifyEventCTransport::new_err("read failed");
    assert!(!err.is_ok);
    assert_eq!(err.err_msg.as_deref(), Some("read failed"));
    assert_eq!(err.err_len, "read failed".len());
    assert_eq!(err.event_array.len(), 0);
    assert_eq!(err.event_len, 0);
}
