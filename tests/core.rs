use editor_backend::events::{
    normalize, ChangeNotification, RawEvent, RawEventKind, FILE_CHANGED_EVENT,
};
use editor_backend::launch::{candidate_path, is_flag, relay_second_launch, OPEN_FILE_REQUEST_EVENT};
use editor_backend::mailbox::StartupFileMailbox;
use editor_backend::registry::{registration_result, removal_result, WatchError, WatchRegistry};
use std::sync::mpsc::channel;
use std::sync::{Arc, Mutex};

fn args(items: &[&str]) -> Vec<String> {
    items.iter().map(|s| s.to_string()).collect()
}

fn paths(ns: &[ChangeNotification]) -> Vec<String> {
    ns.iter().map(|n| n.path.clone()).collect()
}

fn new_registry() -> WatchRegistry {
    let (tx, _rx) = channel();
    WatchRegistry::new(tx)
}

#[test]
fn take_twice_delivers_once() {
    let mut m = StartupFileMailbox::new();
    m.set_once("/home/u/notes.md".to_string());
    assert_eq!(m.take(), Some("/home/u/notes.md".to_string()));
    assert_eq!(m.take(), None);
}

#[test]
fn take_on_empty_mailbox_is_none() {
    let mut m = StartupFileMailbox::new();
    assert_eq!(m.take(), None);
    assert_eq!(m.take(), None);
}

#[test]
fn startup_file_from_path_argument() {
    let mut m = StartupFileMailbox::from_launch_args(&args(&["editor", "/tmp/doc.md"]));
    assert_eq!(m.take(), Some("/tmp/doc.md".to_string()));
    assert_eq!(m.take(), None);
}

#[test]
fn startup_flag_argument_sets_nothing() {
    let mut m = StartupFileMailbox::from_launch_args(&args(&["editor", "--flag"]));
    assert!(matches!(m, StartupFileMailbox::Empty));
    assert_eq!(m.take(), None);
}

#[test]
fn startup_without_arguments_sets_nothing() {
    let mut m = StartupFileMailbox::from_launch_args(&args(&["editor"]));
    assert_eq!(m.take(), None);
    let mut none = StartupFileMailbox::from_launch_args(&args(&[]));
    assert_eq!(none.take(), None);
}

#[test]
fn only_second_argument_is_a_candidate() {
    assert_eq!(candidate_path(&args(&["editor", "-v", "/tmp/a.md"])), None);
    assert_eq!(
        candidate_path(&args(&["editor", "/tmp/a.md", "/tmp/b.md"])),
        Some("/tmp/a.md".to_string())
    );
    assert_eq!(candidate_path(&args(&["editor", ""])), Some(String::new()));
}

#[test]
fn flag_shape() {
    assert!(is_flag("-"));
    assert!(is_flag("--flag"));
    assert!(!is_flag(""));
    assert!(!is_flag("/tmp/-x.md"));
    assert!(!is_flag("doc-1.md"));
}

#[test]
fn second_launch_with_path_focuses_and_requests_open() {
    let action = relay_second_launch(&args(&["editor", "/tmp/doc.md"]));
    assert!(action.focus_main_window);
    assert_eq!(action.open_file_request, Some("/tmp/doc.md".to_string()));
    assert_eq!(OPEN_FILE_REQUEST_EVENT, "open-file-request");
}

#[test]
fn second_launch_with_flag_only_focuses() {
    let action = relay_second_launch(&args(&["editor", "--flag"]));
    assert!(action.focus_main_window);
    assert_eq!(action.open_file_request, None);
    let bare = relay_second_launch(&args(&["editor"]));
    assert!(bare.focus_main_window);
    assert_eq!(bare.open_file_request, None);
}

#[test]
fn access_event_yields_nothing() {
    let ev = RawEvent { kind: RawEventKind::Access, paths: args(&["/a", "/b"]) };
    assert!(normalize(ev).is_empty());
}

#[test]
fn change_event_yields_one_per_path_in_order() {
    let ev = RawEvent { kind: RawEventKind::Modify, paths: args(&["/a", "/b"]) };
    assert_eq!(paths(&normalize(ev)), args(&["/a", "/b"]));
    let rename = RawEvent { kind: RawEventKind::Other, paths: args(&["/old", "/new"]) };
    assert_eq!(paths(&normalize(rename)), args(&["/old", "/new"]));
    let empty = RawEvent { kind: RawEventKind::Create, paths: Vec::new() };
    assert!(normalize(empty).is_empty());
    assert_eq!(FILE_CHANGED_EVENT, "file-changed");
}

#[test]
fn unwatch_without_watcher_succeeds() {
    let mut reg = new_registry();
    assert!(reg.unwatch("/never/watched").is_ok());
    assert!(!reg.is_active());
}

#[test]
fn missing_registration_is_no_error() {
    assert!(removal_result(Ok(())).is_ok());
    assert!(removal_result(Err(notify::Error::watch_not_found())).is_ok());
    let other = removal_result(Err(notify::Error::generic("kernel failure")));
    assert!(matches!(other, Err(WatchError::WatchRemove(_))));
    let io = removal_result(Err(notify::Error::path_not_found()));
    assert!(matches!(io, Err(WatchError::WatchRemove(_))));
}

#[test]
fn repeated_watch_of_one_path() {
    let mut reg = new_registry();
    for _ in 0..3 {
        assert!(reg.watch("/tmp").is_ok());
        assert!(reg.is_active());
    }
    assert!(reg.unwatch("/tmp").is_ok());
    assert!(reg.unwatch("/tmp").is_ok());
}

#[test]
fn unwatch_never_watched_path_succeeds() {
    let mut reg = new_registry();
    assert!(reg.watch("/tmp").is_ok());
    assert!(reg.unwatch("/").is_ok());
}

#[test]
fn failed_registration_keeps_watcher_usable() {
    let mut reg = new_registry();
    let r = reg.watch("/no/such/directory/here");
    assert!(matches!(r, Err(WatchError::WatchAdd(_))));
    assert!(reg.is_active());
    assert!(reg.watch("/tmp").is_ok());
    assert!(reg.unwatch("/tmp").is_ok());
}

#[test]
fn two_callers_share_one_registry() {
    let reg = Arc::new(Mutex::new(new_registry()));
    let first = Arc::clone(&reg);
    let second = Arc::clone(&reg);
    assert!(first.lock().unwrap().watch("/tmp").is_ok());
    assert!(second.lock().unwrap().watch("/").is_ok());
    let mut guard = reg.lock().unwrap();
    assert!(guard.is_active());
    assert!(guard.unwatch("/tmp").is_ok());
    assert!(guard.unwatch("/").is_ok());
    assert!(guard.watch("/").is_ok());
}

#[test]
fn refused_registration_is_an_add_error() {
    assert!(registration_result(Ok(())).is_ok());
    let missing = registration_result(Err(notify::Error::path_not_found()));
    assert!(matches!(missing, Err(WatchError::WatchAdd(_))));
    let limit = registration_result(Err(notify::Error::generic("limit reached")));
    assert!(matches!(limit, Err(WatchError::WatchAdd(_))));
}
