//! Normalisation of raw file-system events into per-path change notifications.

use vstd::prelude::*;

verus! {

/// The category of a raw watcher event.
pub enum RawEventKind {
    /// An event of unknown or unspecified kind.
    Any,
    /// A pure read or access of a file: nothing changed.
    Access,
    /// A file or folder was created.
    Create,
    /// Content or metadata was modified.
    Modify,
    /// A file or folder was removed.
    Remove,
    /// An event that fits no other kind.
    Other,
}

/// One event as the OS watcher delivers it: a kind and the affected paths,
/// in the watcher's order (a rename lists the old path and then the new).
pub struct RawEvent {
    pub kind: RawEventKind,
    pub paths: Vec<String>,
}

/// The name under which change notifications reach the UI.
pub const FILE_CHANGED_EVENT: &'static str = "file-changed";

/// One observed change, forwarded to the UI for the path it names.
pub struct ChangeNotification {
    pub path: String,
}

/// The paths that an event is reported for: none for an access event, every
/// affected path in order otherwise.
pub open spec fn notified_paths(kind: RawEventKind, paths: Seq<String>) -> Seq<String> {
    match kind {
        RawEventKind::Access => Seq::empty(),
        _ => paths,
    }
}

/// The change notifications for one raw event: access events are dropped as
/// noise; any other event yields one notification per affected path, in the
/// event's order.
pub fn normalize(event: RawEvent) -> (r: Vec<ChangeNotification>)
    ensures
        r@.len() == notified_paths(event.kind, event.paths@).len(),
        forall|i: int|
            0 <= i < r@.len() ==> r@[i].path == notified_paths(event.kind, event.paths@)[i],
{
    let mut out: Vec<ChangeNotification> = Vec::new();
    if let RawEventKind::Access = event.kind {
        return out;
    }
    let paths = event.paths;
    let n: usize = paths.len();
    let mut i: usize = 0;
    while i < n
        invariant
            n == paths@.len(),
            i <= n,
            out@.len() == i,
            forall|j: int| 0 <= j < i ==> out@[j].path == paths@[j],
        decreases n - i,
    {
        out.push(ChangeNotification { path: paths[i].clone() });
        i = i + 1;
    }
    out
}

} // verus!
