//! The OS watcher of the `notify` crate, as the registry uses it.

use vstd::prelude::*;

use notify::Watcher;
use std::sync::mpsc::Sender;

verus! {

/// A raw event of the OS watcher, carried through to the event channel.
#[verifier::external_type_specification]
#[verifier::external_body]
pub struct ExEvent(notify::Event);

/// The platform's watcher handle.
#[verifier::external_type_specification]
#[verifier::external_body]
pub struct ExRecommendedWatcher(notify::RecommendedWatcher);

/// The error of a watcher operation; its kind is read to tell a missing
/// registration from other failures.
#[verifier::external_type_specification]
pub struct ExError(notify::Error);

/// What went wrong in a watcher operation.
#[verifier::external_type_specification]
pub struct ExErrorKind(notify::ErrorKind);

/// An I/O error inside a watcher error.
#[verifier::external_type_specification]
#[verifier::external_body]
pub struct ExIoError(std::io::Error);

/// A watcher configuration inside a watcher error.
#[verifier::external_type_specification]
#[verifier::external_body]
pub struct ExConfig(notify::Config);

/// A path named by a watcher error.
#[verifier::external_type_specification]
#[verifier::external_body]
pub struct ExPathBuf(std::path::PathBuf);

/// Whether a watch covers the sub-directories of its path.
#[verifier::external_type_specification]
pub struct ExRecursiveMode(notify::RecursiveMode);

/// The sending half of the channel that raw events are delivered to.
#[verifier::external_type_specification]
#[verifier::external_body]
#[verifier::reject_recursive_types(T)]
pub struct ExSender<T>(Sender<T>);

/// The requests handed to a watcher since its creation, in order: whether
/// the request adds or removes a registration, the path it names, and
/// whether it covers sub-directories.
pub uninterp spec fn requests(w: notify::RecommendedWatcher) -> Seq<(bool, Seq<char>, bool)>;

/// Relies on notify::recommended_watcher: creates the platform's watcher,
/// which from then on sends each raw event, or each error of its own, into a
/// clone of `events`. Whether the OS grants the watcher is not known ahead;
/// a new watcher has been asked for nothing yet.
#[verifier::external_body]
pub(crate) fn start_watcher(events: &Sender<notify::Result<notify::Event>>) -> (r: notify::Result<
    notify::RecommendedWatcher,
>)
    ensures
        r is Ok ==> requests(r->Ok_0) == Seq::<(bool, Seq<char>, bool)>::empty(),
{
    notify::recommended_watcher(events.clone())
}

/// Relies on notify's Watcher::watch: registers `path` with the watcher,
/// covering sub-directories or not as `mode` says: each call sends one add
/// request for `path` to the watcher's event loop.
#[verifier::external_body]
pub(crate) fn add_watch(
    watcher: &mut notify::RecommendedWatcher,
    path: &str,
    mode: notify::RecursiveMode,
) -> (r: notify::Result<()>)
    ensures
        requests(*final(watcher)) == requests(*old(watcher)).push(
            (true, path@, mode is Recursive),
        ),
{
    watcher.watch(std::path::Path::new(path), mode)
}

/// Relies on notify's Watcher::unwatch: removes the registration of `path`,
/// failing with `ErrorKind::WatchNotFound` where there is none: each call
/// sends one remove request for `path` to the watcher's event loop.
#[verifier::external_body]
pub(crate) fn remove_watch(watcher: &mut notify::RecommendedWatcher, path: &str) -> (r:
    notify::Result<()>)
    ensures
        requests(*final(watcher)) == requests(*old(watcher)).push((false, path@, false)),
{
    watcher.unwatch(std::path::Path::new(path))
}

} // verus!
