//! The watch registry: one lazily created OS watcher for the whole process,
//! shared by every watched path.

use vstd::prelude::*;

use crate::os_watch::{add_watch, remove_watch, requests, start_watcher};
use std::sync::mpsc::Sender;

verus! {

/// Why a watch operation failed.
pub enum WatchError {
    /// The shared OS watcher could not be created.
    WatcherInit(String),
    /// The path could not be registered; the watcher stays usable.
    WatchAdd(String),
    /// The OS failed to remove a registration that it held.
    WatchRemove(String),
}

/// The shared OS watcher: not yet created, or live for the rest of the
/// process.
pub enum WatchHandle {
    Uninitialized,
    Active(notify::RecommendedWatcher),
}

/// The registry in the abstract.
pub struct RegistryView {
    /// Whether the OS watcher exists.
    pub active: bool,
    /// How many OS watchers this registry has created.
    pub created: nat,
    /// The paths registered through this registry and not removed since.
    pub watched: Set<Seq<char>>,
    /// The requests handed to the OS watcher, in order: add or remove, the
    /// path, and whether sub-directories are covered. Empty without a
    /// watcher.
    pub requests: Seq<(bool, Seq<char>, bool)>,
}

/// The request that `watch(path)` hands to the OS watcher.
pub open spec fn add_request(path: Seq<char>) -> (bool, Seq<char>, bool) {
    (true, path, false)
}

/// The request that `unwatch(path)` hands to the OS watcher.
pub open spec fn remove_request(path: Seq<char>) -> (bool, Seq<char>, bool) {
    (false, path, false)
}

impl RegistryView {
    /// A watcher exists exactly when one was created, and never more than one.
    pub open spec fn wf(self) -> bool {
        &&& self.created <= 1
        &&& self.active <==> self.created == 1
        &&& !self.active ==> self.requests.len() == 0
    }

    /// The number of watchers created once a watcher is known to exist.
    pub open spec fn created_when_active(self) -> nat {
        if self.active {
            self.created
        } else {
            self.created + 1
        }
    }

    /// Whether `watch` can come back with `r` from this state: creation can
    /// only fail while no watcher exists, and a removal error never comes.
    pub open spec fn watch_outcome_possible(self, r: Result<(), WatchError>) -> bool {
        match r {
            Ok(()) => true,
            Err(WatchError::WatcherInit(_)) => !self.active,
            Err(WatchError::WatchAdd(_)) => true,
            Err(WatchError::WatchRemove(_)) => false,
        }
    }

    /// The state after `watch(path)` came back with `r`.
    pub open spec fn after_watch(self, path: Seq<char>, r: Result<(), WatchError>) -> RegistryView {
        match r {
            Ok(()) => RegistryView {
                active: true,
                created: self.created_when_active(),
                watched: self.watched.insert(path),
                requests: self.requests.push(add_request(path)),
            },
            Err(WatchError::WatchAdd(_)) => RegistryView {
                active: true,
                created: self.created_when_active(),
                watched: self.watched,
                requests: self.requests.push(add_request(path)),
            },
            Err(_) => self,
        }
    }

    /// Whether `unwatch` can come back with `r` from this state: without a
    /// watcher it always succeeds, and only a removal error can come.
    pub open spec fn unwatch_outcome_possible(self, r: Result<(), WatchError>) -> bool {
        match r {
            Ok(()) => true,
            Err(WatchError::WatchRemove(_)) => self.active,
            Err(_) => false,
        }
    }

    /// The state after `unwatch(path)` came back with `r`: with a watcher,
    /// the removal was asked of it whatever it answered.
    pub open spec fn after_unwatch(self, path: Seq<char>, r: Result<(), WatchError>) -> RegistryView {
        RegistryView {
            watched: if r is Ok {
                self.watched.remove(path)
            } else {
                self.watched
            },
            requests: if self.active {
                self.requests.push(remove_request(path))
            } else {
                self.requests
            },
            ..self
        }
    }
}

/// The registry's answer to the OS watcher's answer on registering a path:
/// any refusal is a registration error.
pub fn registration_result(res: notify::Result<()>) -> (r: Result<(), WatchError>)
    ensures
        r is Ok <==> res is Ok,
        r is Err ==> r->Err_0 is WatchAdd,
{
    match res {
        Ok(()) => Ok(()),
        Err(e) => Err(WatchError::WatchAdd(e.to_string())),
    }
}

/// Whether the OS watcher's answer on removing a path says that the path had
/// no registration.
pub open spec fn missing_registration(res: notify::Result<()>) -> bool {
    match res {
        Ok(()) => false,
        Err(e) => e.kind is WatchNotFound,
    }
}

/// The registry's answer to the OS watcher's answer on removing a path: a
/// missing registration is no error, any other failure is a removal error.
pub fn removal_result(res: notify::Result<()>) -> (r: Result<(), WatchError>)
    ensures
        r is Ok <==> (res is Ok || missing_registration(res)),
        r is Err ==> r->Err_0 is WatchRemove,
{
    match res {
        Ok(()) => Ok(()),
        Err(e) => match e.kind {
            notify::ErrorKind::WatchNotFound => Ok(()),
            _ => Err(WatchError::WatchRemove(e.to_string())),
        },
    }
}

/// Process-wide, lazily initialised, multiplexed file watching. Callers
/// share it behind a lock; every operation takes it exclusively.
pub struct WatchRegistry {
    handle: WatchHandle,
    events: Sender<notify::Result<notify::Event>>,
    created: Ghost<nat>,
    watched: Ghost<Set<Seq<char>>>,
}

impl View for WatchRegistry {
    type V = RegistryView;

    closed spec fn view(&self) -> RegistryView {
        RegistryView {
            active: self.handle is Active,
            created: self.created@,
            watched: self.watched@,
            requests: match self.handle {
                WatchHandle::Uninitialized => Seq::empty(),
                WatchHandle::Active(w) => requests(w),
            },
        }
    }
}

impl WatchRegistry {
    /// A registry with no watcher yet; the watcher, once created, delivers
    /// raw events into `events`.
    pub fn new(events: Sender<notify::Result<notify::Event>>) -> (r: Self)
        ensures
            r@.wf(),
            !r@.active,
            r@.created == 0,
            r@.watched.is_empty(),
            r@.requests.len() == 0,
    {
        WatchRegistry {
            handle: WatchHandle::Uninitialized,
            events,
            created: Ghost(0),
            watched: Ghost(Set::empty()),
        }
    }

    /// Whether the shared OS watcher exists.
    pub fn is_active(&self) -> (r: bool)
        ensures
            r == self@.active,
    {
        match self.handle {
            WatchHandle::Uninitialized => false,
            WatchHandle::Active(_) => true,
        }
    }

    /// Registers `path` for non-recursive watching, creating the shared
    /// watcher first if it does not exist yet.
    pub fn watch(&mut self, path: &str) -> (r: Result<(), WatchError>)
        requires
            old(self)@.wf(),
        ensures
            final(self)@.wf(),
            old(self)@.watch_outcome_possible(r),
            final(self)@ == old(self)@.after_watch(path@, r),
    {
        if let WatchHandle::Uninitialized = self.handle {
            match start_watcher(&self.events) {
                Ok(w) => {
                    self.handle = WatchHandle::Active(w);
                    self.created = Ghost(self.created@ + 1);
                },
                Err(e) => {
                    return Err(WatchError::WatcherInit(e.to_string()));
                },
            }
        }
        match &mut self.handle {
            WatchHandle::Active(w) => {
                let r = registration_result(
                    add_watch(w, path, notify::RecursiveMode::NonRecursive),
                );
                if r.is_ok() {
                    self.watched = Ghost(self.watched@.insert(path@));
                }
                r
            },
            WatchHandle::Uninitialized => {
                // the watcher was created above or the call has returned
                proof {
                    assert(false);
                }
                Ok(())
            },
        }
    }

    /// Asks the OS watcher to remove the registration of `path`. Without a
    /// watcher there is nothing to ask and that is no error; the OS
    /// watcher's answer goes through `removal_result`, so that a missing
    /// registration is no error either.
    pub fn unwatch(&mut self, path: &str) -> (r: Result<(), WatchError>)
        requires
            old(self)@.wf(),
        ensures
            final(self)@.wf(),
            old(self)@.unwatch_outcome_possible(r),
            final(self)@ == old(self)@.after_unwatch(path@, r),
    {
        let r = match &mut self.handle {
            WatchHandle::Uninitialized => Ok(()),
            WatchHandle::Active(w) => removal_result(remove_watch(w, path)),
        };
        if r.is_ok() {
            self.watched = Ghost(self.watched@.remove(path@));
        }
        r
    }
}

/// The state after a run of `watch` calls, each a path and what the call
/// came back with, in order.
pub open spec fn after_watches(
    v: RegistryView,
    calls: Seq<(Seq<char>, Result<(), WatchError>)>,
) -> RegistryView
    decreases calls.len(),
{
    if calls.len() == 0 {
        v
    } else {
        after_watches(v, calls.drop_last()).after_watch(calls.last().0, calls.last().1)
    }
}

/// However many `watch` calls come, and whatever each returns, at most one OS
/// watcher is ever created, and none once one exists.
pub proof fn lemma_single_watcher(v: RegistryView, calls: Seq<(Seq<char>, Result<(), WatchError>)>)
    requires
        v.wf(),
    ensures
        after_watches(v, calls).wf(),
        after_watches(v, calls).created <= 1,
        v.active ==> after_watches(v, calls).created == v.created,
    decreases calls.len(),
{
    if calls.len() > 0 {
        lemma_single_watcher(v, calls.drop_last());
    }
}

/// Two paths watched one after the other, in either order, are both
/// registered with the one shared watcher, and each can be removed without
/// touching the other.
pub proof fn lemma_independent_paths(v: RegistryView, a: Seq<char>, b: Seq<char>)
    requires
        v.wf(),
        a != b,
    ensures
        ({
            let ab = v.after_watch(a, Ok(())).after_watch(b, Ok(()));
            let ba = v.after_watch(b, Ok(())).after_watch(a, Ok(()));
            &&& ab.watched == ba.watched
            &&& ab.wf()
            &&& ab.active
            &&& ab.watched.contains(a)
            &&& ab.watched.contains(b)
            &&& ab.after_unwatch(a, Ok(())).watched.contains(b)
            &&& !ab.after_unwatch(a, Ok(())).watched.contains(a)
            &&& ab.after_unwatch(b, Ok(())).watched.contains(a)
            &&& !ab.after_unwatch(b, Ok(())).watched.contains(b)
        }),
{
    let ab = v.after_watch(a, Ok(())).after_watch(b, Ok(()));
    let ba = v.after_watch(b, Ok(())).after_watch(a, Ok(()));
    assert(ab.watched =~= ba.watched);
}

} // verus!
