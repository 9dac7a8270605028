//! The startup file mailbox: a single slot that hands the file named at
//! launch to the UI exactly once.

use vstd::prelude::*;

use crate::launch::{candidate_path, requested_file};

verus! {

/// A single-slot, take-once holder of the startup file path.
pub enum StartupFileMailbox {
    /// Nothing is pending: no file was given, or it was already taken.
    Empty,
    /// A path waits for the UI to take it.
    Pending(String),
}

impl StartupFileMailbox {
    /// What the slot holds.
    pub open spec fn contents(&self) -> Option<String> {
        match self {
            StartupFileMailbox::Empty => None,
            StartupFileMailbox::Pending(p) => Some(*p),
        }
    }

    /// The result of a take on this mailbox, and the mailbox left behind.
    pub open spec fn taken(self) -> (Option<String>, StartupFileMailbox) {
        (self.contents(), StartupFileMailbox::Empty)
    }

    /// An empty mailbox.
    pub fn new() -> (r: Self)
        ensures
            r.contents() is None,
    {
        StartupFileMailbox::Empty
    }

    /// The mailbox as process setup leaves it for a launch with `args`:
    /// pending with the candidate path, or empty when there is none.
    pub fn from_launch_args(args: &Vec<String>) -> (r: Self)
        ensures
            r.contents() == requested_file(args@),
    {
        let mut mailbox = StartupFileMailbox::new();
        if let Some(path) = candidate_path(args) {
            mailbox.set_once(path);
        }
        mailbox
    }

    /// Places `path` in the slot, replacing whatever was there.
    pub fn set_once(&mut self, path: String)
        ensures
            final(self).contents() == Some(path),
    {
        *self = StartupFileMailbox::Pending(path);
    }

    /// Takes the pending path out of the slot, leaving it empty.
    pub fn take(&mut self) -> (r: Option<String>)
        ensures
            (r, *final(self)) == old(self).taken(),
    {
        let mut current = StartupFileMailbox::Empty;
        std::mem::swap(self, &mut current);
        match current {
            StartupFileMailbox::Empty => None,
            StartupFileMailbox::Pending(p) => Some(p),
        }
    }
}

/// Delivery is exactly once: a take returns what was pending, and a second
/// take right after it returns nothing.
pub proof fn lemma_take_exactly_once(m: StartupFileMailbox)
    ensures
        m.taken().0 == m.contents(),
        m.taken().1.taken().0 is None,
{
}

} // verus!
