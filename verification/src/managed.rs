//! The processes a broker service has started, keyed by profile.

use crate::profile::Profile;
use std::collections::HashMap;
use vstd::prelude::*;

verus! {

broadcast use vstd::std_specs::hash::group_hash_axioms;

/// Profile with states associated to it.
#[derive(Debug)]
pub struct Managed {
    /// The profile data
    pub conf: Profile,
    /// Handle to the process
    pub h_process: isize,
    /// Handle to the main thread of the process
    pub h_thread: isize,
}

impl Managed {
    pub fn new(conf: Profile, h_process: isize, h_thread: isize) -> (m: Self)
        ensures
            m.conf == conf,
            m.h_process == h_process,
            m.h_thread == h_thread,
    {
        Managed { conf, h_process, h_thread }
    }
}

/// State list holding profile data (server side): the started processes,
/// keyed by the identifier of their profile.
#[derive(Debug)]
pub struct ManagedList {
    entries: HashMap<u32, Managed>,
}

impl View for ManagedList {
    type V = Map<u32, Managed>;

    closed spec fn view(&self) -> Map<u32, Managed> {
        self.entries@
    }
}

impl ManagedList {
    /// An empty list.
    pub fn new() -> (l: Self)
        ensures
            l@ == Map::<u32, Managed>::empty(),
    {
        ManagedList { entries: HashMap::new() }
    }

    /// Records `profile` under the identifier of its profile, and gives back
    /// the entry it replaces, if any.
    pub fn add_profile(&mut self, profile: Managed) -> (replaced: Option<Managed>)
        ensures
            final(self)@ == old(self)@.insert(profile.conf.id, profile),
            replaced == (if old(self)@.contains_key(profile.conf.id) {
                Some(old(self)@[profile.conf.id])
            } else {
                None
            }),
    {
        let id = profile.conf.id;
        self.entries.insert(id, profile)
    }

    /// The entry recorded for `id`, if any.
    pub fn get(&self, id: u32) -> (m: Option<&Managed>)
        ensures
            m == (if self@.contains_key(id) { Some(&self@[id]) } else { None }),
    {
        self.entries.get(&id)
    }

    /// Removes the entry recorded for `id` and gives it back, if any.
    pub fn remove(&mut self, id: u32) -> (m: Option<Managed>)
        ensures
            final(self)@ == old(self)@.remove(id),
            m == (if old(self)@.contains_key(id) { Some(old(self)@[id]) } else { None }),
    {
        self.entries.remove(&id)
    }

    /// Number of recorded entries.
    pub fn len(&self) -> (n: usize)
        ensures
            n == self@.len(),
    {
        self.entries.len()
    }
}


/// What the system reports about a newly created process.
#[derive(Clone, Copy, Debug, PartialEq, Eq, Structural)]
pub struct ProcessInfo {
    pub pid: u32,
    pub h_process: isize,
    pub h_thread: isize,
}

/// The entry recorded for a process started from `profile`: the profile
/// with the process ID set, and the process's handles.
pub open spec fn launched_spec(profile: Profile, info: ProcessInfo) -> Managed {
    Managed { conf: Profile { pid: info.pid, ..profile }, h_process: info.h_process, h_thread: info.h_thread }
}

/// The entry to record for a process started from `profile`.
pub fn launched(profile: Profile, info: ProcessInfo) -> (m: Managed)
    ensures
        m == launched_spec(profile, info),
{
    let mut conf = profile;
    conf.pid = info.pid;
    Managed::new(conf, info.h_process, info.h_thread)
}

} // verus!
