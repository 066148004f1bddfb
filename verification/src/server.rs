//! The request handling of the plain broker service: which requests are
//! refused, what is answered, and how the list of started processes
//! changes. Starting and terminating processes is left to the caller.

use crate::ipc::{RpcError, SpawnResponse, StopResponse};
use crate::managed::{Managed, ManagedList};
use crate::profile::Profile;
use vstd::prelude::*;

verus! {

/// The answer to a spawn request for profile `requested_id`, given the
/// process that was started for it, if any.
pub open spec fn spawn_answer(requested_id: u32, launched: Option<Managed>) -> SpawnResponse {
    match launched {
        Some(m) => SpawnResponse { error: false, id: m.conf.id, pid: m.conf.pid },
        None => SpawnResponse { error: true, id: requested_id, pid: 0 },
    }
}

/// The list after a spawn request: the started process, if any, is
/// recorded under its profile.
pub open spec fn spawn_list(before: Map<u32, Managed>, launched: Option<Managed>) -> Map<u32, Managed> {
    match launched {
        Some(m) => before.insert(m.conf.id, m),
        None => before,
    }
}

/// The profile a spawn request carries; a request without one is refused.
pub fn spawn_request(profile: Option<Profile>) -> (r: Result<Profile, RpcError>)
    ensures
        r == match profile {
            Some(p) => Ok(p),
            None => Err(RpcError::InvalidProfileData),
        },
{
    match profile {
        Some(p) => Ok(p),
        None => Err(RpcError::InvalidProfileData),
    }
}

/// Records the outcome of a spawn request for profile `requested_id`:
/// the started process, if any, is added to `list` (giving back the entry
/// it replaces), and the answer is returned.
pub fn record_spawn(list: &mut ManagedList, requested_id: u32, launched: Option<Managed>) -> (r: (
    SpawnResponse,
    Option<Managed>,
))
    ensures
        r.0 == spawn_answer(requested_id, launched),
        final(list)@ == spawn_list(old(list)@, launched),
        r.1 == (match launched {
            Some(m) => if old(list)@.contains_key(m.conf.id) {
                Some(old(list)@[m.conf.id])
            } else {
                None
            },
            None => None,
        }),
{
    match launched {
        Some(m) => {
            let answer = SpawnResponse { error: false, id: m.conf.id, pid: m.conf.pid };
            let replaced = list.add_profile(m);
            (answer, replaced)
        },
        None => (SpawnResponse { error: true, id: requested_id, pid: 0 }, None),
    }
}

/// The state kept by the plain broker service.
#[derive(Debug)]
pub struct Service {
    pub managed: ManagedList,
}

impl Service {
    /// A service with no started process.
    pub fn new() -> (s: Self)
        ensures
            s.managed@ == Map::<u32, Managed>::empty(),
    {
        Service { managed: ManagedList::new() }
    }

    /// Records the outcome of a spawn request (see [`record_spawn`]).
    pub fn spawn(&mut self, requested_id: u32, launched: Option<Managed>) -> (r: (SpawnResponse, Option<Managed>))
        ensures
            r.0 == spawn_answer(requested_id, launched),
            final(self).managed@ == spawn_list(old(self).managed@, launched),
            r.1 == (match launched {
                Some(m) => if old(self).managed@.contains_key(m.conf.id) {
                    Some(old(self).managed@[m.conf.id])
                } else {
                    None
                },
                None => None,
            }),
    {
        record_spawn(&mut self.managed, requested_id, launched)
    }

    /// The process handle a stop request for `id` is about; a request for a
    /// profile that was not started is refused.
    pub fn stop_target(&self, id: u32) -> (r: Result<isize, RpcError>)
        ensures
            r == (if self.managed@.contains_key(id) {
                Ok(self.managed@[id].h_process)
            } else {
                Err(RpcError::InvalidId)
            }),
    {
        match self.managed.get(id) {
            Some(m) => Ok(m.h_process),
            None => Err(RpcError::InvalidId),
        }
    }

    /// Records the outcome of a stop request for a started profile `id`:
    /// when the process was terminated its entry is removed (and given
    /// back) and the answer names `id`; otherwise nothing changes and the
    /// answer reports an error about no profile.
    pub fn stop(&mut self, id: u32, terminated: bool) -> (r: (StopResponse, Option<Managed>))
        requires
            old(self).managed@.contains_key(id),
        ensures
            terminated ==> r.0 == (StopResponse { error: false, id }),
            terminated ==> final(self).managed@ == old(self).managed@.remove(id),
            terminated ==> r.1 == Some(old(self).managed@[id]),
            !terminated ==> r.0 == (StopResponse { error: true, id: 0 }),
            !terminated ==> final(self).managed@ == old(self).managed@,
            !terminated ==> r.1 is None,
    {
        if !terminated {
            return (StopResponse { error: true, id: 0 }, None);
        }
        let removed = self.managed.remove(id);
        (StopResponse { error: false, id }, removed)
    }
}


/// A process recorded by a successful spawn is what a later stop request
/// for its profile targets.
pub proof fn lemma_spawned_is_stop_target(before: Map<u32, Managed>, m: Managed)
    ensures
        spawn_list(before, Some(m)).contains_key(m.conf.id),
        spawn_list(before, Some(m))[m.conf.id].h_process == m.h_process,
        spawn_answer(m.conf.id, Some(m)) == (SpawnResponse { error: false, id: m.conf.id, pid: m.conf.pid }),
{
}

/// A failed spawn leaves the list as it was and reports an error about
/// the requested profile.
pub proof fn lemma_failed_spawn_changes_nothing(before: Map<u32, Managed>, requested_id: u32)
    ensures
        spawn_list(before, None) == before,
        spawn_answer(requested_id, None) == (SpawnResponse { error: true, id: requested_id, pid: 0 }),
{
}

/// Once a profile's entry is removed by a stop, a further stop request for
/// it is refused, and the other entries stay.
pub proof fn lemma_removed_is_unknown(before: Map<u32, Managed>, id: u32)
    ensures
        !before.remove(id).contains_key(id),
        forall|k: u32| k != id && before.contains_key(k) ==> #[trigger] before.remove(id).contains_key(k)
            && before.remove(id)[k] == before[k],
{
}

/// A successful spawn records the started process under its profile and
/// keeps every other recorded process with its entry; only an earlier entry
/// of the same profile is replaced.
pub proof fn lemma_spawn_keeps_other_entries(before: Map<u32, Managed>, m: Managed)
    ensures
        spawn_list(before, Some(m)).contains_key(m.conf.id),
        spawn_list(before, Some(m))[m.conf.id] == m,
        forall|k: u32| k != m.conf.id ==> (#[trigger] spawn_list(before, Some(m)).contains_key(k) <==> before.contains_key(k)),
        forall|k: u32| k != m.conf.id && before.contains_key(k) ==> #[trigger] spawn_list(before, Some(m))[k] == before[k],
{
}

} // verus!
