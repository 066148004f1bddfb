//! The request handling of the sandbox broker, which answers stop
//! requests differently from the plain service: the entry goes away
//! whether or not the process could be terminated.

use crate::ipc::{RpcError, SpawnResponse, StopResponse};
use crate::managed::{Managed, ManagedList};
use crate::server::{record_spawn, spawn_answer, spawn_list};
use vstd::prelude::*;

verus! {

/// The state kept by the sandbox broker.
#[derive(Debug)]
pub struct Service {
    pub managed: ManagedList,
}

impl Service {
    /// A broker with no started process.
    pub fn new() -> (s: Self)
        ensures
            s.managed@ == Map::<u32, Managed>::empty(),
    {
        Service { managed: ManagedList::new() }
    }

    /// Records the outcome of a spawn request (see [`record_spawn`]).
    pub fn spawn(&mut self, requested_id: u32, launched: Option<Managed>) -> (r: (SpawnResponse, Option<Managed>))
        ensures
            r.0 == spawn_answer(requested_id, launched),
            final(self).managed@ == spawn_list(old(self).managed@, launched),
            r.1 == (match launched {
                Some(m) => if old(self).managed@.contains_key(m.conf.id) {
                    Some(old(self).managed@[m.conf.id])
                } else {
                    None
                },
                None => None,
            }),
    {
        record_spawn(&mut self.managed, requested_id, launched)
    }

    /// The process handle a stop request for `id` is about; a request for a
    /// profile that was not started is refused.
    pub fn stop_target(&self, id: u32) -> (r: Result<isize, RpcError>)
        ensures
            r == (if self.managed@.contains_key(id) {
                Ok(self.managed@[id].h_process)
            } else {
                Err(RpcError::InvalidId)
            }),
    {
        match self.managed.get(id) {
            Some(m) => Ok(m.h_process),
            None => Err(RpcError::InvalidId),
        }
    }

    /// Records the outcome of a stop request for a started profile `id`:
    /// its entry is removed (and given back) in any case, and the answer
    /// names `id` and reports whether termination failed.
    pub fn stop(&mut self, id: u32, terminated: bool) -> (r: (StopResponse, Option<Managed>))
        requires
            old(self).managed@.contains_key(id),
        ensures
            r.0 == (StopResponse { error: !terminated, id }),
            final(self).managed@ == old(self).managed@.remove(id),
            r.1 == Some(old(self).managed@[id]),
    {
        let removed = self.managed.remove(id);
        (StopResponse { error: !terminated, id }, removed)
    }
}

} // verus!
