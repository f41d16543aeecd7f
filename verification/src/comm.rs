//! Registry half of the communication port that connects the scheduler
//! to its agents.  The port hands out one bidirectional channel pair per
//! agent; the registry decides registration, so that each agent can be
//! registered at most once, while the channel endpoints themselves are
//! created by the embedding runtime.

use vstd::prelude::*;
use crate::classic::domain::{AsUsize, ClassicGameError, UsizeAgentId};

verus! {

/// Tracks which of the `n` agents of a scheduler instance have already
/// registered with the communication port.
#[derive(Clone, Debug)]
pub struct CommPort {
    registered: Vec<bool>,
}

impl CommPort {
    /// Which agent indices have registered.
    pub closed spec fn registered_spec(&self) -> Seq<bool> {
        self.registered@
    }

    /// How many agents the port was created for.
    pub open spec fn capacity_spec(&self) -> int {
        self.registered_spec().len() as int
    }

    /// A port for `players` agents, with nobody registered yet.
    pub fn new(players: usize) -> (r: Self)
        ensures
            r.capacity_spec() == players,
            forall|i: int|
                #![trigger r.registered_spec()[i]]
                0 <= i < players ==> !r.registered_spec()[i],
    {
        let mut registered: Vec<bool> = Vec::new();
        let mut i: usize = 0;
        while i < players
            invariant
                i <= players,
                registered@.len() == i,
                forall|q: int| #![trigger registered@[q]] 0 <= q < i ==> !registered@[q],
            decreases players - i,
        {
            registered.push(false);
            assert(!registered@[i as int]);
            i += 1;
        }
        Self { registered }
    }

    /// Whether `id` has registered already.
    pub fn is_registered<ID: UsizeAgentId>(&self, id: &ID) -> (r: bool)
        requires
            0 <= id.index_spec() < self.capacity_spec(),
        ensures
            r == self.registered_spec()[id.index_spec()],
    {
        self.registered[id.as_usize()]
    }

    /// Registers `id` with the port.  Fails with the duplicate-
    /// registration condition, changing nothing, when `id` has
    /// registered before; the embedding runtime creates the channel
    /// pair only on success.
    pub fn register_agent<ID: UsizeAgentId>(&mut self, id: ID) -> (r: Result<
        (),
        ClassicGameError<ID>,
    >)
        requires
            0 <= id.index_spec() < old(self).capacity_spec(),
        ensures
            final(self).capacity_spec() == old(self).capacity_spec(),
            r is Ok <==> !old(self).registered_spec()[id.index_spec()],
            old(self).registered_spec()[id.index_spec()] ==> r == Err::<(), ClassicGameError<ID>>(
                ClassicGameError::DuplicateAgentRegistration(id),
            ) && *final(self) == *old(self),
            !old(self).registered_spec()[id.index_spec()] ==> final(self).registered_spec()
                == old(self).registered_spec().update(id.index_spec(), true),
    {
        let idx = id.as_usize();
        if self.registered[idx] {
            Err(ClassicGameError::DuplicateAgentRegistration(id))
        } else {
            self.registered.set(idx, true);
            Ok(())
        }
    }
}

} // verus!
