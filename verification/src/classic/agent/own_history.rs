//! An information set that remembers the agent's own encounter history
//! and judges it by an asymmetric reward table.

use vstd::prelude::*;
use crate::classic::common::AsymmetricRewardTableInt;
use crate::classic::domain::{
    AsUsize, ClassicAction, ClassicGameError, ClassicGameUpdate, EncounterReport, UsizeAgentId,
};
use crate::pairing::AgentNum;

verus! {

/// The agent's total subjective payoff over its encounter history,
/// each encounter judged from its own side.
pub open spec fn encounter_sum<ID: UsizeAgentId>(
    h: Seq<EncounterReport<ID>>,
    t: AsymmetricRewardTableInt,
) -> int
    decreases h.len(),
{
    if h.len() == 0 {
        0
    } else {
        encounter_sum(h.drop_last(), t) + h.last().calculate_reward_spec(t)
    }
}

/// An agent's information set holding its identity, its own encounter
/// history and the reward table it judges the history by.
#[derive(Clone, Debug)]
pub struct OwnHistoryInfoSet<ID: UsizeAgentId> {
    id: ID,
    previous_encounters: Vec<EncounterReport<ID>>,
    reward_table: AsymmetricRewardTableInt,
}

/// The history-keeping information set of a numbered agent.
pub type OwnHistoryInfoSetNumbered = OwnHistoryInfoSet<AgentNum>;

impl<ID: UsizeAgentId> OwnHistoryInfoSet<ID> {
    /// The agent this information set belongs to.
    pub closed spec fn id_spec(&self) -> ID {
        self.id
    }

    /// The observed encounters, oldest first.
    pub closed spec fn history_spec(&self) -> Seq<EncounterReport<ID>> {
        self.previous_encounters@
    }

    /// The reward table the history is judged by.
    pub closed spec fn table_spec(&self) -> AsymmetricRewardTableInt {
        self.reward_table
    }

    pub fn new(id: ID, reward_table: AsymmetricRewardTableInt) -> (r: Self)
        ensures
            r.id_spec() == id,
            r.table_spec() == reward_table,
            r.history_spec().len() == 0,
    {
        Self { id, reward_table, previous_encounters: Vec::new() }
    }

    /// Forgets the whole history.
    pub fn reset(&mut self)
        ensures
            final(self).id_spec() == old(self).id_spec(),
            final(self).table_spec() == old(self).table_spec(),
            final(self).history_spec().len() == 0,
    {
        self.previous_encounters = Vec::new();
    }

    pub fn agent_id(&self) -> (r: &ID)
        ensures
            *r == self.id_spec(),
    {
        &self.id
    }

    /// Every action of the closed action set is legal.
    pub fn is_action_valid(&self, _action: &ClassicAction) -> (r: bool)
        ensures
            r,
    {
        true
    }

    /// Appends this agent's report out of a completed round's update to
    /// the history; never fails for an update that carries one report
    /// per agent.
    pub fn update(&mut self, update: ClassicGameUpdate<ID>) -> (r: Result<
        (),
        ClassicGameError<ID>,
    >)
        requires
            0 <= old(self).id_spec().index_spec() < update.encounters@.len(),
        ensures
            r is Ok,
            final(self).id_spec() == old(self).id_spec(),
            final(self).table_spec() == old(self).table_spec(),
            final(self).history_spec() == old(self).history_spec().push(
                update.encounters@[old(self).id_spec().index_spec()],
            ),
    {
        let report = update.encounters[self.id.as_usize()];
        self.previous_encounters.push(report);
        Ok(())
    }

    /// The agent's cumulative subjective payoff: each remembered
    /// encounter judged from the agent's own side, summed up.
    #[verifier::loop_isolation(false)]
    pub fn current_subjective_score(&self) -> (r: i32)
        requires
            self.history_spec().len() <= 0x8000_0000,
            i32::MIN <= encounter_sum(self.history_spec(), self.table_spec()) <= i32::MAX,
        ensures
            r == encounter_sum(self.history_spec(), self.table_spec()),
    {
        let ghost h = self.history_spec();
        let mut acc: i64 = 0;
        let mut i: usize = 0;
        while i < self.previous_encounters.len()
            invariant
                i <= h.len(),
                acc == encounter_sum(h.subrange(0, i as int), self.table_spec()),
                -(i as int * 0x8000_0000) <= acc <= i as int * 0x8000_0000,
            decreases h.len() - i,
        {
            proof {
                assert(h.subrange(0, i + 1).drop_last() =~= h.subrange(0, i as int));
                assert(h.subrange(0, i + 1).last() == h[i as int]);
            }
            let entry = self.previous_encounters[i];
            let step = entry.calculate_reward(&self.reward_table);
            acc = acc + step as i64;
            i += 1;
        }
        proof {
            assert(h.subrange(0, h.len() as int) =~= h);
        }
        acc as i32
    }

    /// The fixed sentinel payoff reported for an illegal action.
    pub fn penalty_for_illegal(&self) -> (r: i32)
        ensures
            r == -100,
    {
        -100
    }

    /// The two actions available to the agent, independent of history.
    pub fn available_actions(&self) -> (r: [ClassicAction; 2])
        ensures
            r@.len() == 2,
            r@[0] == ClassicAction::Cooperate,
            r@[1] == ClassicAction::Defect,
    {
        [ClassicAction::Cooperate, ClassicAction::Defect]
    }

    /// Forgets the whole history, keeping identity and table.
    pub fn renew_from(&mut self, _base: ())
        ensures
            final(self).id_spec() == old(self).id_spec(),
            final(self).table_spec() == old(self).table_spec(),
            final(self).history_spec().len() == 0,
    {
        self.previous_encounters = Vec::new();
    }
}

/// The fixed tensor layout of an agent's own-history information set:
/// two rows of one entry per remembered round.
#[derive(Copy, Clone, Debug, Default)]
pub struct OwnHistoryTensorRepr {
    number_of_rounds: usize,
    shape: [i64; 2],
}

impl OwnHistoryTensorRepr {
    /// How many rounds the layout has room for.
    pub closed spec fn rounds_spec(&self) -> int {
        self.number_of_rounds as int
    }

    /// The layout's shape.
    pub closed spec fn shape_spec(&self) -> Seq<i64> {
        self.shape@
    }

    pub fn new(number_of_rounds: usize) -> (r: Self)
        requires
            number_of_rounds <= i64::MAX,
        ensures
            r.rounds_spec() == number_of_rounds,
            r.shape_spec() =~= seq![2i64, number_of_rounds as i64],
    {
        Self { number_of_rounds, shape: [2, number_of_rounds as i64] }
    }

    pub fn shape(&self) -> (r: &[i64])
        ensures
            r@ == self.shape_spec(),
    {
        self.shape.as_slice()
    }

    /// The layout's shape, as handed to the tensor subsystem.
    pub fn desired_shape(&self) -> (r: &[i64])
        ensures
            r@ == self.shape_spec(),
    {
        self.shape()
    }
}

} // verus!
