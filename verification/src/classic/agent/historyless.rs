//! An information set that keeps no history: it folds every round's
//! report directly into a running payoff.

use vstd::prelude::*;
use crate::classic::common::AsymmetricRewardTableInt;
use crate::classic::domain::{
    AsUsize, ClassicAction, ClassicGameError, ClassicGameUpdate, IntReward,
};
use crate::pairing::AgentNum;

verus! {

/// A numbered agent's information set that stores only its identity,
/// its reward table and its accumulated payoff.
#[derive(Copy, Clone, Debug)]
pub struct HistorylessInfoSet {
    id: AgentNum,
    reward_table: AsymmetricRewardTableInt,
    payoff: IntReward,
}

impl HistorylessInfoSet {
    /// The agent this information set belongs to.
    pub closed spec fn id_spec(&self) -> AgentNum {
        self.id
    }

    /// The reward table the payoff is judged by.
    pub closed spec fn table_spec(&self) -> AsymmetricRewardTableInt {
        self.reward_table
    }

    /// The payoff accumulated so far.
    pub closed spec fn payoff_spec(&self) -> IntReward {
        self.payoff
    }

    pub fn new(id: AgentNum, reward_table: AsymmetricRewardTableInt) -> (r: Self)
        ensures
            r.id_spec() == id,
            r.table_spec() == reward_table,
            r.payoff_spec() == 0,
    {
        Self { id, reward_table, payoff: 0 }
    }

    pub fn agent_id(&self) -> (r: &AgentNum)
        ensures
            *r == self.id_spec(),
    {
        &self.id
    }

    /// Every action of the closed action set is legal.
    pub fn is_action_valid(&self, _action: &ClassicAction) -> (r: bool)
        ensures
            r,
    {
        true
    }

    /// Folds the agent's report of a completed round into the payoff.
    /// Fails, leaving the payoff unchanged, when the update carries no
    /// report for this agent.
    pub fn update(&mut self, update: ClassicGameUpdate<AgentNum>) -> (r: Result<
        (),
        ClassicGameError<AgentNum>,
    >)
        requires
            ({
                let reports = update.encounters@;
                old(self).id_spec() < reports.len() ==> ({
                    let report = reports[old(self).id_spec() as int];
                    let reward = old(self).table_spec().reward_for_side_spec(
                        report.side,
                        report.left_action_spec(),
                        report.right_action_spec(),
                    );
                    i32::MIN <= old(self).payoff_spec() + reward <= i32::MAX
                })
            }),
        ensures
            final(self).id_spec() == old(self).id_spec(),
            final(self).table_spec() == old(self).table_spec(),
            r is Ok <==> old(self).id_spec() < update.encounters@.len(),
            old(self).id_spec() < update.encounters@.len() ==> ({
                let report = update.encounters@[old(self).id_spec() as int];
                final(self).payoff_spec() == old(self).payoff_spec() + old(
                    self,
                ).table_spec().reward_for_side_spec(
                    report.side,
                    report.left_action_spec(),
                    report.right_action_spec(),
                )
            }),
            old(self).id_spec() >= update.encounters@.len() ==> r == Err::<
                (),
                ClassicGameError<AgentNum>,
            >(ClassicGameError::EncounterNotReported(old(self).id_spec())) && final(self).payoff_spec()
                == old(self).payoff_spec(),
    {
        let idx = self.id.as_usize();
        if idx < update.encounters.len() {
            let report = update.encounters[idx];
            let reward = self.reward_table.reward_for_side(
                report.own_side(),
                report.left_action(),
                report.right_action(),
            );
            self.payoff = self.payoff + reward;
            Ok(())
        } else {
            Err(ClassicGameError::EncounterNotReported(self.id))
        }
    }

    /// The payoff accumulated so far.
    pub fn current_subjective_score(&self) -> (r: IntReward)
        ensures
            r == self.payoff_spec(),
    {
        self.payoff
    }

    /// The fixed sentinel payoff reported for an illegal action.
    pub fn penalty_for_illegal(&self) -> (r: IntReward)
        ensures
            r == -10,
    {
        -10
    }

    /// The two actions available to the agent, independent of history.
    pub fn available_actions(&self) -> (r: [ClassicAction; 2])
        ensures
            r@.len() == 2,
            r@[0] == ClassicAction::Cooperate,
            r@[1] == ClassicAction::Defect,
    {
        [ClassicAction::Cooperate, ClassicAction::Defect]
    }
}

} // verus!
