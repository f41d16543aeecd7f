//! The two-player sequential environment: both prisoners act once per
//! round, the round resolves as soon as the second action arrives, and
//! play stops after a configured number of rounds.

use vstd::prelude::*;
use vstd::arithmetic::mul::lemma_mul_inequality;
use crate::prisoner::common::RewardTable;
use crate::prisoner::domain::{
    PrisonerAction, PrisonerError, PrisonerId, PrisonerMap, PrisonerReward, PrisonerUpdate,
};

verus! {

/// The magnitude of a prisoner payoff, as a mathematical integer.
pub open spec fn abs_payoff(x: PrisonerReward) -> int {
    if x >= 0 {
        x as int
    } else {
        -(x as int)
    }
}

/// The largest payoff magnitude the prisoner table can grant.
pub open spec fn prisoner_reward_bound(t: RewardTable) -> int {
    let a = abs_payoff(t.cover_v_cover);
    let b = abs_payoff(t.cover_v_betray);
    let c = abs_payoff(t.betray_v_cover);
    let d = abs_payoff(t.betray_v_betray);
    let ab = if a >= b {
        a
    } else {
        b
    };
    let cd = if c >= d {
        c
    } else {
        d
    };
    if ab >= cd {
        ab
    } else {
        cd
    }
}

/// The total payoff `agent` has earned over the archived rounds.
pub open spec fn prisoner_score_fold(
    h: Seq<PrisonerMap<PrisonerAction>>,
    t: RewardTable,
    agent: PrisonerId,
) -> int
    decreases h.len(),
{
    if h.len() == 0 {
        0
    } else {
        prisoner_score_fold(h.drop_last(), t, agent) + t.reward_spec(
            h.last().spec_index(agent),
            h.last().spec_index(agent.spec_other()),
        )
    }
}

/// The two-player environment's state: the archived rounds, the two
/// pending actions of the current round, the payoff table and the
/// configured number of rounds.
#[derive(Clone, Debug)]
pub struct PrisonerEnvState {
    previous_actions: Vec<PrisonerMap<PrisonerAction>>,
    last_round_actions: PrisonerMap<Option<PrisonerAction>>,
    reward_table: RewardTable,
    target_rounds: usize,
}

impl PrisonerEnvState {
    /// The archived rounds, oldest first.
    pub closed spec fn history_spec(&self) -> Seq<PrisonerMap<PrisonerAction>> {
        self.previous_actions@
    }

    /// The actions received so far in the current round.
    pub closed spec fn last_spec(&self) -> PrisonerMap<Option<PrisonerAction>> {
        self.last_round_actions
    }

    /// The payoff table.
    pub closed spec fn table_spec(&self) -> RewardTable {
        self.reward_table
    }

    /// The configured number of rounds.
    pub closed spec fn target_spec(&self) -> int {
        self.target_rounds as int
    }

    /// Whether the configured number of rounds has completed.
    pub open spec fn is_finished_spec(&self) -> bool {
        self.history_spec().len() >= self.target_spec()
    }

    /// The environment's invariant: no more rounds archived than
    /// configured, and payoffs small enough that no score sum overflows.
    pub open spec fn wf(&self) -> bool {
        &&& self.history_spec().len() <= self.target_spec()
        &&& self.target_spec() * prisoner_reward_bound(self.table_spec()) <= i32::MAX
    }

    pub fn new(reward_table: RewardTable, number_of_rounds: usize) -> (r: Self)
        requires
            number_of_rounds * prisoner_reward_bound(reward_table) <= i32::MAX,
        ensures
            r.wf(),
            r.history_spec().len() == 0,
            r.last_spec().spec_index(PrisonerId::Andrzej) is None,
            r.last_spec().spec_index(PrisonerId::Janusz) is None,
            r.table_spec() == reward_table,
            r.target_spec() == number_of_rounds,
    {
        Self {
            previous_actions: Vec::new(),
            last_round_actions: PrisonerMap::new(None, None),
            reward_table,
            target_rounds: number_of_rounds,
        }
    }

    /// The player expected to act next: Andrzej first, then Janusz;
    /// `None` once the game is over.
    pub fn current_player(&self) -> (r: Option<PrisonerId>)
        ensures
            self.is_finished_spec() ==> r is None,
            !self.is_finished_spec() && self.last_spec().spec_index(PrisonerId::Andrzej) is None
                ==> r == Some(PrisonerId::Andrzej),
            !self.is_finished_spec() && self.last_spec().spec_index(PrisonerId::Andrzej) is Some
                && self.last_spec().spec_index(PrisonerId::Janusz) is None ==> r == Some(
                PrisonerId::Janusz,
            ),
            !self.is_finished_spec() && self.last_spec().spec_index(PrisonerId::Andrzej) is Some
                && self.last_spec().spec_index(PrisonerId::Janusz) is Some ==> r is None,
    {
        if self.previous_actions.len() >= self.target_rounds {
            None
        } else if self.last_round_actions.index(PrisonerId::Andrzej).is_none() {
            Some(PrisonerId::Andrzej)
        } else if self.last_round_actions.index(PrisonerId::Janusz).is_none() {
            Some(PrisonerId::Janusz)
        } else {
            None
        }
    }

    /// Whether the configured number of rounds has completed.
    pub fn is_finished(&self) -> (r: bool)
        ensures
            r == self.is_finished_spec(),
    {
        self.previous_actions.len() >= self.target_rounds
    }

    /// Accepts one action from `agent`.  Fails with the after-game-over
    /// condition once the configured rounds have completed, and with the
    /// order-violation condition when `agent` has already acted this
    /// round; both failures leave the state unchanged.  The first action
    /// of a round is stored and returns an empty update batch; the
    /// second resolves the round, archives it, clears the pending
    /// actions and hands each player its update.
    pub fn forward(&mut self, agent: PrisonerId, action: PrisonerAction) -> (r: Result<
        Vec<(PrisonerId, PrisonerUpdate)>,
        PrisonerError,
    >)
        requires
            old(self).wf(),
        ensures
            final(self).wf(),
            final(self).table_spec() == old(self).table_spec(),
            final(self).target_spec() == old(self).target_spec(),
            r is Ok <==> (!old(self).is_finished_spec() && old(self).last_spec().spec_index(agent)
                is None),
            old(self).is_finished_spec() ==> r == Err::<
                Vec<(PrisonerId, PrisonerUpdate)>,
                PrisonerError,
            >(PrisonerError::ActionAfterGameOver(agent)) && *final(self) == *old(self),
            (!old(self).is_finished_spec() && old(self).last_spec().spec_index(agent) is Some)
                ==> r == Err::<Vec<(PrisonerId, PrisonerUpdate)>, PrisonerError>(
                PrisonerError::ActionOutOfOrder(agent),
            ) && *final(self) == *old(self),
            (!old(self).is_finished_spec() && old(self).last_spec().spec_index(agent) is None
                && old(self).last_spec().spec_index(agent.spec_other()) is None) ==> {
                &&& r matches Ok(u) && u@.len() == 0
                &&& final(self).history_spec() == old(self).history_spec()
                &&& final(self).last_spec().spec_index(agent) == Some(action)
                &&& final(self).last_spec().spec_index(agent.spec_other()) is None
            },
            (!old(self).is_finished_spec() && old(self).last_spec().spec_index(agent) is None
                && old(self).last_spec().spec_index(agent.spec_other()) is Some) ==> ({
                let other_action = old(self).last_spec().spec_index(agent.spec_other())->0;
                let a0 = if agent == PrisonerId::Andrzej {
                    action
                } else {
                    other_action
                };
                let a1 = if agent == PrisonerId::Andrzej {
                    other_action
                } else {
                    action
                };
                &&& final(self).history_spec() == old(self).history_spec().push(
                    (PrisonerMap { andrzej_s: a0, janusz_s: a1 }),
                )
                &&& final(self).last_spec().spec_index(PrisonerId::Andrzej) is None
                &&& final(self).last_spec().spec_index(PrisonerId::Janusz) is None
                &&& r matches Ok(u) && ({
                    &&& u@.len() == 2
                    &&& u@[0] == (
                        PrisonerId::Andrzej,
                        PrisonerUpdate { own_action: a0, other_prisoner_action: a1 },
                    )
                    &&& u@[1] == (
                        PrisonerId::Janusz,
                        PrisonerUpdate { own_action: a1, other_prisoner_action: a0 },
                    )
                })
            }),
    {
        if self.is_finished() {
            return Err(PrisonerError::ActionAfterGameOver(agent));
        }
        if self.last_round_actions.index(agent).is_some() {
            return Err(PrisonerError::ActionOutOfOrder(agent));
        }
        self.last_round_actions.set(agent, Some(action));
        let a0_opt = *self.last_round_actions.index(PrisonerId::Andrzej);
        let a1_opt = *self.last_round_actions.index(PrisonerId::Janusz);
        if a0_opt.is_none() || a1_opt.is_none() {
            return Ok(Vec::new());
        }
        let a0 = a0_opt.unwrap();
        let a1 = a1_opt.unwrap();
        let action_entry = PrisonerMap::new(a0, a1);
        self.previous_actions.push(action_entry);
        self.last_round_actions.set(PrisonerId::Andrzej, None);
        self.last_round_actions.set(PrisonerId::Janusz, None);
        let mut updates: Vec<(PrisonerId, PrisonerUpdate)> = Vec::new();
        updates.push(
            (PrisonerId::Andrzej, PrisonerUpdate { own_action: a0, other_prisoner_action: a1 }),
        );
        updates.push(
            (PrisonerId::Janusz, PrisonerUpdate { own_action: a1, other_prisoner_action: a0 }),
        );
        Ok(updates)
    }

    /// The total payoff `agent` has earned over the archived rounds,
    /// looked up round by round in the payoff table.
    #[verifier::loop_isolation(false)]
    pub fn state_score_of_player(&self, agent: &PrisonerId) -> (r: PrisonerReward)
        requires
            self.wf(),
        ensures
            r == prisoner_score_fold(self.history_spec(), self.table_spec(), *agent),
    {
        let other = agent.other();
        let ghost h = self.history_spec();
        let ghost bound = prisoner_reward_bound(self.table_spec());
        let mut acc: PrisonerReward = 0;
        let mut i: usize = 0;
        while i < self.previous_actions.len()
            invariant
                i <= h.len(),
                acc == prisoner_score_fold(h.subrange(0, i as int), self.table_spec(), *agent),
                -(i as int * bound) <= acc <= i as int * bound,
            decreases h.len() - i,
        {
            let entry = self.previous_actions[i];
            let step = self.reward_table.reward(*entry.index(*agent), *entry.index(other));
            proof {
                assert(bound >= 0);
                assert(-bound <= step <= bound);
                assert((i + 1) as int * bound == i as int * bound + bound) by (nonlinear_arith);
                lemma_mul_inequality((i + 1) as int, self.target_spec(), bound);
                assert(h.subrange(0, i + 1).drop_last() =~= h.subrange(0, i as int));
                assert(h.subrange(0, i + 1).last() == h[i as int]);
            }
            acc = acc + step;
            i += 1;
        }
        proof {
            assert(h.subrange(0, h.len() as int) =~= h);
        }
        acc
    }
}

} // verus!
