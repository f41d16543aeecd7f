//! The prisoner's information set (its own history of rounds) and the
//! fixed policies that choose actions from it.

use vstd::prelude::*;
use crate::choose_of_two;
use crate::prisoner::common::RewardTable;
use crate::prisoner::domain::{PrisonerAction, PrisonerError, PrisonerUpdate};

verus! {

/// How many of the archived rounds record `action` as the player's own
/// action.
pub open spec fn count_own_actions(h: Seq<PrisonerUpdate>, action: PrisonerAction) -> int
    decreases h.len(),
{
    if h.len() == 0 {
        0
    } else {
        count_own_actions(h.drop_last(), action) + if h.last().own_action == action {
            1int
        } else {
            0int
        }
    }
}

/// How many of the archived rounds record `action` as the other
/// prisoner's action.
pub open spec fn count_other_actions(h: Seq<PrisonerUpdate>, action: PrisonerAction) -> int
    decreases h.len(),
{
    if h.len() == 0 {
        0
    } else {
        count_other_actions(h.drop_last(), action) + if h.last().other_prisoner_action == action {
            1int
        } else {
            0int
        }
    }
}

/// The player's total subjective payoff over its history: its own action
/// against the other prisoner's action, round by round.
pub open spec fn subjective_sum(h: Seq<PrisonerUpdate>, t: RewardTable) -> int
    decreases h.len(),
{
    if h.len() == 0 {
        0
    } else {
        subjective_sum(h.drop_last(), t) + t.reward_spec(
            h.last().own_action,
            h.last().other_prisoner_action,
        )
    }
}

/// The prisoner's information set: the rounds it has observed so far and
/// the payoff table it judges them by.
#[derive(Clone, Debug)]
pub struct PrisonerState {
    previous_actions: Vec<PrisonerUpdate>,
    reward_table: RewardTable,
}

impl PrisonerState {
    /// The observed rounds, oldest first.
    pub closed spec fn history_spec(&self) -> Seq<PrisonerUpdate> {
        self.previous_actions@
    }

    /// The payoff table the player judges its history by.
    pub closed spec fn table_spec(&self) -> RewardTable {
        self.reward_table
    }

    pub fn new(reward_table: RewardTable) -> (r: Self)
        ensures
            r.history_spec().len() == 0,
            r.table_spec() == reward_table,
    {
        Self { reward_table, previous_actions: Vec::new() }
    }

    pub fn previous_actions(&self) -> (r: &Vec<PrisonerUpdate>)
        ensures
            r@ == self.history_spec(),
    {
        &self.previous_actions
    }

    /// How many rounds record `action` as this player's own action.
    #[verifier::loop_isolation(false)]
    pub fn count_actions(&self, action: PrisonerAction) -> (r: usize)
        ensures
            r == count_own_actions(self.history_spec(), action),
    {
        let ghost h = self.history_spec();
        let mut count: usize = 0;
        let mut i: usize = 0;
        while i < self.previous_actions.len()
            invariant
                i <= h.len(),
                count == count_own_actions(h.subrange(0, i as int), action),
                count <= i,
            decreases h.len() - i,
        {
            proof {
                assert(h.subrange(0, i + 1).drop_last() =~= h.subrange(0, i as int));
                assert(h.subrange(0, i + 1).last() == h[i as int]);
            }
            if self.previous_actions[i].own_action == action {
                count += 1;
            }
            i += 1;
        }
        proof {
            assert(h.subrange(0, h.len() as int) =~= h);
        }
        count
    }

    /// The two actions available to the player, independent of history.
    pub fn available_actions(&self) -> (r: [PrisonerAction; 2])
        ensures
            r@.len() == 2,
            r@[0] == PrisonerAction::Betray,
            r@[1] == PrisonerAction::Cover,
    {
        [PrisonerAction::Betray, PrisonerAction::Cover]
    }

    /// Every action of the closed action set is legal.
    pub fn is_action_valid(&self, _action: &PrisonerAction) -> (r: bool)
        ensures
            r,
    {
        true
    }

    /// Appends one observed round to the history; never fails.
    pub fn update(&mut self, update: PrisonerUpdate) -> (r: Result<(), PrisonerError>)
        ensures
            r is Ok,
            final(self).history_spec() == old(self).history_spec().push(update),
            final(self).table_spec() == old(self).table_spec(),
    {
        self.previous_actions.push(update);
        Ok(())
    }

    /// The player's cumulative subjective payoff: the payoff-table sum
    /// over every observed round.
    #[verifier::loop_isolation(false)]
    pub fn current_subjective_score(&self) -> (r: i64)
        requires
            self.history_spec().len() <= 0x8000_0000,
        ensures
            r == subjective_sum(self.history_spec(), self.table_spec()),
    {
        let ghost h = self.history_spec();
        let mut acc: i64 = 0;
        let mut i: usize = 0;
        while i < self.previous_actions.len()
            invariant
                i <= h.len(),
                acc == subjective_sum(h.subrange(0, i as int), self.table_spec()),
                -(i as int * 0x8000_0000) <= acc <= i as int * 0x8000_0000,
            decreases h.len() - i,
        {
            proof {
                assert(h.subrange(0, i + 1).drop_last() =~= h.subrange(0, i as int));
                assert(h.subrange(0, i + 1).last() == h[i as int]);
            }
            let entry = self.previous_actions[i];
            let step = self.reward_table.reward(entry.own_action, entry.other_prisoner_action);
            acc = acc + step as i64;
            i += 1;
        }
        proof {
            assert(h.subrange(0, h.len() as int) =~= h);
        }
        acc
    }

    /// The fixed sentinel payoff reported for an illegal action.
    pub fn penalty_for_illegal() -> (r: i64)
        ensures
            r == -100,
    {
        -100
    }
}

/// Policy that always covers.
pub struct CoverPolicy {}

impl CoverPolicy {
    pub fn select_action(&self, _state: &PrisonerState) -> (r: Option<PrisonerAction>)
        ensures
            r == Some(PrisonerAction::Cover),
    {
        Some(PrisonerAction::Cover)
    }
}

/// Policy that forgives a single betrayal: it covers until the other
/// prisoner has betrayed more than once, then betrays forever.
pub struct Forgive1Policy {}

impl Forgive1Policy {
    pub fn select_action(&self, state: &PrisonerState) -> (r: Option<PrisonerAction>)
        ensures
            r == Some(
                if count_other_actions(state.history_spec(), PrisonerAction::Betray) > 1 {
                    PrisonerAction::Betray
                } else {
                    PrisonerAction::Cover
                },
            ),
    {
        let enemy_betrayals = count_other_actions_exec(
            state.previous_actions(),
            PrisonerAction::Betray,
        );
        if enemy_betrayals > 1 {
            Some(PrisonerAction::Betray)
        } else {
            Some(PrisonerAction::Cover)
        }
    }
}

/// Policy that betrays whenever the other prisoner has betrayed more
/// often than it has covered.
pub struct BetrayRatioPolicy {}

impl BetrayRatioPolicy {
    pub fn select_action(&self, state: &PrisonerState) -> (r: Option<PrisonerAction>)
        ensures
            r == Some(
                if count_other_actions(state.history_spec(), PrisonerAction::Betray)
                    > count_other_actions(state.history_spec(), PrisonerAction::Cover) {
                    PrisonerAction::Betray
                } else {
                    PrisonerAction::Cover
                },
            ),
    {
        let betrayed = count_other_actions_exec(state.previous_actions(), PrisonerAction::Betray);
        let covered = count_other_actions_exec(state.previous_actions(), PrisonerAction::Cover);
        if betrayed > covered {
            Some(PrisonerAction::Betray)
        } else {
            Some(PrisonerAction::Cover)
        }
    }
}

/// Policy that draws one of the two actions at random.
pub struct RandomPrisonerPolicy {}

impl RandomPrisonerPolicy {
    pub fn select_action(&self, state: &PrisonerState) -> (r: Option<PrisonerAction>)
        ensures
            r == Some(PrisonerAction::Betray) || r == Some(PrisonerAction::Cover),
    {
        let actions = state.available_actions();
        Some(choose_of_two(actions[0], actions[1]))
    }
}

/// What `SwitchOnTwoSubsequent` answers after scanning the other
/// prisoner's actions backwards from position `k - 1` while carrying the
/// most recent action `cur`: the first action repeated on two subsequent
/// rounds, or `Cover` when there is none.
pub open spec fn switch_scan(h: Seq<PrisonerUpdate>, k: int, cur: PrisonerAction) -> PrisonerAction
    decreases k,
{
    if k <= 0 {
        PrisonerAction::Cover
    } else if h[k - 1].other_prisoner_action == cur {
        cur
    } else {
        switch_scan(h, k - 1, h[k - 1].other_prisoner_action)
    }
}

/// The action `SwitchOnTwoSubsequent` chooses on a given history.
pub open spec fn switch_result(h: Seq<PrisonerUpdate>) -> PrisonerAction {
    if h.len() == 0 {
        PrisonerAction::Cover
    } else {
        switch_scan(h, h.len() - 1, h.last().other_prisoner_action)
    }
}

/// Policy that plays the other prisoner's action as soon as that action
/// was kept on two subsequent rounds, and covers otherwise.
pub struct SwitchOnTwoSubsequent {}

impl SwitchOnTwoSubsequent {
    #[verifier::loop_isolation(false)]
    pub fn select_action(&self, state: &PrisonerState) -> (r: Option<PrisonerAction>)
        ensures
            r == Some(switch_result(state.history_spec())),
    {
        let ghost h = state.history_spec();
        let history = state.previous_actions();
        let len = history.len();
        if len == 0 {
            return Some(PrisonerAction::Cover);
        }
        let mut other_action = history[len - 1].other_prisoner_action;
        let mut k: usize = len - 1;
        while k > 0
            invariant
                k <= len - 1,
                switch_result(h) == switch_scan(h, k as int, other_action),
            decreases k,
        {
            if history[k - 1].other_prisoner_action == other_action {
                return Some(other_action);
            }
            other_action = history[k - 1].other_prisoner_action;
            k -= 1;
        }
        Some(PrisonerAction::Cover)
    }
}

/// How many rounds of `h` record `action` as the other prisoner's
/// action.
#[verifier::loop_isolation(false)]
fn count_other_actions_exec(h: &Vec<PrisonerUpdate>, action: PrisonerAction) -> (r: usize)
    ensures
        r == count_other_actions(h@, action),
{
    let mut count: usize = 0;
    let mut i: usize = 0;
    while i < h.len()
        invariant
            i <= h@.len(),
            count == count_other_actions(h@.subrange(0, i as int), action),
            count <= i,
        decreases h@.len() - i,
    {
        proof {
            assert(h@.subrange(0, i + 1).drop_last() =~= h@.subrange(0, i as int));
            assert(h@.subrange(0, i + 1).last() == h@[i as int]);
        }
        if h[i].other_prisoner_action == action {
            count += 1;
        }
        i += 1;
    }
    proof {
        assert(h@.subrange(0, h@.len() as int) =~= h@);
    }
    count
}

/// Marker for the strategy that renders a prisoner's history as a fixed
/// tensor layout for an external learning subsystem.
pub struct PrisonerStateTranslate {}

} // verus!
