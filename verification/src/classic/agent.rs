//! The named prisoner's information set over classic encounters and the
//! fixed policies that choose classic actions from it.

pub mod historyless;
pub mod own_history;

use vstd::prelude::*;
use crate::choose_of_two;
use crate::classic::common::SymmetricRewardTableInt;
use crate::classic::domain::{ClassicAction, ClassicGameError, EncounterReport, PrisonerId};

verus! {

/// How many of the observed encounters record `action` as the player's
/// own action.
pub open spec fn count_own_classic(
    h: Seq<EncounterReport<PrisonerId>>,
    action: ClassicAction,
) -> int
    decreases h.len(),
{
    if h.len() == 0 {
        0
    } else {
        count_own_classic(h.drop_last(), action) + if h.last().own_action == action {
            1int
        } else {
            0int
        }
    }
}

/// How many of the observed encounters record `action` as the other
/// player's action.
pub open spec fn count_other_classic(
    h: Seq<EncounterReport<PrisonerId>>,
    action: ClassicAction,
) -> int
    decreases h.len(),
{
    if h.len() == 0 {
        0
    } else {
        count_other_classic(h.drop_last(), action) + if h.last().other_player_action == action {
            1int
        } else {
            0int
        }
    }
}

/// The player's total subjective payoff over its observed encounters,
/// judged by a symmetric table.
pub open spec fn classic_subjective_sum(
    h: Seq<EncounterReport<PrisonerId>>,
    t: SymmetricRewardTableInt,
) -> int
    decreases h.len(),
{
    if h.len() == 0 {
        0
    } else {
        classic_subjective_sum(h.drop_last(), t) + t.reward_spec(
            h.last().own_action,
            h.last().other_player_action,
        )
    }
}

/// The named prisoner's information set: the encounters it has observed
/// and the symmetric payoff table it judges them by.
#[derive(Clone, Debug)]
pub struct PrisonerInfoSet {
    previous_actions: Vec<EncounterReport<PrisonerId>>,
    reward_table: SymmetricRewardTableInt,
}

impl PrisonerInfoSet {
    /// The observed encounters, oldest first.
    pub closed spec fn history_spec(&self) -> Seq<EncounterReport<PrisonerId>> {
        self.previous_actions@
    }

    /// The payoff table the player judges its history by.
    pub closed spec fn table_spec(&self) -> SymmetricRewardTableInt {
        self.reward_table
    }

    pub fn new(reward_table: SymmetricRewardTableInt) -> (r: Self)
        ensures
            r.history_spec().len() == 0,
            r.table_spec() == reward_table,
    {
        Self { reward_table, previous_actions: Vec::new() }
    }

    pub fn previous_actions(&self) -> (r: &Vec<EncounterReport<PrisonerId>>)
        ensures
            r@ == self.history_spec(),
    {
        &self.previous_actions
    }

    /// How many encounters record `action` as this player's own action.
    #[verifier::loop_isolation(false)]
    pub fn count_actions(&self, action: ClassicAction) -> (r: usize)
        ensures
            r == count_own_classic(self.history_spec(), action),
    {
        let ghost h = self.history_spec();
        let mut count: usize = 0;
        let mut i: usize = 0;
        while i < self.previous_actions.len()
            invariant
                i <= h.len(),
                count == count_own_classic(h.subrange(0, i as int), action),
                count <= i,
            decreases h.len() - i,
        {
            proof {
                assert(h.subrange(0, i + 1).drop_last() =~= h.subrange(0, i as int));
                assert(h.subrange(0, i + 1).last() == h[i as int]);
            }
            if self.previous_actions[i].own_action == action {
                count += 1;
            }
            i += 1;
        }
        proof {
            assert(h.subrange(0, h.len() as int) =~= h);
        }
        count
    }

    /// The two actions available to the player, independent of history.
    pub fn available_actions(&self) -> (r: [ClassicAction; 2])
        ensures
            r@.len() == 2,
            r@[0] == ClassicAction::Defect,
            r@[1] == ClassicAction::Cooperate,
    {
        [ClassicAction::Defect, ClassicAction::Cooperate]
    }

    /// Every action of the closed action set is legal.
    pub fn is_action_valid(&self, _action: &ClassicAction) -> (r: bool)
        ensures
            r,
    {
        true
    }

    /// Appends one observed encounter to the history; never fails.
    pub fn update(&mut self, update: EncounterReport<PrisonerId>) -> (r: Result<
        (),
        ClassicGameError<PrisonerId>,
    >)
        ensures
            r is Ok,
            final(self).history_spec() == old(self).history_spec().push(update),
            final(self).table_spec() == old(self).table_spec(),
    {
        self.previous_actions.push(update);
        Ok(())
    }

    /// The player's cumulative subjective payoff: the payoff-table sum
    /// over every observed encounter.
    #[verifier::loop_isolation(false)]
    pub fn current_subjective_score(&self) -> (r: i64)
        requires
            self.history_spec().len() <= 0x8000_0000,
        ensures
            r == classic_subjective_sum(self.history_spec(), self.table_spec()),
    {
        let ghost h = self.history_spec();
        let mut acc: i64 = 0;
        let mut i: usize = 0;
        while i < self.previous_actions.len()
            invariant
                i <= h.len(),
                acc == classic_subjective_sum(h.subrange(0, i as int), self.table_spec()),
                -(i as int * 0x8000_0000) <= acc <= i as int * 0x8000_0000,
            decreases h.len() - i,
        {
            proof {
                assert(h.subrange(0, i + 1).drop_last() =~= h.subrange(0, i as int));
                assert(h.subrange(0, i + 1).last() == h[i as int]);
            }
            let entry = self.previous_actions[i];
            let step = self.reward_table.reward(entry.own_action, entry.other_player_action);
            acc = acc + step as i64;
            i += 1;
        }
        proof {
            assert(h.subrange(0, h.len() as int) =~= h);
        }
        acc
    }

    /// The fixed sentinel payoff reported for an illegal action.
    pub fn penalty_for_illegal() -> (r: i64)
        ensures
            r == -100,
    {
        -100
    }
}

/// Policy that forgives a single defection: it cooperates until the
/// other player has defected more than once, then defects forever.
pub struct Forgive1Policy {}

impl Forgive1Policy {
    pub fn select_action(&self, state: &PrisonerInfoSet) -> (r: Option<ClassicAction>)
        ensures
            r == Some(
                if count_other_classic(state.history_spec(), ClassicAction::Defect) > 1 {
                    ClassicAction::Defect
                } else {
                    ClassicAction::Cooperate
                },
            ),
    {
        let enemy_betrayals = count_other_classic_exec(
            state.previous_actions(),
            ClassicAction::Defect,
        );
        if enemy_betrayals > 1 {
            Some(ClassicAction::Defect)
        } else {
            Some(ClassicAction::Cooperate)
        }
    }
}

/// Policy that defects whenever the other player has defected more
/// often than it has cooperated.
pub struct BetrayRatioPolicy {}

impl BetrayRatioPolicy {
    pub fn select_action(&self, state: &PrisonerInfoSet) -> (r: Option<ClassicAction>)
        ensures
            r == Some(
                if count_other_classic(state.history_spec(), ClassicAction::Defect)
                    > count_other_classic(state.history_spec(), ClassicAction::Cooperate) {
                    ClassicAction::Defect
                } else {
                    ClassicAction::Cooperate
                },
            ),
    {
        let betrayed = count_other_classic_exec(state.previous_actions(), ClassicAction::Defect);
        let covered = count_other_classic_exec(state.previous_actions(), ClassicAction::Cooperate);
        if betrayed > covered {
            Some(ClassicAction::Defect)
        } else {
            Some(ClassicAction::Cooperate)
        }
    }
}

/// Policy that draws one of the two actions at random.
pub struct RandomPrisonerPolicy {}

impl RandomPrisonerPolicy {
    pub fn select_action(&self, state: &PrisonerInfoSet) -> (r: Option<ClassicAction>)
        ensures
            r == Some(ClassicAction::Defect) || r == Some(ClassicAction::Cooperate),
    {
        let actions = state.available_actions();
        Some(choose_of_two(actions[0], actions[1]))
    }
}

/// What `SwitchOnTwoSubsequent` answers after scanning the other
/// player's actions backwards from position `k - 1` while carrying the
/// most recent action `cur`: the first action repeated on two subsequent
/// encounters, or `Cooperate` when there is none.
pub open spec fn classic_switch_scan(
    h: Seq<EncounterReport<PrisonerId>>,
    k: int,
    cur: ClassicAction,
) -> ClassicAction
    decreases k,
{
    if k <= 0 {
        ClassicAction::Cooperate
    } else if h[k - 1].other_player_action == cur {
        cur
    } else {
        classic_switch_scan(h, k - 1, h[k - 1].other_player_action)
    }
}

/// The action `SwitchOnTwoSubsequent` chooses on a given history.
pub open spec fn classic_switch_result(h: Seq<EncounterReport<PrisonerId>>) -> ClassicAction {
    if h.len() == 0 {
        ClassicAction::Cooperate
    } else {
        classic_switch_scan(h, h.len() - 1, h.last().other_player_action)
    }
}

/// Policy that plays the other player's action as soon as that action
/// was kept on two subsequent encounters, and cooperates otherwise.
pub struct SwitchOnTwoSubsequent {}

impl SwitchOnTwoSubsequent {
    #[verifier::loop_isolation(false)]
    pub fn select_action(&self, state: &PrisonerInfoSet) -> (r: Option<ClassicAction>)
        ensures
            r == Some(classic_switch_result(state.history_spec())),
    {
        let ghost h = state.history_spec();
        let history = state.previous_actions();
        let len = history.len();
        if len == 0 {
            return Some(ClassicAction::Cooperate);
        }
        let mut other_action = history[len - 1].other_player_action;
        let mut k: usize = len - 1;
        while k > 0
            invariant
                k <= len - 1,
                classic_switch_result(h) == classic_switch_scan(h, k as int, other_action),
            decreases k,
        {
            if history[k - 1].other_player_action == other_action {
                return Some(other_action);
            }
            other_action = history[k - 1].other_player_action;
            k -= 1;
        }
        Some(ClassicAction::Cooperate)
    }
}

/// How many encounters of `h` record `action` as the other player's
/// action.
#[verifier::loop_isolation(false)]
fn count_other_classic_exec(h: &Vec<EncounterReport<PrisonerId>>, action: ClassicAction) -> (r:
    usize)
    ensures
        r == count_other_classic(h@, action),
{
    let mut count: usize = 0;
    let mut i: usize = 0;
    while i < h.len()
        invariant
            i <= h@.len(),
            count == count_other_classic(h@.subrange(0, i as int), action),
            count <= i,
        decreases h@.len() - i,
    {
        proof {
            assert(h@.subrange(0, i + 1).drop_last() =~= h@.subrange(0, i as int));
            assert(h@.subrange(0, i + 1).last() == h@[i as int]);
        }
        if h[i].other_player_action == action {
            count += 1;
        }
        i += 1;
    }
    proof {
        assert(h@.subrange(0, h@.len() as int) =~= h@);
    }
    count
}

/// Marker for the strategy that renders a prisoner's history as a fixed
/// tensor layout for an external learning subsystem.
pub struct PrisonerStateTranslate {}

/// Marker naming the fixed tensor layout of a prisoner's history.
#[derive(Default)]
pub struct PrisonerInfoSetWay {}

impl PrisonerInfoSetWay {
    /// The flat shape of the layout: two entries for each of up to 256
    /// remembered encounters.
    pub fn desired_shape() -> (r: [i64; 1])
        ensures
            r@.len() == 1,
            r@[0] == 512,
    {
        [512]
    }
}

} // verus!
