//! The prisoner game's symmetric payoff table.

use vstd::prelude::*;
use crate::prisoner::domain::{PrisonerAction, PrisonerReward};

verus! {

/// Payoff table of the prisoner game: one payoff for every combination
/// of the player's own action and the other prisoner's action.
#[derive(Debug, Copy, Clone)]
pub struct RewardTable {
    pub cover_v_cover: PrisonerReward,
    pub cover_v_betray: PrisonerReward,
    pub betray_v_cover: PrisonerReward,
    pub betray_v_betray: PrisonerReward,
}

impl RewardTable {
    /// The payoff of playing `action` against `other_action`.
    pub open spec fn reward_spec(
        self,
        action: PrisonerAction,
        other_action: PrisonerAction,
    ) -> PrisonerReward {
        match (action, other_action) {
            (PrisonerAction::Cover, PrisonerAction::Cover) => self.cover_v_cover,
            (PrisonerAction::Cover, PrisonerAction::Betray) => self.cover_v_betray,
            (PrisonerAction::Betray, PrisonerAction::Cover) => self.betray_v_cover,
            (PrisonerAction::Betray, PrisonerAction::Betray) => self.betray_v_betray,
        }
    }

    pub fn reward(&self, action: PrisonerAction, other_action: PrisonerAction) -> (r:
        PrisonerReward)
        ensures
            r == self.reward_spec(action, other_action),
    {
        match (action, other_action) {
            (PrisonerAction::Cover, PrisonerAction::Cover) => self.cover_v_cover,
            (PrisonerAction::Cover, PrisonerAction::Betray) => self.cover_v_betray,
            (PrisonerAction::Betray, PrisonerAction::Cover) => self.betray_v_cover,
            (PrisonerAction::Betray, PrisonerAction::Betray) => self.betray_v_betray,
        }
    }
}

} // verus!
