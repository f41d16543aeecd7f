//! Reward tables for 2x2 matrix games and the pair-relative `Side` role.

use vstd::prelude::*;
use crate::classic::domain::{ClassicAction, IntReward};

verus! {

/// Pair-relative role of a player inside one pairing.  The member placed
/// on an even position of the round's permutation plays `Left`, its
/// opponent plays `Right`; asymmetric reward lookups are oriented by it.
#[derive(Debug, Copy, Clone, PartialEq, Eq, Structural)]
pub enum Side {
    Left,
    Right,
}

impl Default for Side {
    fn default() -> (r: Self)
        ensures
            r == Side::Left,
    {
        Side::Left
    }
}

/// Payoff table of a symmetric 2x2 game: one payoff for every
/// (own action, opponent action) combination, shared by both roles.
#[derive(Debug, Clone, Copy)]
pub struct SymmetricRewardTable {
    pub coop_when_coop: IntReward,
    pub coop_when_defect: IntReward,
    pub defect_when_coop: IntReward,
    pub defect_when_defect: IntReward,
}

/// The symmetric table instantiated with integer payoffs.
pub type SymmetricRewardTableInt = SymmetricRewardTable;

impl SymmetricRewardTable {
    /// The payoff of playing `action` against `other_action`.
    pub open spec fn reward_spec(self, action: ClassicAction, other_action: ClassicAction) -> IntReward {
        match (action, other_action) {
            (ClassicAction::Cooperate, ClassicAction::Cooperate) => self.coop_when_coop,
            (ClassicAction::Cooperate, ClassicAction::Defect) => self.coop_when_defect,
            (ClassicAction::Defect, ClassicAction::Cooperate) => self.defect_when_coop,
            (ClassicAction::Defect, ClassicAction::Defect) => self.defect_when_defect,
        }
    }

    pub fn new(
        coop_when_coop: IntReward,
        coop_when_defect: IntReward,
        defect_when_coop: IntReward,
        defect_when_defect: IntReward,
    ) -> (r: Self)
        ensures
            r.reward_spec(ClassicAction::Cooperate, ClassicAction::Cooperate) == coop_when_coop,
            r.reward_spec(ClassicAction::Cooperate, ClassicAction::Defect) == coop_when_defect,
            r.reward_spec(ClassicAction::Defect, ClassicAction::Cooperate) == defect_when_coop,
            r.reward_spec(ClassicAction::Defect, ClassicAction::Defect) == defect_when_defect,
    {
        Self { coop_when_coop, coop_when_defect, defect_when_coop, defect_when_defect }
    }

    pub fn reward(&self, action: ClassicAction, other_action: ClassicAction) -> (r: IntReward)
        ensures
            r == self.reward_spec(action, other_action),
    {
        match (action, other_action) {
            (ClassicAction::Cooperate, ClassicAction::Cooperate) => self.coop_when_coop,
            (ClassicAction::Cooperate, ClassicAction::Defect) => self.coop_when_defect,
            (ClassicAction::Defect, ClassicAction::Cooperate) => self.defect_when_coop,
            (ClassicAction::Defect, ClassicAction::Defect) => self.defect_when_defect,
        }
    }
}

/// Payoff tables of a (possibly) asymmetric 2x2 game: one symmetric table
/// per side, both always looked up with the pair's actions in
/// (left action, right action) order.
#[derive(Debug, Copy, Clone)]
pub struct AsymmetricRewardTable {
    pub left_table: SymmetricRewardTable,
    pub right_table: SymmetricRewardTable,
}

/// The asymmetric table instantiated with integer payoffs.
pub type AsymmetricRewardTableInt = AsymmetricRewardTable;

impl AsymmetricRewardTable {
    /// The payoff granted to `reward_for` when the left player plays
    /// `left_action` and the right player plays `right_action`: each
    /// side's table is consulted with that side's own action first, so a
    /// symmetric game is the degenerate case that uses the same table
    /// for both sides.
    pub open spec fn reward_for_side_spec(
        self,
        reward_for: Side,
        left_action: ClassicAction,
        right_action: ClassicAction,
    ) -> IntReward {
        match reward_for {
            Side::Left => self.left_table.reward_spec(left_action, right_action),
            Side::Right => self.right_table.reward_spec(right_action, left_action),
        }
    }

    pub fn new(left_table: SymmetricRewardTable, right_table: SymmetricRewardTable) -> (r: Self)
        ensures
            forall|l: ClassicAction, ri: ClassicAction|
                r.reward_for_side_spec(Side::Left, l, ri) == left_table.reward_spec(l, ri),
            forall|l: ClassicAction, ri: ClassicAction|
                r.reward_for_side_spec(Side::Right, l, ri) == right_table.reward_spec(ri, l),
    {
        Self { left_table, right_table }
    }

    pub fn reward_for_side(
        &self,
        reward_for: Side,
        left_action: ClassicAction,
        right_action: ClassicAction,
    ) -> (r: IntReward)
        ensures
            r == self.reward_for_side_spec(reward_for, left_action, right_action),
    {
        match reward_for {
            Side::Left => self.left_table.reward(left_action, right_action),
            Side::Right => self.right_table.reward(right_action, left_action),
        }
    }

    /// Both players' payoffs for one resolved pair, left player's first.
    pub fn rewards(&self, left_action: ClassicAction, right_action: ClassicAction) -> (r: (
        IntReward,
        IntReward,
    ))
        ensures
            r.0 == self.reward_for_side_spec(Side::Left, left_action, right_action),
            r.1 == self.reward_for_side_spec(Side::Right, left_action, right_action),
    {
        (
            self.left_table.reward(left_action, right_action),
            self.right_table.reward(right_action, left_action),
        )
    }
}

impl From<SymmetricRewardTable> for AsymmetricRewardTable {
    /// A symmetric game as the degenerate asymmetric game that uses the
    /// same table for both sides.
    fn from(value: SymmetricRewardTable) -> (r: Self) {
        AsymmetricRewardTable { left_table: value, right_table: value }
    }
}

impl vstd::std_specs::convert::FromSpecImpl<SymmetricRewardTable> for AsymmetricRewardTable {
    open spec fn obeys_from_spec() -> bool {
        true
    }

    open spec fn from_spec(value: SymmetricRewardTable) -> Self {
        AsymmetricRewardTable { left_table: value, right_table: value }
    }
}

} // verus!
