//! Core domain vocabulary of the classic matrix games: agent identifiers,
//! actions, game errors and the per-encounter report handed to agents.

use vstd::prelude::*;
use crate::classic::common::{AsymmetricRewardTable, Side};
use crate::pairing::PairingVec;

verus! {

/// Integer payoff used by the schedulers' score caches.
pub type IntReward = i32;

/// Capability of an agent identifier: conversion to and from a dense
/// zero-based index.  `index_spec` is the mathematical index of an
/// identifier and `valid_index` delimits the indices that identifiers
/// exist for; both executable conversions are tied to them.
pub trait AsUsize: Sized {
    /// The zero-based index this identifier stands for.
    spec fn index_spec(&self) -> int;

    /// Whether an identifier with index `u` exists.
    spec fn valid_index(u: int) -> bool;

    fn as_usize(&self) -> (r: usize)
        ensures
            r as int == self.index_spec(),
            Self::valid_index(self.index_spec()),
    ;

    fn make_from_usize(u: usize) -> (r: Self)
        requires
            Self::valid_index(u as int),
        ensures
            r.index_spec() == u as int,
    ;
}

/// Marker for identifier types the pairing scheduler can be driven with:
/// copyable identifiers convertible to and from a dense index.
pub trait UsizeAgentId: AsUsize + Copy {

}

impl<T: AsUsize + Copy> UsizeAgentId for T {

}

/// A move in a classic 2x2 matrix game.
#[derive(Copy, Clone, Debug, PartialEq, Eq, Structural)]
pub enum ClassicAction {
    Defect,
    Cooperate,
}

impl AsUsize for ClassicAction {
    open spec fn index_spec(&self) -> int {
        match *self {
            ClassicAction::Defect => 0,
            ClassicAction::Cooperate => 1,
        }
    }

    open spec fn valid_index(u: int) -> bool {
        0 <= u < 2
    }

    fn as_usize(&self) -> (r: usize) {
        match *self {
            ClassicAction::Defect => 0,
            ClassicAction::Cooperate => 1,
        }
    }

    fn make_from_usize(u: usize) -> (r: Self) {
        if u == 0 {
            ClassicAction::Defect
        } else {
            ClassicAction::Cooperate
        }
    }
}

/// Everything that can go wrong while driving a classic game.
#[derive(Debug, Clone, PartialEq, Eq)]
pub enum ClassicGameError<ID> {
    /// An agent performed an action different from the one it logged.
    DifferentActionPerformed { chosen: ClassicAction, logged: ClassicAction },
    /// An agent acted although another agent was expected to act.
    GameViolatedOrder { acted: ID, expected: Option<ID> },
    /// An action was logged although none was performed.
    NoLastAction(ClassicAction),
    /// An agent acted after the configured number of rounds had completed.
    ActionAfterGameOver(ID),
    /// An agent acted although it is not the current player.
    ActionOutOfOrder(ID),
    /// Pairing requires an even number of players; the count given is odd.
    ExpectedEvenNumberOfPlayers(u32),
    /// An agent tried to register with the communication port twice.
    DuplicateAgentRegistration(ID),
    /// A round update does not include a report for the given agent.
    EncounterNotReported(u32),
}

impl<ID> ClassicGameError<ID> {
    /// A short description of the error kind.
    pub fn describe(&self) -> (r: &'static str) {
        match *self {
            ClassicGameError::DifferentActionPerformed { .. } => "performed different action",
            ClassicGameError::GameViolatedOrder { .. } => "order in game was violated",
            ClassicGameError::NoLastAction(..) => "action logged but none was performed",
            ClassicGameError::ActionAfterGameOver(..) => "played after game over",
            ClassicGameError::ActionOutOfOrder(..) => "played out of order",
            ClassicGameError::ExpectedEvenNumberOfPlayers(..) => "odd number of players",
            ClassicGameError::DuplicateAgentRegistration(..) => "agent registered twice",
            ClassicGameError::EncounterNotReported(..) => "encounter report missing",
        }
    }
}

/// Immutable record of one resolved pairing, handed to a participant:
/// its own action, the opponent's action, its own side and the opponent.
#[derive(Debug, Copy, Clone)]
pub struct EncounterReport<ID> {
    pub own_action: ClassicAction,
    pub other_player_action: ClassicAction,
    pub side: Side,
    pub other_id: ID,
}

impl<ID> EncounterReport<ID> {
    /// The action of the pair's left player.
    pub open spec fn left_action_spec(self) -> ClassicAction {
        match self.side {
            Side::Left => self.own_action,
            Side::Right => self.other_player_action,
        }
    }

    /// The action of the pair's right player.
    pub open spec fn right_action_spec(self) -> ClassicAction {
        match self.side {
            Side::Left => self.other_player_action,
            Side::Right => self.own_action,
        }
    }

    pub fn left_action(&self) -> (r: ClassicAction)
        ensures
            r == self.left_action_spec(),
    {
        match self.side {
            Side::Left => self.own_action,
            Side::Right => self.other_player_action,
        }
    }

    pub fn right_action(&self) -> (r: ClassicAction)
        ensures
            r == self.right_action_spec(),
    {
        match self.side {
            Side::Left => self.other_player_action,
            Side::Right => self.own_action,
        }
    }

    pub fn side_action(&self, side: Side) -> (r: ClassicAction)
        ensures
            side == Side::Left ==> r == self.left_action_spec(),
            side == Side::Right ==> r == self.right_action_spec(),
    {
        match side {
            Side::Left => self.left_action(),
            Side::Right => self.right_action(),
        }
    }

    pub fn own_side(&self) -> (r: Side)
        ensures
            r == self.side,
    {
        self.side
    }

    /// The payoff this report's owner earned in the reported encounter.
    pub open spec fn calculate_reward_spec(self, table: AsymmetricRewardTable) -> IntReward {
        table.reward_for_side_spec(self.side, self.left_action_spec(), self.right_action_spec())
    }

    pub fn calculate_reward(&self, table: &AsymmetricRewardTable) -> (r: IntReward)
        ensures
            r == self.calculate_reward_spec(*table),
    {
        let (left, right) = match self.side {
            Side::Left => (self.own_action, self.other_player_action),
            Side::Right => (self.other_player_action, self.own_action),
        };
        table.reward_for_side(self.side, left, right)
    }
}

/// A report addressed with the named prisoner identifiers.
pub type EncounterReportNamed = EncounterReport<PrisonerId>;

/// A report addressed with dense numeric agent identifiers.
pub type EncounterReportNumbered = EncounterReport<crate::pairing::AgentNum>;

/// End-of-round broadcast to one agent: every pair's encounter report of
/// the completed round, and the fresh pairing of the next round (absent
/// when the configured number of rounds has been reached).
#[derive(Debug)]
pub struct ClassicGameUpdate<ID: UsizeAgentId> {
    pub encounters: Vec<EncounterReport<ID>>,
    pub pairing: Option<PairingVec<ID>>,
}

/// One of the two named prisoners of the classic two-player game.
#[derive(Debug, Copy, Clone, PartialEq, Eq, Hash, Structural)]
pub enum PrisonerId {
    Andrzej,
    Janusz,
}

impl PrisonerId {
    /// The other prisoner.
    pub fn other(self) -> (r: Self)
        ensures
            self == PrisonerId::Andrzej ==> r == PrisonerId::Janusz,
            self == PrisonerId::Janusz ==> r == PrisonerId::Andrzej,
    {
        match self {
            PrisonerId::Janusz => PrisonerId::Andrzej,
            PrisonerId::Andrzej => PrisonerId::Janusz,
        }
    }
}

impl AsUsize for PrisonerId {
    open spec fn index_spec(&self) -> int {
        match *self {
            PrisonerId::Andrzej => 0,
            PrisonerId::Janusz => 1,
        }
    }

    open spec fn valid_index(u: int) -> bool {
        0 <= u < 2
    }

    fn as_usize(&self) -> (r: usize) {
        match *self {
            PrisonerId::Andrzej => 0,
            PrisonerId::Janusz => 1,
        }
    }

    fn make_from_usize(u: usize) -> (r: Self) {
        if u == 0 {
            PrisonerId::Andrzej
        } else {
            PrisonerId::Janusz
        }
    }
}

/// A pair of values addressed by `PrisonerId`.
#[derive(Debug, Copy, Clone)]
pub struct PrisonerMap<T> {
    pub andrzej_s: T,
    pub janusz_s: T,
}

impl<T> PrisonerMap<T> {
    /// The value stored for `id`.
    pub open spec fn spec_index(self, id: PrisonerId) -> T {
        match id {
            PrisonerId::Andrzej => self.andrzej_s,
            PrisonerId::Janusz => self.janusz_s,
        }
    }

    pub fn new(andrzej_s: T, janusz_s: T) -> (r: Self)
        ensures
            r.spec_index(PrisonerId::Andrzej) == andrzej_s,
            r.spec_index(PrisonerId::Janusz) == janusz_s,
    {
        Self { andrzej_s, janusz_s }
    }

    pub fn index(&self, index: PrisonerId) -> (r: &T)
        ensures
            *r == self.spec_index(index),
    {
        match index {
            PrisonerId::Andrzej => &self.andrzej_s,
            PrisonerId::Janusz => &self.janusz_s,
        }
    }

    /// Replaces the value stored for `index`.
    pub fn set(&mut self, index: PrisonerId, value: T)
        ensures
            final(self).spec_index(index) == value,
            final(self).spec_index(index.spec_other()) == old(self).spec_index(index.spec_other()),
    {
        match index {
            PrisonerId::Andrzej => {
                self.andrzej_s = value;
            },
            PrisonerId::Janusz => {
                self.janusz_s = value;
            },
        }
    }
}

impl PrisonerId {
    /// The other prisoner, as a specification-level function.
    pub open spec fn spec_other(self) -> Self {
        match self {
            PrisonerId::Andrzej => PrisonerId::Janusz,
            PrisonerId::Janusz => PrisonerId::Andrzej,
        }
    }
}

} // verus!
