//! Domain vocabulary of the two-player prisoner game: the two named
//! players, their actions, errors and the per-round update record.

use vstd::prelude::*;

verus! {

/// A move in the prisoner game.
#[derive(Copy, Clone, Debug, PartialEq, Eq, Structural)]
pub enum PrisonerAction {
    Betray,
    Cover,
}

/// Everything that can go wrong while driving the prisoner game.
#[derive(Debug, Clone, PartialEq, Eq)]
pub enum PrisonerError {
    /// A player performed an action different from the one it logged.
    DifferentActionPerformed { chosen: PrisonerAction, logged: PrisonerAction },
    /// An action was logged although none was performed.
    NoLastAction(PrisonerAction),
    /// A player acted after the configured number of rounds had completed.
    ActionAfterGameOver(PrisonerId),
    /// A player acted although it had already acted this round.
    ActionOutOfOrder(PrisonerId),
}

impl PrisonerError {
    /// A short description of the error kind.
    pub fn describe(&self) -> (r: &'static str) {
        match *self {
            PrisonerError::DifferentActionPerformed { .. } => "performed different action",
            PrisonerError::NoLastAction(..) => "action logged but none was performed",
            PrisonerError::ActionAfterGameOver(..) => "played after game over",
            PrisonerError::ActionOutOfOrder(..) => "played out of order",
        }
    }
}

/// Marker type for the two-player prisoner game.
#[derive(Clone, Debug)]
pub struct PrisonerDomain;

/// What one player learns when a round resolves: its own action and the
/// other prisoner's action.
#[derive(Debug, Copy, Clone, PartialEq, Eq, Structural)]
pub struct PrisonerUpdate {
    pub own_action: PrisonerAction,
    pub other_prisoner_action: PrisonerAction,
}

/// One of the two named prisoners.
#[derive(Debug, Copy, Clone, PartialEq, Eq, Hash, Structural)]
pub enum PrisonerId {
    Andrzej,
    Janusz,
}

impl PrisonerId {
    /// The other prisoner, as a specification-level function.
    pub open spec fn spec_other(self) -> Self {
        match self {
            PrisonerId::Andrzej => PrisonerId::Janusz,
            PrisonerId::Janusz => PrisonerId::Andrzej,
        }
    }

    /// The other prisoner.
    pub fn other(self) -> (r: Self)
        ensures
            r == self.spec_other(),
    {
        match self {
            PrisonerId::Janusz => PrisonerId::Andrzej,
            PrisonerId::Andrzej => PrisonerId::Janusz,
        }
    }
}

/// A pair of values addressed by `PrisonerId`.
#[derive(Debug, Copy, Clone)]
pub struct PrisonerMap<T> {
    pub andrzej_s: T,
    pub janusz_s: T,
}

impl<T> PrisonerMap<T> {
    /// The value stored for `id`.
    pub open spec fn spec_index(self, id: PrisonerId) -> T {
        match id {
            PrisonerId::Andrzej => self.andrzej_s,
            PrisonerId::Janusz => self.janusz_s,
        }
    }

    pub fn new(andrzej_s: T, janusz_s: T) -> (r: Self)
        ensures
            r.spec_index(PrisonerId::Andrzej) == andrzej_s,
            r.spec_index(PrisonerId::Janusz) == janusz_s,
    {
        Self { andrzej_s, janusz_s }
    }

    pub fn index(&self, index: PrisonerId) -> (r: &T)
        ensures
            *r == self.spec_index(index),
    {
        match index {
            PrisonerId::Andrzej => &self.andrzej_s,
            PrisonerId::Janusz => &self.janusz_s,
        }
    }

    /// Replaces the value stored for `index`.
    pub fn set(&mut self, index: PrisonerId, value: T)
        ensures
            final(self).spec_index(index) == value,
            final(self).spec_index(index.spec_other()) == old(self).spec_index(index.spec_other()),
    {
        match index {
            PrisonerId::Andrzej => {
                self.andrzej_s = value;
            },
            PrisonerId::Janusz => {
                self.janusz_s = value;
            },
        }
    }
}

/// Integer payoff of the prisoner game.
pub type PrisonerReward = i32;

} // verus!
