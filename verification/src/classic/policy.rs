//! Fixed strategies over classic actions.

use vstd::prelude::*;
use crate::classic::domain::ClassicAction;

verus! {

/// A pure strategy: it plays its configured action on every turn,
/// whatever the information set says.
pub struct ClassicPureStrategy {
    pub action: ClassicAction,
}

impl ClassicPureStrategy {
    pub fn new(action: ClassicAction) -> (r: Self)
        ensures
            r.action == action,
    {
        Self { action }
    }

    pub fn select_action<IS>(&self, _state: &IS) -> (r: Option<ClassicAction>)
        ensures
            r == Some(self.action),
    {
        Some(self.action)
    }
}

} // verus!
