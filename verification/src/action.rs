//! Drag-and-drop transfer actions and the action negotiator.
//!
//! An action set is a bitset over `{Copy, Move, Ask}`; the empty set means
//! "no transfer possible". The negotiator picks a single effective action
//! from the actions a source advertises and the actions a target prefers.

use vstd::prelude::*;

verus! {

/// A set of drag-and-drop transfer actions.
///
/// The empty set (`DndAction::empty()`) stands for "no action": completing
/// the transfer has no semantic effect and no data should move.
#[derive(Clone, Copy, Debug, PartialEq, Eq, Structural)]
pub struct DndAction {
    /// The receiver gets a copy of the data.
    pub copy: bool,
    /// The receiver gets the data and the source forgets it.
    pub move_: bool,
    /// The user is asked which effect the transfer should have.
    pub ask: bool,
}

impl DndAction {
    /// The empty action set: no transfer possible.
    pub fn empty() -> (r: DndAction)
        ensures
            r == (DndAction { copy: false, move_: false, ask: false }),
    {
        DndAction { copy: false, move_: false, ask: false }
    }

    /// True when the set holds no action at all.
    pub open spec fn spec_is_empty(self) -> bool {
        !self.copy && !self.move_ && !self.ask
    }

    /// True when every action of `other` is also in `self`.
    pub open spec fn spec_contains(self, other: DndAction) -> bool {
        (other.copy ==> self.copy) && (other.move_ ==> self.move_) && (other.ask ==> self.ask)
    }

    /// True when the set denotes exactly one of `{Copy, Move, Ask}`.
    pub open spec fn spec_is_single(self) -> bool {
        ||| self == (DndAction { copy: true, move_: false, ask: false })
        ||| self == (DndAction { copy: false, move_: true, ask: false })
        ||| self == (DndAction { copy: false, move_: false, ask: true })
    }

    /// Membership test, bitset style: all actions of `other` are in `self`.
    pub fn contains(&self, other: &DndAction) -> (r: bool)
        ensures
            r == self.spec_contains(*other),
    {
        (!other.copy || self.copy) && (!other.move_ || self.move_) && (!other.ask || self.ask)
    }

    /// True when the set holds no action at all.
    pub fn is_empty(&self) -> (r: bool)
        ensures
            r == self.spec_is_empty(),
    {
        !self.copy && !self.move_ && !self.ask
    }

    /// True when the set denotes exactly one of `{Copy, Move, Ask}`.
    pub fn is_single(&self) -> (r: bool)
        ensures
            r == self.spec_is_single(),
    {
        (self.copy && !self.move_ && !self.ask) || (!self.copy && self.move_ && !self.ask) || (
        !self.copy && !self.move_ && self.ask)
    }
}

/// The empty action set, for use in specifications.
pub open spec fn empty_action() -> DndAction {
    DndAction { copy: false, move_: false, ask: false }
}

/// What the negotiator returns: the preferred action when it is a single
/// action available at the source, else the first available action in the
/// order `Ask`, `Copy`, `Move`, else the empty action.
pub open spec fn spec_choose_action(available: DndAction, preferred: DndAction) -> DndAction {
    if preferred.spec_is_single() && available.spec_contains(preferred) {
        preferred
    } else if available.ask {
        DndAction { copy: false, move_: false, ask: true }
    } else if available.copy {
        DndAction { copy: true, move_: false, ask: false }
    } else if available.move_ {
        DndAction { copy: false, move_: true, ask: false }
    } else {
        DndAction { copy: false, move_: false, ask: false }
    }
}

/// Pick a single effective transfer action from the actions a source makes
/// `available` and the actions a target declared `preferred`.
///
/// If `preferred` is exactly one action and that action is available, it is
/// chosen. Otherwise the first available action in the order `Ask`, `Copy`,
/// `Move` is chosen; if none is available the empty action is returned. The
/// precedence favours explicit user disambiguation over a silent copy over a
/// silent move, and must not be reordered.
pub fn default_action_chooser(available: DndAction, preferred: DndAction) -> (r: DndAction)
    ensures
        r == spec_choose_action(available, preferred),
{
    if preferred.is_single() && available.contains(&preferred) {
        preferred
    } else if available.ask {
        DndAction { copy: false, move_: false, ask: true }
    } else if available.copy {
        DndAction { copy: true, move_: false, ask: false }
    } else if available.move_ {
        DndAction { copy: false, move_: true, ask: false }
    } else {
        DndAction { copy: false, move_: false, ask: false }
    }
}

/// The negotiator is sound: its result is either the empty action or a
/// member of the available set, and it never falls back to `Move` while
/// `Ask` or `Copy` is available.
pub proof fn lemma_chooser_sound(available: DndAction, preferred: DndAction)
    ensures
        spec_choose_action(available, preferred).spec_is_empty() || available.spec_contains(
            spec_choose_action(available, preferred),
        ),
        !(preferred.spec_is_single() && available.spec_contains(preferred)) && (available.ask
            || available.copy) ==> spec_choose_action(available, preferred) != (DndAction {
            copy: false,
            move_: true,
            ask: false,
        }),
{
}

} // verus!
