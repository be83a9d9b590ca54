//! The screen state machine: which screen is active, and the transitions
//! that gameplay requests.

use vstd::prelude::*;

verus! {

/// The screens of the game.
#[derive(Clone, Copy, Debug, PartialEq, Eq, Structural, Hash)]
pub enum AppState {
    MainMenu,
    FallingGame,
    GameOver,
    GameEnd,
    CutScene,
}

/// A change of screen: the exit hooks of `from` run, then the enter hooks of
/// `to`.
#[derive(Clone, Copy, Debug, PartialEq, Eq, Structural)]
pub struct Transition {
    pub from: AppState,
    pub to: AppState,
}

/// Holds the active screen.
#[derive(Clone, Copy, Debug, PartialEq, Eq, Structural)]
pub struct SceneController {
    pub current: AppState,
}

/// The screen after a request for `target` on `current`, and the transition
/// that the request causes, if any.
pub open spec fn spec_request(current: AppState, target: AppState) -> (AppState, Option<Transition>) {
    if current == target {
        (current, None)
    } else {
        (target, Some(Transition { from: current, to: target }))
    }
}

impl SceneController {
    pub fn new(initial: AppState) -> (r: SceneController)
        ensures
            r.current == initial,
    {
        SceneController { current: initial }
    }

    pub fn current(&self) -> (r: AppState)
        ensures
            r == self.current,
    {
        self.current
    }

    /// Asks for the screen `target`. Nothing happens when it is already
    /// active; otherwise it becomes active and the transition is returned,
    /// for the caller to run the lifecycle hooks of both screens.
    pub fn request(&mut self, target: AppState) -> (r: Option<Transition>)
        ensures
            (final(self).current, r) == spec_request(old(self).current, target),
            r.is_none() <==> old(self).current == target,
    {
        if self.current == target {
            None
        } else {
            let from = self.current;
            self.current = target;
            Some(Transition { from, to: target })
        }
    }
}

/// Requesting the same screen twice in a row has the effect of requesting it
/// once: the second request leaves the screen as it is and causes no
/// transition, so no screen is entered twice.
pub proof fn lemma_request_idempotent(current: AppState, target: AppState)
    ensures
        spec_request(spec_request(current, target).0, target) == (
            spec_request(current, target).0,
            None::<Transition>,
        ),
        spec_request(current, target).0 == target,
{
}

} // verus!
