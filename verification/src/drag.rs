//! Moving a window with the pointer.

use crate::effect::Effect;
use crate::scene::SurfaceId;
use vstd::prelude::*;

verus! {

/// The state of an interactive move. `O` is the distance from the window's
/// corner to the point where it was grabbed.
#[derive(Debug)]
pub struct Drag<O> {
    /// A client asked to be moved; the move has not begun.
    pub request: Option<SurfaceId>,
    /// The window that follows the pointer, and where it was grabbed.
    pub active: Option<(SurfaceId, O)>,
}

impl<O> Drag<O> {
    /// No window moves and none asked to.
    pub open spec fn idle() -> Drag<O> {
        Drag { request: None, active: None }
    }

    /// A pending request becomes the move; without one nothing changes.
    pub open spec fn begun(self, grab: O) -> Drag<O> {
        match self.request {
            Some(surface) => Drag { request: None, active: Some((surface, grab)) },
            None => self,
        }
    }

    /// The move is over. A request that is still pending stays so.
    pub open spec fn ended(self) -> Drag<O> {
        Drag { active: None, ..self }
    }

    /// A state without a move.
    pub fn new() -> (drag: Drag<O>)
        ensures
            drag == Self::idle(),
    {
        Drag { request: None, active: None }
    }

    /// Lets a pending request become the move; `grab` is where the pointer holds
    /// the window that asked.
    pub fn begin(&mut self, grab: O)
        ensures
            *final(self) == old(self).begun(grab),
    {
        match self.request.take() {
            Some(surface) => {
                self.active = Some((surface, grab));
            },
            None => {},
        }
    }

    /// What a movement of the pointer makes the program do while this is the
    /// state of the move: the window that follows the pointer is moved and drawn
    /// anew, and only with the tiles in their new places is it found out which of
    /// them is under the pointer.
    pub open spec fn follow_effects(self) -> Seq<Effect> {
        match self.active {
            Some((surface, _)) => seq![
                Effect::MoveTile(surface),
                Effect::RequestRedraw,
                Effect::FindFocus,
            ],
            None => seq![Effect::FindFocus],
        }
    }

    /// The pointer moved: a pending request becomes the move, and the window of
    /// the move follows.
    pub fn cursor_moved(&mut self, grab: O) -> (effects: Vec<Effect>)
        ensures
            *final(self) == old(self).begun(grab),
            effects@ == old(self).begun(grab).follow_effects(),
    {
        self.begin(grab);
        match &self.active {
            Some((surface, _)) => vec![
                Effect::MoveTile(*surface),
                Effect::RequestRedraw,
                Effect::FindFocus,
            ],
            None => vec![Effect::FindFocus],
        }
    }

    /// Ends the move.
    pub fn end(&mut self)
        ensures
            *final(self) == old(self).ended(),
    {
        self.active = None;
    }
}

/// A request begins one move: once it has, neither a further movement nor a
/// further press begins another, and the window stays held where it was grabbed.
pub proof fn law_request_begins_one_move<O>(drag: Drag<O>, grab: O, later: O)
    ensures
        drag.begun(grab).begun(later) == drag.begun(grab),
        drag.begun(grab).request is None,
{
}

/// Without a request no move begins.
pub proof fn law_no_move_without_request<O>(drag: Drag<O>, grab: O)
    requires
        drag.request is None,
    ensures
        drag.begun(grab) == drag,
        drag.ended().begun(grab).follow_effects() == seq![Effect::FindFocus],
{
}

/// Every movement looks for the tile under the pointer, once and last: after the
/// window that follows the pointer was moved.
pub proof fn law_focus_is_found_after_the_move<O>(drag: Drag<O>)
    ensures
        drag.follow_effects().last() == Effect::FindFocus,
        forall|i: int|
            0 <= i < drag.follow_effects().len() - 1 ==> drag.follow_effects()[i]
                != Effect::FindFocus,
{
}

/// A request made during a move redirects it: the window that asked last
/// follows the pointer.
pub proof fn law_last_request_moves<O>(drag: Drag<O>, surface: SurfaceId, grab: O)
    requires
        drag.request == Some(surface),
    ensures
        drag.begun(grab).active == Some((surface, grab)),
        drag.begun(grab).follow_effects()[0] == Effect::MoveTile(surface),
{
}

/// A release leaves no window moving and keeps a request that is still pending.
pub proof fn law_end_keeps_the_request<O>(drag: Drag<O>)
    ensures
        drag.ended().active is None,
        drag.ended().request == drag.request,
        Drag::<O>::idle().active is None,
        Drag::<O>::idle().request is None,
{
}

/// A movement of the pointer moves the window of the move, and no other, and has
/// it drawn; without a move it does neither.
pub proof fn law_only_the_held_window_follows<O>(drag: Drag<O>, surface: SurfaceId)
    ensures
        drag.follow_effects().contains(Effect::MoveTile(surface)) <==> (drag.active matches Some(
            held,
        ) && held.0 == surface),
        drag.follow_effects().contains(Effect::RequestRedraw) <==> drag.active is Some,
        drag.follow_effects().len() == (if drag.active is Some {
            3nat
        } else {
            1nat
        }),
        drag.active is Some ==> drag.follow_effects()[0] is MoveTile,
{
    let effects = drag.follow_effects();
    if let Some((held, _)) = drag.active {
        assert(effects[0] == Effect::MoveTile(held));
        assert(effects[1] == Effect::RequestRedraw);
    }
}

} // verus!
