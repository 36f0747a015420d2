//! A push button of the user interface that raises an event when
//! clicked.
//!
//! The interface toolkit around it (layout solving, themes, drawing)
//! works on float geometry and stays outside the crate; the button's
//! own state and click behaviour are plain values and live here.

use vstd::prelude::*;

verus! {

/// An event the interface hands to the input layer, by event code.
#[derive(Clone, Copy, PartialEq, Eq, Structural, Debug)]
pub struct UserEvent {
    pub code: u64,
}

/// What a click on an element asks the interface to do.
#[derive(Clone, Copy, PartialEq, Eq, Structural, Debug)]
pub enum ClickAction {
    Event(UserEvent),
}

/// Per-element interface state: the element's resolved placement, as a
/// handle into the layout solver's float geometry, or nothing before
/// the first layout pass.
#[derive(Clone, Copy, PartialEq, Eq, Structural, Debug)]
pub struct ElementState {
    pub placement_ref: Option<u64>,
}

impl Default for ElementState {
    /// The state of an element that has not been laid out yet.
    fn default() -> (result: ElementState)
        ensures
            result.placement_ref is None,
    {
        ElementState { placement_ref: None }
    }
}

/// A labelled button that raises a fixed user event when clicked.
pub struct EventButton {
    pub display: String,
    pub user_event: UserEvent,
    pub state: ElementState,
}

impl EventButton {
    pub fn new(display: String, user_event: UserEvent) -> (result: EventButton)
        ensures
            result.display == display,
            result.user_event == user_event,
            result.state.placement_ref is None,
    {
        EventButton { display, user_event, state: ElementState::default() }
    }

    pub fn get_state(&self) -> (result: &ElementState)
        ensures
            *result == self.state,
    {
        &self.state
    }

    pub fn get_state_mut(&mut self) -> (result: &mut ElementState)
        ensures
            *result == old(self).state,
            *final(self) == (EventButton { state: *final(result), ..*old(self) }),
    {
        &mut self.state
    }

    /// A left click always raises the button's event; the
    /// force-update flag and the button itself are untouched.
    pub fn left_click(&mut self, force_update: &mut bool) -> (result: Option<ClickAction>)
        ensures
            result == Some(ClickAction::Event(old(self).user_event)),
            *final(self) == *old(self),
            *final(force_update) == *old(force_update),
    {
        Some(ClickAction::Event(self.user_event))
    }
}

} // verus!
