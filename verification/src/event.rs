//! Events of the host toolkit, by category, and what a widget answers.
use vstd::prelude::*;

verus! {

/// Whether a widget kept an input event to itself.
#[derive(Clone, Copy, Debug, PartialEq, Eq, Structural)]
pub enum Status {
    /// The event was not handled and may reach other widgets.
    Ignored,
    /// The event was handled and must not reach other widgets.
    Captured,
}

/// An event of the host toolkit. Keyboard and pointer events carry the
/// toolkit's own description of what happened; of the other categories only
/// the category is kept, since a chart never sees them.
#[derive(Debug, PartialEq)]
pub enum HostEvent {
    /// A keyboard event.
    Keyboard(iced_core::keyboard::Event),
    /// A pointer event.
    Mouse(iced_core::mouse::Event),
    /// A window event.
    Window,
    /// A touch event.
    Touch,
    /// An input method event.
    InputMethod,
}

impl Clone for HostEvent {
    /// A copy that equals the event.
    fn clone(&self) -> (copy: Self)
        ensures
            copy == *self,
    {
        match self {
            HostEvent::Keyboard(keyboard_event) => HostEvent::Keyboard(keyboard_event.clone()),
            HostEvent::Mouse(mouse_event) => HostEvent::Mouse(*mouse_event),
            HostEvent::Window => HostEvent::Window,
            HostEvent::Touch => HostEvent::Touch,
            HostEvent::InputMethod => HostEvent::InputMethod,
        }
    }
}

impl HostEvent {
    /// True of keyboard and pointer events, the two categories that a chart
    /// takes part in.
    pub open spec fn is_input(self) -> bool {
        self is Keyboard || self is Mouse
    }

    /// The event as a chart receives it: the event itself where it is a
    /// keyboard or pointer event, nothing otherwise.
    pub open spec fn forwarded(self) -> Option<HostEvent> {
        if self.is_input() {
            Some(self)
        } else {
            None
        }
    }

    /// Picks out the events that are handed on to a chart.
    pub fn canvas_event(&self) -> (forwarded: Option<HostEvent>)
        ensures
            forwarded == self.forwarded(),
    {
        match self {
            HostEvent::Mouse(mouse_event) => Some(HostEvent::Mouse(*mouse_event)),
            HostEvent::Keyboard(keyboard_event) => Some(
                HostEvent::Keyboard(keyboard_event.clone()),
            ),
            _ => None,
        }
    }
}

} // verus!
