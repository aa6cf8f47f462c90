//! What a chart offers to the widget that hosts it.
use vstd::prelude::*;
use crate::event::{HostEvent, Status};

verus! {

/// A chart that can sit in a widget tree. The chart owns its data and its
/// interaction logic; the widget only hands events and queries on to it.
///
/// The two relations describe what an implementation does, and the widget's
/// contracts are stated over them. An implementation that says nothing of
/// itself keeps the defaults, which allow every answer.
pub trait Chart<Message> {
    /// What the host keeps for one widget instance between frames.
    type State: Default;

    /// Holds where `update`, called on `before`, may leave `after` behind and
    /// answer with `status` and `message`.
    open spec fn reacts(
        &self,
        before: Self::State,
        event: HostEvent,
        bounds: iced_core::Rectangle,
        cursor: iced_core::mouse::Cursor,
        after: Self::State,
        status: Status,
        message: Option<Message>,
    ) -> bool {
        true
    }

    /// Holds where `mouse_interaction` may answer with `interaction`.
    open spec fn hints(
        &self,
        state: Self::State,
        bounds: iced_core::Rectangle,
        cursor: iced_core::mouse::Cursor,
        interaction: iced_core::mouse::Interaction,
    ) -> bool {
        true
    }

    /// Reacts to a keyboard or pointer event: may change the state, says
    /// whether the event was consumed, and may produce a message for the
    /// application.
    fn update(
        &self,
        state: &mut Self::State,
        event: HostEvent,
        bounds: iced_core::Rectangle,
        cursor: iced_core::mouse::Cursor,
    ) -> (answer: (Status, Option<Message>))
        ensures
            self.reacts(*old(state), event, bounds, cursor, *final(state), answer.0, answer.1),
    ;

    /// The pointer icon to show for the given cursor.
    fn mouse_interaction(
        &self,
        state: &Self::State,
        bounds: iced_core::Rectangle,
        cursor: iced_core::mouse::Cursor,
    ) -> (interaction: iced_core::mouse::Interaction)
        ensures
            self.hints(*state, bounds, cursor, interaction),
    ;
}

} // verus!
