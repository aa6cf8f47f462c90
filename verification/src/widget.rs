//! The chart widget: a chart with its presentation settings, and what the
//! host's widget calls come to on it.
use vstd::prelude::*;
use std::marker::PhantomData;
use crate::chart::Chart;
use crate::event::{HostEvent, Status};
use crate::sizing::{Dimensions, Sizing};
use crate::toolkit::{
    bounds_of, capture_event, default_shaping, holds_capture, holds_message, layout_bounds, leaf,
    leaf_of, publish, resolve, resolved,
};

verus! {

/// What a chart widget is: the chart it shows and how it is presented.
pub struct Configuration<C> {
    pub chart: C,
    pub width: Sizing,
    pub height: Sizing,
    pub shaping: iced_core::text::Shaping,
}

impl<C> Configuration<C> {
    /// The same configuration with another width.
    pub open spec fn with_width(self, width: Sizing) -> Self {
        Configuration { width, ..self }
    }

    /// The same configuration with another height.
    pub open spec fn with_height(self, height: Sizing) -> Self {
        Configuration { height, ..self }
    }

    /// The same configuration with another text shaping.
    pub open spec fn with_shaping(self, shaping: iced_core::text::Shaping) -> Self {
        Configuration { shaping, ..self }
    }

    /// The size that the widget declares to the host.
    pub open spec fn dimensions(self) -> Dimensions {
        Dimensions { width: self.width, height: self.height }
    }

    /// Of two widths set in a row the later one stands, and it is the width
    /// that the widget declares. Setting the same width twice is setting it
    /// once.
    pub proof fn lemma_last_width_stands(self, first: Sizing, last: Sizing)
        ensures
            self.with_width(first).with_width(last) == self.with_width(last),
            self.with_width(last).with_width(last) == self.with_width(last),
            self.with_width(last).dimensions().width == last,
    {
    }

    /// Of two heights set in a row the later one stands, and it is the
    /// height that the widget declares. Setting the same height twice is
    /// setting it once.
    pub proof fn lemma_last_height_stands(self, first: Sizing, last: Sizing)
        ensures
            self.with_height(first).with_height(last) == self.with_height(last),
            self.with_height(last).with_height(last) == self.with_height(last),
            self.with_height(last).dimensions().height == last,
    {
    }

    /// Of two text shapings set in a row the later one stands. Setting the
    /// same shaping twice is setting it once.
    pub proof fn lemma_last_shaping_stands(
        self,
        first: iced_core::text::Shaping,
        last: iced_core::text::Shaping,
    )
        ensures
            self.with_shaping(first).with_shaping(last) == self.with_shaping(last),
            self.with_shaping(last).with_shaping(last) == self.with_shaping(last),
            self.with_shaping(last).shaping == last,
    {
    }

    /// The node that the widget is laid out as depends on the space on offer
    /// and on the declared size alone: two configurations that declare the
    /// same size are laid out alike, whatever their charts and shapings.
    pub proof fn lemma_layout_ignores_chart<D>(
        self,
        other: Configuration<D>,
        limits: iced_core::layout::Limits,
    )
        requires
            self.dimensions() == other.dimensions(),
        ensures
            leaf_of(resolved(limits, self.width, self.height)) == leaf_of(
                resolved(limits, other.width, other.height),
            ),
    {
    }

    /// Each setting is kept apart from the others: setting the width, the
    /// height and the shaping in any order gives the same configuration, and
    /// none of them touches the chart or the declared size in the other
    /// dimension.
    pub proof fn lemma_settings_are_independent(
        self,
        width: Sizing,
        height: Sizing,
        shaping: iced_core::text::Shaping,
    )
        ensures
            self.with_width(width).with_height(height) == self.with_height(height).with_width(
                width,
            ),
            self.with_width(width).with_shaping(shaping) == self.with_shaping(shaping).with_width(
                width,
            ),
            self.with_height(height).with_shaping(shaping) == self.with_shaping(
                shaping,
            ).with_height(height),
            self.with_width(width).with_height(height).with_shaping(shaping).dimensions()
                == (Dimensions { width, height }),
            self.with_width(width).dimensions().height == self.height,
            self.with_height(height).dimensions().width == self.width,
            self.with_shaping(shaping).dimensions() == self.dimensions(),
            self.with_width(width).with_height(height).with_shaping(shaping).chart == self.chart,
    {
    }
}

/// What a widget owes the host after an event: whether the event is consumed,
/// and a message for the application if there is one.
pub struct Reaction<Message> {
    pub status: Status,
    pub message: Option<Message>,
}

/// Chart container, turns a [`Chart`] into a widget.
pub struct ChartWidget<'a, Message, C> where C: Chart<Message> + 'a {
    chart: C,
    width: Sizing,
    height: Sizing,
    shaping: iced_core::text::Shaping,
    _marker: PhantomData<&'a Message>,
}

impl<'a, Message, C> View for ChartWidget<'a, Message, C> where C: Chart<Message> + 'a {
    type V = Configuration<C>;

    closed spec fn view(&self) -> Configuration<C> {
        Configuration {
            chart: self.chart,
            width: self.width,
            height: self.height,
            shaping: self.shaping,
        }
    }
}

impl<'a, Message, C> ChartWidget<'a, Message, C> where C: Chart<Message> + 'a {
    /// Creates a widget that shows `chart` and fills the space it is given.
    /// The text shaping is the toolkit's default.
    pub fn new(chart: C) -> (widget: Self)
        ensures
            widget@.chart == chart,
            widget@.dimensions() == (Dimensions { width: Sizing::Fill, height: Sizing::Fill }),
            call_ensures(<iced_core::text::Shaping as Default>::default, (), widget@.shaping),
    {
        Self {
            chart,
            width: Sizing::Fill,
            height: Sizing::Fill,
            shaping: default_shaping(),
            _marker: PhantomData,
        }
    }

    /// Sets the width.
    pub fn width(self, width: Sizing) -> (widget: Self)
        ensures
            widget@ == self@.with_width(width),
    {
        let mut widget = self;
        widget.width = width;
        widget
    }

    /// Sets the height.
    pub fn height(self, height: Sizing) -> (widget: Self)
        ensures
            widget@ == self@.with_height(height),
    {
        let mut widget = self;
        widget.height = height;
        widget
    }

    /// Sets the text shaping.
    pub fn text_shaping(self, shaping: iced_core::text::Shaping) -> (widget: Self)
        ensures
            widget@ == self@.with_shaping(shaping),
    {
        let mut widget = self;
        widget.shaping = shaping;
        widget
    }

    /// The chart that the widget shows.
    pub fn chart(&self) -> (chart: &C)
        ensures
            *chart == self@.chart,
    {
        &self.chart
    }

    /// The text shaping that the chart is drawn with.
    pub fn shaping(&self) -> (shaping: iced_core::text::Shaping)
        ensures
            shaping == self@.shaping,
    {
        self.shaping
    }

    /// The size that the widget declares to the host: its width and height
    /// as they were last set.
    pub fn size(&self) -> (size: Dimensions)
        ensures
            size == self@.dimensions(),
    {
        Dimensions { width: self.width, height: self.height }
    }

    /// The state that the host keeps for a widget that joins the tree: the
    /// default of the chart's state type, whatever the widget's settings.
    pub fn state(&self) -> (state: C::State)
        ensures
            call_ensures(<C::State as Default>::default, (), state),
    {
        C::State::default()
    }

    /// Resolves the configured width and height against the space on offer
    /// and gives a node of that size without children. The node depends on
    /// the limits, the width and the height alone: the chart is not
    /// consulted.
    pub fn layout(&self, limits: &iced_core::layout::Limits) -> (node: iced_core::layout::Node)
        ensures
            node == leaf_of(resolved(*limits, self@.width, self@.height)),
    {
        let size = resolve(limits, self.width, self.height);
        leaf(size)
    }

    /// Hands an event to the chart if it is a keyboard or pointer event, and
    /// says what the chart answered. Any other event leaves the state as it
    /// was, is not consumed and yields no message.
    pub fn respond(
        &self,
        state: &mut C::State,
        event: &HostEvent,
        bounds: iced_core::Rectangle,
        cursor: iced_core::mouse::Cursor,
    ) -> (reaction: Reaction<Message>)
        ensures
            match event.forwarded() {
                Some(input) => self@.chart.reacts(
                    *old(state),
                    input,
                    bounds,
                    cursor,
                    *final(state),
                    reaction.status,
                    reaction.message,
                ),
                None => *final(state) == *old(state) && reaction.status == Status::Ignored
                    && reaction.message is None,
            },
    {
        match event.canvas_event() {
            Some(canvas_event) => {
                let (status, message) = self.chart.update(state, canvas_event, bounds, cursor);
                Reaction { status, message }
            },
            None => Reaction { status: Status::Ignored, message: None },
        }
    }

    /// Reacts to an event of the host: a keyboard or pointer event goes to
    /// the chart once, with the widget's bounds and the cursor. The shell
    /// holds a message afterwards if and only if the chart answered with one
    /// or the shell held one before, and its event is captured if and only
    /// if the chart captured it or it was captured before; where the chart
    /// does neither the shell stays as it was. Any other event changes
    /// neither the state nor the shell.
    pub fn update(
        &self,
        state: &mut C::State,
        event: &HostEvent,
        layout: iced_core::Layout<'_>,
        cursor: iced_core::mouse::Cursor,
        shell: &mut iced_core::Shell<'_, Message>,
    )
        ensures
            match event.forwarded() {
                Some(input) => exists|status: Status, message: Option<Message>|
                    {
                        &&& self@.chart.reacts(
                            *old(state),
                            input,
                            bounds_of(layout),
                            cursor,
                            *final(state),
                            status,
                            message,
                        )
                        &&& status == Status::Ignored && message is None ==> *final(shell) == *old(
                            shell,
                        )
                        &&& holds_message(*final(shell)) == (message is Some || holds_message(
                            *old(shell),
                        ))
                        &&& holds_capture(*final(shell)) == (status == Status::Captured
                            || holds_capture(*old(shell)))
                    },
                None => *final(state) == *old(state) && *final(shell) == *old(shell),
            },
    {
        let bounds = layout_bounds(layout);
        let reaction = self.respond(state, event, bounds, cursor);
        let ghost status = reaction.status;
        let ghost message = reaction.message;
        deliver(reaction, shell);
        proof {
            if let Some(input) = event.forwarded() {
                assert(self@.chart.reacts(
                    *old(state),
                    input,
                    bounds_of(layout),
                    cursor,
                    *state,
                    status,
                    message,
                ) && (status == Status::Ignored && message is None ==> *shell == *old(shell)) && (
                holds_message(*shell) == (message is Some || holds_message(*old(shell)))) && (
                holds_capture(*shell) == (status == Status::Captured || holds_capture(
                    *old(shell),
                ))));
            }
        }
    }

    /// The pointer icon that the chart asks for at the given cursor.
    pub fn mouse_interaction(
        &self,
        state: &C::State,
        layout: iced_core::Layout<'_>,
        cursor: iced_core::mouse::Cursor,
    ) -> (interaction: iced_core::mouse::Interaction)
        ensures
            self@.chart.hints(*state, bounds_of(layout), cursor, interaction),
    {
        let bounds = layout_bounds(layout);
        self.chart.mouse_interaction(state, bounds, cursor)
    }
}

/// Passes a reaction on to the shell: publishes the message if there is one,
/// and marks the event as captured if the reaction says so. The shell holds
/// a message afterwards if and only if the reaction brought one or the shell
/// held one before, and its event is captured if and only if the reaction
/// captures or it was captured before. A reaction that neither holds a
/// message nor captures leaves the shell as it was.
pub fn deliver<Message>(reaction: Reaction<Message>, shell: &mut iced_core::Shell<'_, Message>)
    ensures
        reaction.message is None && reaction.status == Status::Ignored ==> *final(shell) == *old(
            shell,
        ),
        holds_message(*final(shell)) == (reaction.message is Some || holds_message(*old(shell))),
        holds_capture(*final(shell)) == (reaction.status == Status::Captured || holds_capture(
            *old(shell),
        )),
{
    if let Some(message) = reaction.message {
        publish(shell, message);
    }
    match reaction.status {
        Status::Captured => capture_event(shell),
        Status::Ignored => {},
    }
}

} // verus!
