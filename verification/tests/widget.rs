use std::cell::Cell;

use chart_widget::chart::Chart;
use chart_widget::event::{HostEvent, Status};
use chart_widget::sizing::{Dimensions, Sizing};
use chart_widget::widget::{deliver, ChartWidget, Reaction};
use iced_core::layout::{Limits, Node};
use iced_core::mouse::{Button, Cursor, Interaction};
use iced_core::text::Shaping;
use iced_core::{keyboard, mouse, Layout, Pixels, Point, Rectangle, Shell, Size};

/// A chart that answers every event the same way, counts the calls in its
/// state and in itself, and remembers the bounds it was last given.
struct Stub {
    status: Status,
    message: Option<u32>,
    calls: Cell<u32>,
    seen: Cell<Option<Rectangle>>,
}

impl Stub {
    fn new(status: Status, message: Option<u32>) -> Self {
        Stub { status, message, calls: Cell::new(0), seen: Cell::new(None) }
    }
}

impl Chart<u32> for Stub {
    type State = u32;

    fn update(
        &self,
        state: &mut u32,
        _event: HostEvent,
        bounds: Rectangle,
        _cursor: Cursor,
    ) -> (Status, Option<u32>) {
        *state += 1;
        self.calls.set(self.calls.get() + 1);
        self.seen.set(Some(bounds));
        (self.status, self.message)
    }

    fn mouse_interaction(&self, state: &u32, _bounds: Rectangle, cursor: Cursor) -> Interaction {
        if *state > 0 && cursor.position().is_some() {
            Interaction::Crosshair
        } else {
            Interaction::Idle
        }
    }
}

fn left_click() -> HostEvent {
    HostEvent::Mouse(mouse::Event::ButtonPressed(Button::Left))
}

fn modifiers_changed() -> HostEvent {
    HostEvent::Keyboard(keyboard::Event::ModifiersChanged(keyboard::Modifiers::SHIFT))
}

fn cursor() -> Cursor {
    Cursor::Available(Point::new(3.0, 4.0))
}

fn node() -> Node {
    Node::new(Size::new(120.0, 80.0))
}

#[test]
fn default_size_is_fill_fill() {
    let widget = ChartWidget::new(Stub::new(Status::Ignored, None));
    assert_eq!(widget.size(), Dimensions { width: Sizing::Fill, height: Sizing::Fill });
}

#[test]
fn default_shaping_is_the_toolkits() {
    let widget = ChartWidget::new(Stub::new(Status::Ignored, None));
    assert_eq!(widget.shaping(), Shaping::default());
}

#[test]
fn new_keeps_the_chart() {
    let widget = ChartWidget::new(Stub::new(Status::Captured, Some(7)));
    assert_eq!(widget.chart().status, Status::Captured);
    assert_eq!(widget.chart().message, Some(7));
}

#[test]
fn size_is_what_was_last_set() {
    let widget = ChartWidget::new(Stub::new(Status::Ignored, None))
        .width(Sizing::Fixed(Pixels(200.0)))
        .height(Sizing::Shrink)
        .width(Sizing::FillPortion(3))
        .height(Sizing::Fixed(Pixels(40.0)));
    assert_eq!(
        widget.size(),
        Dimensions { width: Sizing::FillPortion(3), height: Sizing::Fixed(Pixels(40.0)) }
    );
}

#[test]
fn setting_one_dimension_keeps_the_other() {
    let widget = ChartWidget::new(Stub::new(Status::Ignored, None)).width(Sizing::Shrink);
    assert_eq!(widget.size(), Dimensions { width: Sizing::Shrink, height: Sizing::Fill });
    let widget = widget.height(Sizing::FillPortion(2));
    assert_eq!(
        widget.size(),
        Dimensions { width: Sizing::Shrink, height: Sizing::FillPortion(2) }
    );
}

#[test]
fn shaping_is_what_was_last_set() {
    let widget = ChartWidget::new(Stub::new(Status::Ignored, None))
        .text_shaping(Shaping::Basic)
        .text_shaping(Shaping::Advanced)
        .width(Sizing::Shrink);
    assert_eq!(widget.shaping(), Shaping::Advanced);
    assert_eq!(widget.size(), Dimensions { width: Sizing::Shrink, height: Sizing::Fill });
}

#[test]
fn initial_state_is_the_default() {
    let widget = ChartWidget::new(Stub::new(Status::Ignored, None));
    assert_eq!(widget.state(), 0);
}

#[test]
fn initial_state_does_not_depend_on_the_settings() {
    let widget = ChartWidget::new(Stub::new(Status::Captured, Some(3)))
        .width(Sizing::Shrink)
        .height(Sizing::FillPortion(2))
        .text_shaping(Shaping::Advanced);
    assert_eq!(widget.state(), u32::default());
    assert_eq!(widget.state(), 0);
}

#[test]
fn capture_alone_keeps_an_earlier_message() {
    let mut messages: Vec<u32> = Vec::new();
    {
        let mut shell = Shell::new(&mut messages);
        deliver(Reaction { status: Status::Ignored, message: Some(7) }, &mut shell);
        deliver(Reaction { status: Status::Captured, message: None }, &mut shell);
        assert!(!shell.is_empty());
        assert!(shell.is_event_captured());
    }
    assert_eq!(messages, vec![7]);
}

#[test]
fn canvas_event_keeps_pointer_and_keyboard_events() {
    assert_eq!(left_click().canvas_event(), Some(left_click()));
    assert_eq!(modifiers_changed().canvas_event(), Some(modifiers_changed()));
}

#[test]
fn canvas_event_drops_the_other_categories() {
    assert_eq!(HostEvent::Window.canvas_event(), None);
    assert_eq!(HostEvent::Touch.canvas_event(), None);
    assert_eq!(HostEvent::InputMethod.canvas_event(), None);
}

#[test]
fn left_click_publishes_the_message_and_captures() {
    let widget = ChartWidget::new(Stub::new(Status::Captured, Some(42)));
    let mut state = widget.state();
    let mut messages: Vec<u32> = Vec::new();
    let node = node();
    {
        let mut shell = Shell::new(&mut messages);
        widget.update(&mut state, &left_click(), Layout::new(&node), cursor(), &mut shell);
        assert!(shell.is_event_captured());
        assert!(!shell.is_empty());
    }
    assert_eq!(messages, vec![42]);
    assert_eq!(widget.chart().calls.get(), 1);
    assert_eq!(state, 1);
}

#[test]
fn keyboard_event_reaches_the_chart_once() {
    let widget = ChartWidget::new(Stub::new(Status::Ignored, None));
    let mut state = widget.state();
    let mut messages: Vec<u32> = Vec::new();
    let node = node();
    {
        let mut shell = Shell::new(&mut messages);
        widget.update(&mut state, &modifiers_changed(), Layout::new(&node), cursor(), &mut shell);
        assert!(!shell.is_event_captured());
        assert!(shell.is_empty());
    }
    assert!(messages.is_empty());
    assert_eq!(widget.chart().calls.get(), 1);
}

#[test]
fn message_without_capture_is_published_only() {
    let widget = ChartWidget::new(Stub::new(Status::Ignored, Some(5)));
    let mut state = 0;
    let mut messages: Vec<u32> = Vec::new();
    let node = node();
    {
        let mut shell = Shell::new(&mut messages);
        widget.update(&mut state, &left_click(), Layout::new(&node), cursor(), &mut shell);
        assert!(!shell.is_event_captured());
        assert!(!shell.is_empty());
    }
    assert_eq!(messages, vec![5]);
}

#[test]
fn capture_without_message_publishes_nothing() {
    let widget = ChartWidget::new(Stub::new(Status::Captured, None));
    let mut state = 0;
    let mut messages: Vec<u32> = Vec::new();
    let node = node();
    {
        let mut shell = Shell::new(&mut messages);
        widget.update(&mut state, &left_click(), Layout::new(&node), cursor(), &mut shell);
        assert!(shell.is_event_captured());
    }
    assert!(messages.is_empty());
}

#[test]
fn other_events_never_reach_the_chart() {
    let widget = ChartWidget::new(Stub::new(Status::Captured, Some(42)));
    let mut state = 9;
    let mut messages: Vec<u32> = Vec::new();
    let node = node();
    {
        let mut shell = Shell::new(&mut messages);
        for event in [HostEvent::Window, HostEvent::Touch, HostEvent::InputMethod] {
            widget.update(&mut state, &event, Layout::new(&node), cursor(), &mut shell);
        }
        assert!(!shell.is_event_captured());
        assert!(shell.is_empty());
    }
    assert!(messages.is_empty());
    assert_eq!(widget.chart().calls.get(), 0);
    assert_eq!(state, 9);
}

#[test]
fn state_is_kept_between_events() {
    let widget = ChartWidget::new(Stub::new(Status::Ignored, None));
    let mut state = widget.state();
    let mut messages: Vec<u32> = Vec::new();
    let node = node();
    let mut shell = Shell::new(&mut messages);
    widget.update(&mut state, &left_click(), Layout::new(&node), cursor(), &mut shell);
    widget.update(&mut state, &HostEvent::Window, Layout::new(&node), cursor(), &mut shell);
    widget.update(&mut state, &modifiers_changed(), Layout::new(&node), cursor(), &mut shell);
    assert_eq!(state, 2);
    assert_eq!(widget.chart().calls.get(), 2);
}

#[test]
fn the_chart_is_given_the_layouts_bounds() {
    let widget = ChartWidget::new(Stub::new(Status::Ignored, None));
    let mut state = 0;
    let mut messages: Vec<u32> = Vec::new();
    let node = node();
    let mut shell = Shell::new(&mut messages);
    widget.update(&mut state, &left_click(), Layout::new(&node), cursor(), &mut shell);
    assert_eq!(
        widget.chart().seen.get(),
        Some(Rectangle { x: 0.0, y: 0.0, width: 120.0, height: 80.0 })
    );
}

#[test]
fn respond_hands_back_what_the_chart_answered() {
    let widget = ChartWidget::new(Stub::new(Status::Captured, Some(11)));
    let mut state = 0;
    let bounds = Rectangle { x: 1.0, y: 2.0, width: 30.0, height: 40.0 };
    let reaction = widget.respond(&mut state, &left_click(), bounds, cursor());
    assert_eq!(reaction.status, Status::Captured);
    assert_eq!(reaction.message, Some(11));
    assert_eq!(state, 1);
    assert_eq!(widget.chart().seen.get(), Some(bounds));
}

#[test]
fn respond_ignores_other_events() {
    let widget = ChartWidget::new(Stub::new(Status::Captured, Some(11)));
    let mut state = 4;
    let bounds = Rectangle { x: 1.0, y: 2.0, width: 30.0, height: 40.0 };
    let reaction = widget.respond(&mut state, &HostEvent::Touch, bounds, cursor());
    assert_eq!(reaction.status, Status::Ignored);
    assert_eq!(reaction.message, None);
    assert_eq!(state, 4);
    assert_eq!(widget.chart().calls.get(), 0);
}

#[test]
fn deliver_publishes_and_captures() {
    let mut messages: Vec<u32> = Vec::new();
    {
        let mut shell = Shell::new(&mut messages);
        deliver(Reaction { status: Status::Ignored, message: None }, &mut shell);
        assert!(shell.is_empty());
        assert!(!shell.is_event_captured());
        deliver(Reaction { status: Status::Ignored, message: Some(1) }, &mut shell);
        assert!(!shell.is_empty());
        assert!(!shell.is_event_captured());
        deliver(Reaction { status: Status::Captured, message: Some(2) }, &mut shell);
        assert!(!shell.is_empty());
        assert!(shell.is_event_captured());
    }
    assert_eq!(messages, vec![1, 2]);
}

#[test]
fn layout_fills_the_space_on_offer() {
    let widget = ChartWidget::new(Stub::new(Status::Ignored, None));
    let limits = Limits::new(Size::new(10.0, 20.0), Size::new(300.0, 200.0));
    let node = widget.layout(&limits);
    assert_eq!(node.size(), Size::new(300.0, 200.0));
    assert!(node.children().is_empty());
}

#[test]
fn layout_takes_a_fixed_size_within_the_limits() {
    let limits = Limits::new(Size::new(10.0, 20.0), Size::new(300.0, 200.0));
    let widget = ChartWidget::new(Stub::new(Status::Ignored, None))
        .width(Sizing::Fixed(Pixels(50.0)))
        .height(Sizing::Fixed(Pixels(500.0)));
    assert_eq!(widget.layout(&limits).size(), Size::new(50.0, 200.0));
    let widget = widget.width(Sizing::Fixed(Pixels(1.0))).height(Sizing::FillPortion(2));
    assert_eq!(widget.layout(&limits).size(), Size::new(10.0, 200.0));
}

#[test]
fn layout_shrinks_to_the_minimum() {
    let limits = Limits::new(Size::new(10.0, 20.0), Size::new(300.0, 200.0));
    let widget = ChartWidget::new(Stub::new(Status::Ignored, None))
        .width(Sizing::Shrink)
        .height(Sizing::Shrink);
    assert_eq!(widget.layout(&limits).size(), Size::new(10.0, 20.0));
}

#[test]
fn layout_stays_within_the_limits() {
    let limits = Limits::new(Size::new(10.0, 20.0), Size::new(300.0, 200.0));
    let lengths = [
        Sizing::Fill,
        Sizing::FillPortion(4),
        Sizing::Shrink,
        Sizing::Fixed(Pixels(0.0)),
        Sizing::Fixed(Pixels(150.0)),
        Sizing::Fixed(Pixels(1000.0)),
    ];
    for width in lengths {
        for height in lengths {
            let widget =
                ChartWidget::new(Stub::new(Status::Ignored, None)).width(width).height(height);
            let size = widget.layout(&limits).size();
            assert!(10.0 <= size.width && size.width <= 300.0);
            assert!(20.0 <= size.height && size.height <= 200.0);
        }
    }
}

#[test]
fn mouse_interaction_is_the_charts() {
    let widget = ChartWidget::new(Stub::new(Status::Ignored, None));
    let node = node();
    assert_eq!(widget.mouse_interaction(&0, Layout::new(&node), cursor()), Interaction::Idle);
    assert_eq!(widget.mouse_interaction(&1, Layout::new(&node), cursor()), Interaction::Crosshair);
    assert_eq!(
        widget.mouse_interaction(&1, Layout::new(&node), Cursor::Unavailable),
        Interaction::Idle
    );
}

#[test]
fn a_cloned_event_equals_the_event() {
    assert_eq!(left_click().clone(), left_click());
    assert_eq!(modifiers_changed().clone(), modifiers_changed());
    assert_eq!(HostEvent::Window.clone(), HostEvent::Window);
    assert_eq!(HostEvent::Touch.clone(), HostEvent::Touch);
    assert_eq!(HostEvent::InputMethod.clone(), HostEvent::InputMethod);
    assert_ne!(left_click().clone(), modifiers_changed());
}
