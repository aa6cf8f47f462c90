//! The toolkit's own types and calls, as far as the chart widget needs them.
//!
//! Nothing in this file is proved. Each type is carried through as an opaque
//! value, and each function states at most what the toolkit's source shows.
//! Where a result depends on the arguments alone it has a name, so that the
//! widget's contracts can say which call a value came from.
use vstd::prelude::*;
use crate::sizing::Sizing;

verus! {

/// A fixed amount of screen space, `iced_core::Pixels`.
#[verifier::external_type_specification]
#[verifier::external_body]
pub struct ExPixels(iced_core::Pixels);

/// Two measures of one kind, `iced_core::Size`.
#[verifier::external_type_specification]
#[verifier::external_body]
#[verifier::reject_recursive_types(T)]
pub struct ExSize<T>(iced_core::Size<T>);

/// An axis-aligned region, `iced_core::Rectangle`.
#[verifier::external_type_specification]
#[verifier::external_body]
#[verifier::reject_recursive_types(T)]
pub struct ExRectangle<T>(iced_core::Rectangle<T>);

/// How text glyphs are laid out, `iced_core::text::Shaping`.
#[verifier::external_type_specification]
#[verifier::external_body]
pub struct ExShaping(iced_core::text::Shaping);

/// Where the pointer is, `iced_core::mouse::Cursor`.
#[verifier::external_type_specification]
#[verifier::external_body]
pub struct ExCursor(iced_core::mouse::Cursor);

/// The pointer icon a widget asks for, `iced_core::mouse::Interaction`.
#[verifier::external_type_specification]
#[verifier::external_body]
pub struct ExInteraction(iced_core::mouse::Interaction);

/// What happened to the pointer, `iced_core::mouse::Event`.
#[verifier::external_type_specification]
#[verifier::external_body]
pub struct ExMouseEvent(iced_core::mouse::Event);

/// What happened on the keyboard, `iced_core::keyboard::Event`.
#[verifier::external_type_specification]
#[verifier::external_body]
pub struct ExKeyboardEvent(iced_core::keyboard::Event);

/// The space a widget may take, `iced_core::layout::Limits`.
#[verifier::external_type_specification]
#[verifier::external_body]
pub struct ExLimits(iced_core::layout::Limits);

/// A resolved layout node, `iced_core::layout::Node`.
#[verifier::external_type_specification]
#[verifier::external_body]
pub struct ExNode(iced_core::layout::Node);

/// A node placed on screen, `iced_core::Layout`.
#[verifier::external_type_specification]
#[verifier::external_body]
pub struct ExLayout<'a>(iced_core::Layout<'a>);

/// The channel back to the application, `iced_core::Shell`.
#[verifier::external_type_specification]
#[verifier::external_body]
#[verifier::reject_recursive_types(Message)]
pub struct ExShell<'a, Message>(iced_core::Shell<'a, Message>);

/// `Default::default` of the text shaping. Which mode that is depends on how
/// the toolkit was built, so nothing is claimed of it: contracts speak of it
/// as whatever this function gives.
pub assume_specification[ <iced_core::text::Shaping as Default>::default ]() -> (shaping:
    iced_core::text::Shaping)
;

/// `Shaping::default()`: the toolkit's default text shaping, and no other.
#[verifier::external_body]
pub(crate) fn default_shaping() -> (shaping: iced_core::text::Shaping)
    ensures
        call_ensures(<iced_core::text::Shaping as Default>::default, (), shaping),
{
    iced_core::text::Shaping::default()
}

/// `Clone::clone` of a keyboard event, which the toolkit derives: the copy
/// equals the event it was made from.
pub assume_specification[ <iced_core::keyboard::Event as Clone>::clone ](
    event: &iced_core::keyboard::Event,
) -> (copy: iced_core::keyboard::Event)
    ensures
        copy == *event,
;

/// The screen region of a placed node, as `Layout::bounds` gives it.
pub uninterp spec fn bounds_of(layout: iced_core::Layout<'_>) -> iced_core::Rectangle;

/// The size that `Limits::resolve` grants a widget without intrinsic size for
/// the given width and height.
pub uninterp spec fn resolved(
    limits: iced_core::layout::Limits,
    width: Sizing,
    height: Sizing,
) -> iced_core::Size;

/// The layout node that `Node::new` makes of a size.
pub uninterp spec fn leaf_of(size: iced_core::Size) -> iced_core::layout::Node;

/// `Layout::bounds`: the screen region of a placed node. It reads the node's
/// size and the layout's position, nothing else, so it is named by
/// `bounds_of`.
#[verifier::external_body]
pub(crate) fn layout_bounds(layout: iced_core::Layout<'_>) -> (bounds: iced_core::Rectangle)
    ensures
        bounds == bounds_of(layout),
{
    layout.bounds()
}

/// `Limits::resolve` with no intrinsic size (`Size::ZERO`), on the toolkit's
/// values for the two sizing strategies: `iced_core::Length` has the same
/// four variants as `Sizing`, and each is rebuilt from the fields of ours.
/// The size depends on the limits and the two strategies alone, so it is
/// named by `resolved`.
#[verifier::external_body]
pub(crate) fn resolve(limits: &iced_core::layout::Limits, width: Sizing, height: Sizing) -> (size:
    iced_core::Size)
    ensures
        size == resolved(*limits, width, height),
{
    let width = match width {
        Sizing::Fill => iced_core::Length::Fill,
        Sizing::FillPortion(share) => iced_core::Length::FillPortion(share),
        Sizing::Shrink => iced_core::Length::Shrink,
        Sizing::Fixed(amount) => iced_core::Length::Fixed(amount.0),
    };
    let height = match height {
        Sizing::Fill => iced_core::Length::Fill,
        Sizing::FillPortion(share) => iced_core::Length::FillPortion(share),
        Sizing::Shrink => iced_core::Length::Shrink,
        Sizing::Fixed(amount) => iced_core::Length::Fixed(amount.0),
    };
    limits.resolve(width, height, iced_core::Size::ZERO)
}

/// `Node::new`: a layout node of the given size without children, named by
/// `leaf_of`.
#[verifier::external_body]
pub(crate) fn leaf(size: iced_core::Size) -> (node: iced_core::layout::Node)
    ensures
        node == leaf_of(size),
{
    iced_core::layout::Node::new(size)
}

/// `Shell::is_empty`: whether no message has been published to the shell.
/// Nothing is claimed of the answer here; the contracts below say of which
/// shells it is `false`.
pub assume_specification<'a, Message>[ iced_core::Shell::<'a, Message>::is_empty ](
    shell: &iced_core::Shell<'a, Message>,
) -> (empty: bool)
;

/// `Shell::is_event_captured`: whether the current event has been marked as
/// captured. Nothing is claimed of the answer here; the contracts below say
/// of which shells it is `true`.
pub assume_specification<'a, Message>[ iced_core::Shell::<'a, Message>::is_event_captured ](
    shell: &iced_core::Shell<'a, Message>,
) -> (captured: bool)
;

/// True of a shell that holds a published message: one of which
/// `Shell::is_empty` answers `false`.
pub open spec fn holds_message<Message>(shell: iced_core::Shell<'_, Message>) -> bool {
    call_ensures(iced_core::Shell::<Message>::is_empty, (&shell,), false)
}

/// True of a shell whose event is consumed: one of which
/// `Shell::is_event_captured` answers `true`.
pub open spec fn holds_capture<Message>(shell: iced_core::Shell<'_, Message>) -> bool {
    call_ensures(iced_core::Shell::<Message>::is_event_captured, (&shell,), true)
}

/// `Shell::publish`: hands a message to the application by pushing it onto
/// the shell's messages, so the shell is not empty afterwards. It touches
/// nothing else, so the event is captured afterwards where it was before.
/// Which messages the shell holds cannot be read back from it, and nothing
/// more is claimed.
#[verifier::external_body]
pub(crate) fn publish<Message>(shell: &mut iced_core::Shell<'_, Message>, message: Message)
    ensures
        holds_message(*final(shell)),
        holds_capture(*final(shell)) == holds_capture(*old(shell)),
{
    shell.publish(message);
}

/// `Shell::capture_event`: marks the current event as captured. It sets the
/// event's status and touches nothing else, so the shell holds a message
/// afterwards where it held one before.
#[verifier::external_body]
pub(crate) fn capture_event<Message>(shell: &mut iced_core::Shell<'_, Message>)
    ensures
        holds_capture(*final(shell)),
        holds_message(*final(shell)) == holds_message(*old(shell)),
{
    shell.capture_event();
}

} // verus!
