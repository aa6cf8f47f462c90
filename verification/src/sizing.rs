//! Sizing strategies of a widget.
use vstd::prelude::*;

verus! {

/// How a widget fills space in one dimension.
#[derive(Clone, Copy, Debug, PartialEq)]
pub enum Sizing {
    /// Take all the remaining space.
    Fill,
    /// Take a share of the remaining space, relative to the neighbours.
    FillPortion(u16),
    /// Take as little space as possible.
    Shrink,
    /// Take exactly this much space.
    Fixed(iced_core::Pixels),
}

/// The sizing strategies of a widget in both dimensions.
#[derive(Clone, Copy, Debug, PartialEq)]
pub struct Dimensions {
    pub width: Sizing,
    pub height: Sizing,
}

} // verus!
