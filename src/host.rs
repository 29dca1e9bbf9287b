//! The host toolkit's types that a table carries, and the host conversions and
//! orderings that it relies on.
use vstd::prelude::*;

use iced_core::mouse::Interaction;
use iced_core::Length as HostLength;

verus! {

/// The horizontal alignment of a cell's content; carried through unchanged.
#[verifier::external_type_specification]
#[verifier::external_body]
pub struct ExHorizontal(iced_core::alignment::Horizontal);

/// The vertical alignment of a cell's content; carried through unchanged.
#[verifier::external_type_specification]
#[verifier::external_body]
pub struct ExVertical(iced_core::alignment::Vertical);

/// The space around a cell's or a table's content; carried through unchanged.
#[verifier::external_type_specification]
#[verifier::external_body]
pub struct ExPadding(iced_core::Padding);

/// The fill painted behind a row; carried through unchanged.
#[verifier::external_type_specification]
#[verifier::external_body]
pub struct ExBackground(iced_core::Background);

/// The host's sizing policy, whose variants the table chooses between.
#[verifier::external_type_specification]
pub struct ExHostLength(HostLength);

/// The kind of cursor that a widget asks for; the table picks among its rows'.
#[verifier::external_type_specification]
pub struct ExInteraction(Interaction);

/// The place of an interaction in the order of the variants' declaration,
/// which is the order that its derived `Ord` follows.
pub open spec fn interaction_rank(i: Interaction) -> int {
    match i {
        Interaction::Idle => 0,
        Interaction::Pointer => 1,
        Interaction::Grab => 2,
        Interaction::Text => 3,
        Interaction::Crosshair => 4,
        Interaction::Working => 5,
        Interaction::Grabbing => 6,
        Interaction::ResizingHorizontally => 7,
        Interaction::ResizingVertically => 8,
    }
}

/// Relies on the `Ord` that iced_core derives for `mouse::Interaction`: it
/// compares the variants by their order of declaration.
pub assume_specification[ <Interaction as core::cmp::Ord>::cmp ](
    a: &Interaction,
    b: &Interaction,
) -> (r: core::cmp::Ordering)
    ensures
        interaction_rank(*a) < interaction_rank(*b) ==> r == core::cmp::Ordering::Less,
        interaction_rank(*a) == interaction_rank(*b) ==> r == core::cmp::Ordering::Equal,
        interaction_rank(*a) > interaction_rank(*b) ==> r == core::cmp::Ordering::Greater,
;

/// The host's fixed length of the given number of pixels.
pub uninterp spec fn fixed_units(units: u16) -> HostLength;

/// The host's padding of the given number of pixels on every side.
pub uninterp spec fn uniform_padding(units: u16) -> iced_core::Padding;

/// Relies on `From<u16> for iced_core::Length`, which gives a fixed length of
/// that many pixels.
#[verifier::external_body]
pub(crate) fn fixed_length(units: u16) -> (r: HostLength)
    ensures
        r == fixed_units(units),
        r is Fixed,
{
    HostLength::from(units)
}

/// Relies on `From<u16> for iced_core::Padding`, which pads every side by that
/// many pixels.
#[verifier::external_body]
pub(crate) fn padding_of_units(units: u16) -> (r: iced_core::Padding)
    ensures
        r == uniform_padding(units),
{
    iced_core::Padding::from(units)
}

} // verus!
