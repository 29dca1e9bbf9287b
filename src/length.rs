//! The width policy of a column.
use vstd::prelude::*;

use crate::host::{fixed_length, fixed_units};

verus! {

/// The width of a column: the host's lengths, without shrinking to content.
#[derive(Debug, Clone, Copy, PartialEq, Eq, Structural)]
pub enum Length {
    /// Takes all the space that is left.
    Fill,
    /// Takes a weighted share of the space that is left.
    FillPortion(u16),
    /// Takes exactly this many pixels.
    Fixed(u16),
}

/// The host length that a column width stands for.
pub open spec fn core_length(l: Length) -> iced_core::Length {
    match l {
        Length::Fill => iced_core::Length::Fill,
        Length::FillPortion(p) => iced_core::Length::FillPortion(p),
        Length::Fixed(units) => fixed_units(units),
    }
}

impl From<Length> for iced_core::Length {
    fn from(value: Length) -> (r: iced_core::Length) {
        match value {
            Length::Fill => iced_core::Length::Fill,
            Length::FillPortion(p) => iced_core::Length::FillPortion(p),
            Length::Fixed(units) => fixed_length(units),
        }
    }
}

impl vstd::std_specs::convert::FromSpecImpl<Length> for iced_core::Length {
    open spec fn obeys_from_spec() -> bool {
        true
    }

    open spec fn from_spec(v: Length) -> iced_core::Length {
        core_length(v)
    }
}

} // verus!
