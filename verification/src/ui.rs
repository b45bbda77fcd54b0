//! The palette of the interface.

use vstd::prelude::*;
use crate::notifications::Color;

verus! {

/// The accent colour of what is selected.
pub open spec fn brand_color() -> Color {
    Color::Rgb(27, 217, 106)
}

/// The accent colour of what is selected.
#[verifier::when_used_as_spec(brand_color)]
pub fn brand() -> (color: Color)
    ensures
        color == brand_color(),
{
    Color::Rgb(27, 217, 106)
}

/// The colour of warnings.
pub open spec fn orange_color() -> Color {
    Color::Rgb(255, 163, 71)
}

/// The colour of warnings.
#[verifier::when_used_as_spec(orange_color)]
pub fn orange() -> (color: Color)
    ensures
        color == orange_color(),
{
    Color::Rgb(255, 163, 71)
}

/// The colour of failures.
pub open spec fn danger_color() -> Color {
    Color::Rgb(255, 73, 110)
}

/// The colour of failures.
#[verifier::when_used_as_spec(danger_color)]
pub fn danger() -> (color: Color)
    ensures
        color == danger_color(),
{
    Color::Rgb(255, 73, 110)
}

/// The colour of plain text.
pub open spec fn text_color() -> Color {
    Color::Rgb(176, 186, 197)
}

/// The colour of plain text.
#[verifier::when_used_as_spec(text_color)]
pub fn text() -> (color: Color)
    ensures
        color == text_color(),
{
    Color::Rgb(176, 186, 197)
}

/// The colour of borders and of what is not selected.
pub open spec fn secondary_color() -> Color {
    Color::Rgb(150, 162, 176)
}

/// The colour of borders and of what is not selected.
#[verifier::when_used_as_spec(secondary_color)]
pub fn secondary() -> (color: Color)
    ensures
        color == secondary_color(),
{
    Color::Rgb(150, 162, 176)
}

} // verus!
