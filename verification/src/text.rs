//! Descriptions of fonts: family, weight, width and style.

use vstd::prelude::*;

pub mod fontdb;

pub use fontdb::{FontDb, FontDescription, FontId};

verus! {

/// The weight of a font, by name or by number.
#[derive(Copy, Clone, Debug, Hash, Eq, PartialEq, Structural)]
pub enum Weight {
    Thin,
    ExtraLight,
    Light,
    Normal,
    Medium,
    SemiBold,
    Bold,
    ExtraBold,
    Black,
    Value(u16),
}

impl Weight {
    /// The weight with a given number: the hundreds from 100 to 900 have
    /// names.
    pub open spec fn spec_from_value(value: u16) -> Weight {
        if value == 100 {
            Weight::Thin
        } else if value == 200 {
            Weight::ExtraLight
        } else if value == 300 {
            Weight::Light
        } else if value == 400 {
            Weight::Normal
        } else if value == 500 {
            Weight::Medium
        } else if value == 600 {
            Weight::SemiBold
        } else if value == 700 {
            Weight::Bold
        } else if value == 800 {
            Weight::ExtraBold
        } else if value == 900 {
            Weight::Black
        } else {
            Weight::Value(value)
        }
    }

    pub fn from_value(value: u16) -> (weight: Weight)
        ensures
            weight == Self::spec_from_value(value),
    {
        match value {
            100 => Weight::Thin,
            200 => Weight::ExtraLight,
            300 => Weight::Light,
            400 => Weight::Normal,
            500 => Weight::Medium,
            600 => Weight::SemiBold,
            700 => Weight::Bold,
            800 => Weight::ExtraBold,
            900 => Weight::Black,
            _ => Weight::Value(value),
        }
    }
}

/// The width of a font, from narrowest to widest.
#[derive(Copy, Clone, Debug, Hash, Eq, PartialEq, Structural)]
pub enum WidthClass {
    UltraCondensed,
    ExtraCondensed,
    Condensed,
    SemiCondensed,
    Normal,
    SemiExpanded,
    Expanded,
    ExtraExpanded,
    UltraExpanded,
}

impl WidthClass {
    /// The width with a given number from 1 to 9; any other number is
    /// the normal width.
    pub open spec fn spec_from_value(value: u16) -> WidthClass {
        if value == 1 {
            WidthClass::UltraCondensed
        } else if value == 2 {
            WidthClass::ExtraCondensed
        } else if value == 3 {
            WidthClass::Condensed
        } else if value == 4 {
            WidthClass::SemiCondensed
        } else if value == 6 {
            WidthClass::SemiExpanded
        } else if value == 7 {
            WidthClass::Expanded
        } else if value == 8 {
            WidthClass::ExtraExpanded
        } else if value == 9 {
            WidthClass::UltraExpanded
        } else {
            WidthClass::Normal
        }
    }

    pub fn from_value(value: u16) -> (width: WidthClass)
        ensures
            width == Self::spec_from_value(value),
    {
        match value {
            1 => WidthClass::UltraCondensed,
            2 => WidthClass::ExtraCondensed,
            3 => WidthClass::Condensed,
            4 => WidthClass::SemiCondensed,
            6 => WidthClass::SemiExpanded,
            7 => WidthClass::Expanded,
            8 => WidthClass::ExtraExpanded,
            9 => WidthClass::UltraExpanded,
            _ => WidthClass::Normal,
        }
    }
}

/// The slant of a font.
#[derive(Copy, Clone, Debug, Hash, Eq, PartialEq, Structural)]
pub enum FontStyle {
    Normal,
    Italic,
    Oblique,
}

} // verus!
