//! The terminal text-appearance value that every theme field holds.
//!
//! A `Style` is an immutable, plain value: a foreground and background
//! colour choice plus bold and underline flags. It carries no behaviour of
//! its own — turning it into escape sequences is a consumer's concern.

use vstd::prelude::*;

verus! {

/// A terminal colour choice. `Unset` means the terminal's own default
/// colour; `Fixed` picks an entry of the 256-colour palette.
#[derive(Clone, Copy, Debug, PartialEq, Eq, Structural)]
pub enum Colour {
    Unset,
    Red,
    Green,
    Yellow,
    Blue,
    Cyan,
    Purple,
    Fixed(u8),
}

/// A terminal text appearance: colours plus attribute flags. Equality is
/// structural, and values are cheap to copy; no two theme fields share one.
#[derive(Clone, Copy, Debug, PartialEq, Eq, Structural)]
pub struct Style {
    pub foreground: Colour,
    pub background: Colour,
    pub is_bold: bool,
    pub is_underline: bool,
}

impl Style {
    /// The neutral style: no colours, no attributes. This is the value a
    /// theme with no intentional styling uses for every field.
    pub open spec fn spec_default() -> Style {
        Style {
            foreground: Colour::Unset,
            background: Colour::Unset,
            is_bold: false,
            is_underline: false,
        }
    }

    pub open spec fn spec_underline(self) -> Style {
        Style { is_underline: true, ..self }
    }

    /// The same style with the underline flag switched on.
    #[verifier::when_used_as_spec(spec_underline)]
    pub fn underline(self) -> (r: Style)
        ensures
            r == self.spec_underline(),
    {
        Style { is_underline: true, ..self }
    }
}

impl Default for Style {
    /// The neutral style.
    fn default() -> (r: Style)
        ensures
            r == Style::spec_default(),
    {
        Style {
            foreground: Colour::Unset,
            background: Colour::Unset,
            is_bold: false,
            is_underline: false,
        }
    }
}

impl Colour {
    pub open spec fn spec_normal(self) -> Style {
        Style {
            foreground: self,
            background: Colour::Unset,
            is_bold: false,
            is_underline: false,
        }
    }

    /// A style with this foreground colour and no attributes.
    #[verifier::when_used_as_spec(spec_normal)]
    pub fn normal(self) -> (r: Style)
        ensures
            r == self.spec_normal(),
    {
        Style {
            foreground: self,
            background: Colour::Unset,
            is_bold: false,
            is_underline: false,
        }
    }

    pub open spec fn spec_bold(self) -> Style {
        Style {
            foreground: self,
            background: Colour::Unset,
            is_bold: true,
            is_underline: false,
        }
    }

    /// A bold style with this foreground colour.
    #[verifier::when_used_as_spec(spec_bold)]
    pub fn bold(self) -> (r: Style)
        ensures
            r == self.spec_bold(),
    {
        Style {
            foreground: self,
            background: Colour::Unset,
            is_bold: true,
            is_underline: false,
        }
    }

    pub open spec fn spec_underline(self) -> Style {
        Style {
            foreground: self,
            background: Colour::Unset,
            is_bold: false,
            is_underline: true,
        }
    }

    /// An underlined style with this foreground colour.
    #[verifier::when_used_as_spec(spec_underline)]
    pub fn underline(self) -> (r: Style)
        ensures
            r == self.spec_underline(),
    {
        Style {
            foreground: self,
            background: Colour::Unset,
            is_bold: false,
            is_underline: true,
        }
    }

    pub open spec fn spec_on(self, background: Colour) -> Style {
        Style {
            foreground: self,
            background: background,
            is_bold: false,
            is_underline: false,
        }
    }

    /// A style with this foreground over the given background colour.
    #[verifier::when_used_as_spec(spec_on)]
    pub fn on(self, background: Colour) -> (r: Style)
        ensures
            r == self.spec_on(background),
    {
        Style {
            foreground: self,
            background: background,
            is_bold: false,
            is_underline: false,
        }
    }
}

} // verus!
