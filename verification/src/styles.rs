//! Combinable terminal text styles rendered as ANSI escape codes.
//!
//! A `Styles` value is a set of styles held as a bit mask; rendering emits
//! the escape code of each chosen style, in a fixed order. Not all terminals
//! support these codes.

use vstd::prelude::*;
use vstd::string::StringExecFns;

verus! {

/// How many distinct styles there are, one bit each.
pub const STYLE_COUNT: u8 = 6;

/// A set of text styles, one bit per style.
#[derive(Clone, Copy, Debug, PartialEq, Eq, Structural)]
pub struct Styles(u8);

/// The escape code of the style at one bit position.
pub open spec fn style_code(i: int) -> Seq<char> {
    if i == 0 {
        "\x1b[0m"@
    } else if i == 1 {
        "\x1b[1m"@
    } else if i == 2 {
        "\x1b[3m"@
    } else if i == 3 {
        "\x1b[4m"@
    } else if i == 4 {
        "\x1b[9m"@
    } else {
        "\x1b[8m"@
    }
}

/// The codes of the styles among the first `k` bits of `mask` that are set,
/// concatenated in bit order.
pub open spec fn styles_string_upto(mask: u8, k: int) -> Seq<char>
    decreases k,
{
    if k <= 0 {
        Seq::<char>::empty()
    } else {
        styles_string_upto(mask, k - 1) + if (mask >> ((k - 1) as u8)) & 1 == 1 {
            style_code(k - 1)
        } else {
            Seq::<char>::empty()
        }
    }
}

/// The rendering of a whole style mask: the codes of all chosen styles.
pub open spec fn styles_string(mask: u8) -> Seq<char> {
    styles_string_upto(mask, STYLE_COUNT as int)
}

impl Styles {
    /// The bit mask: which styles are chosen.
    pub closed spec fn mask(&self) -> u8 {
        self.0
    }

    /// The style that clears all styling.
    pub fn reset() -> (s: Self)
        ensures
            s.mask() == 1u8,
    {
        Styles(1)
    }

    /// Bold text.
    pub fn bold() -> (s: Self)
        ensures
            s.mask() == 2u8,
    {
        Styles(2)
    }

    /// Italic text.
    pub fn italic() -> (s: Self)
        ensures
            s.mask() == 4u8,
    {
        Styles(4)
    }

    /// Underlined text.
    pub fn underline() -> (s: Self)
        ensures
            s.mask() == 8u8,
    {
        Styles(8)
    }

    /// Struck-through text.
    pub fn strikethrough() -> (s: Self)
        ensures
            s.mask() == 16u8,
    {
        Styles(16)
    }

    /// Hidden text.
    pub fn hidden() -> (s: Self)
        ensures
            s.mask() == 32u8,
    {
        Styles(32)
    }

    /// Combine two sets of styles: the union of the chosen bits.
    pub fn bitor(self, rhs: Self) -> (s: Self)
        ensures
            s.mask() == self.mask() | rhs.mask(),
    {
        Styles(self.0 | rhs.0)
    }

    /// The escape code of the style at bit position `i`.
    fn code_at(i: u8) -> (r: &'static str)
        requires
            i < STYLE_COUNT,
        ensures
            r@ == style_code(i as int),
    {
        if i == 0 {
            "\x1b[0m"
        } else if i == 1 {
            "\x1b[1m"
        } else if i == 2 {
            "\x1b[3m"
        } else if i == 3 {
            "\x1b[4m"
        } else if i == 4 {
            "\x1b[9m"
        } else {
            "\x1b[8m"
        }
    }

    /// Render the chosen styles: the codes of all set bits, in bit order.
    pub fn styles_as_string(&self) -> (r: String)
        ensures
            r@ == styles_string(self.mask()),
    {
        let mut combined_styles = String::new();
        let mut i: u8 = 0;
        while i < STYLE_COUNT
            invariant
                i <= STYLE_COUNT,
                combined_styles@ == styles_string_upto(self.mask(), i as int),
            decreases STYLE_COUNT - i,
        {
            let bit = (self.0 >> i) & 1;
            if bit == 1 {
                combined_styles.append(Self::code_at(i));
            }
            i = i + 1;
        }
        combined_styles
    }

    /// Render the chosen styles, consuming the set.
    pub fn style(self) -> (r: String)
        ensures
            r@ == styles_string(self.mask()),
    {
        self.styles_as_string()
    }
}

} // verus!
