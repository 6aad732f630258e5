//! Translation between the native font-style bit set and a semantic value.
//!
//! The native library encodes a font's render style as a bit set over four
//! flags (bold, italic, underline, strike-through; the empty set is the
//! normal style).  `FontStyle` is the semantic side of that boundary: a
//! record of the four flags.  Encoding is exact, and decoding rejects any
//! native value carrying unknown bits instead of silently truncating it, so
//! the translation is lossless in both directions.

use vstd::prelude::*;

verus! {

/// Native bit for the bold style flag.
pub const STYLE_BOLD: u32 = 1;
/// Native bit for the italic style flag.
pub const STYLE_ITALIC: u32 = 2;
/// Native bit for the underline style flag.
pub const STYLE_UNDERLINE: u32 = 4;
/// Native bit for the strike-through style flag.
pub const STYLE_STRIKETHROUGH: u32 = 8;

/// A font render style: a set of four independent flags.  All flags off is
/// the native library's normal style.
#[derive(Clone, Copy, Debug, PartialEq, Eq, Structural)]
pub struct FontStyle {
    pub bold: bool,
    pub italic: bool,
    pub underline: bool,
    pub strikethrough: bool,
}

/// The native bit pattern of a style: the sum of the bits of its set flags.
pub open spec fn style_bits(s: FontStyle) -> u32 {
    ((if s.bold { STYLE_BOLD } else { 0 })
        + (if s.italic { STYLE_ITALIC } else { 0 })
        + (if s.underline { STYLE_UNDERLINE } else { 0 })
        + (if s.strikethrough { STYLE_STRIKETHROUGH } else { 0 })) as u32
}

/// Whether a native value uses only the four known style bits.
pub open spec fn style_bits_valid(bits: u32) -> bool {
    bits <= 15
}

/// The style a valid native bit pattern denotes.
pub open spec fn style_of_bits(bits: u32) -> FontStyle
    recommends
        style_bits_valid(bits),
{
    FontStyle {
        strikethrough: bits % 16 >= 8,
        underline: bits % 8 >= 4,
        italic: bits % 4 >= 2,
        bold: bits % 2 >= 1,
    }
}

impl FontStyle {
    /// The style with every flag off: the native library's normal style.
    pub fn normal() -> (r: FontStyle)
        ensures
            style_bits(r) == 0,
    {
        FontStyle { bold: false, italic: false, underline: false, strikethrough: false }
    }

    /// Encode this style as the native bit pattern.
    pub fn encode(self) -> (r: u32)
        ensures
            r == style_bits(self),
            style_bits_valid(r),
    {
        (if self.bold { STYLE_BOLD } else { 0 })
            + (if self.italic { STYLE_ITALIC } else { 0 })
            + (if self.underline { STYLE_UNDERLINE } else { 0 })
            + (if self.strikethrough { STYLE_STRIKETHROUGH } else { 0 })
    }

    /// Decode a native bit pattern.  A value carrying any bit outside the
    /// four known flags is unknown to this translation layer and is rejected
    /// rather than truncated.
    pub fn decode(bits: u32) -> (r: Option<FontStyle>)
        ensures
            r is Some <==> style_bits_valid(bits),
            r matches Some(s) ==> s == style_of_bits(bits),
    {
        if bits > 15 {
            None
        } else {
            let mut rest: u32 = bits;
            let strikethrough: bool = rest >= 8;
            if strikethrough {
                rest = rest - 8;
            }
            let underline: bool = rest >= 4;
            if underline {
                rest = rest - 4;
            }
            let italic: bool = rest >= 2;
            if italic {
                rest = rest - 2;
            }
            let bold: bool = rest >= 1;
            Some(FontStyle { bold, italic, underline, strikethrough })
        }
    }
}

/// Round trip from the semantic side: every style decodes back from its own
/// encoding, so no style information is lost crossing the native boundary.
pub proof fn lemma_style_round_trip(s: FontStyle)
    ensures
        style_bits_valid(style_bits(s)),
        style_of_bits(style_bits(s)) == s,
{
}

/// Round trip from the native side: every valid native bit pattern re-encodes
/// to itself, so translating a native style in and out changes nothing.
pub proof fn lemma_style_bits_round_trip(bits: u32)
    requires
        style_bits_valid(bits),
    ensures
        style_bits(style_of_bits(bits)) == bits,
{
}

} // verus!
