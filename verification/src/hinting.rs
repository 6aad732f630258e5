//! Translation between the native hinter setting and a semantic value.
//!
//! The native library reports the freetype hinter setting as a small integer
//! constant.  `Hinting` is the semantic side: one tagged variant per known
//! constant.  Decoding rejects any other integer rather than trusting a
//! numeric cast, so an unknown native value can never masquerade as a valid
//! setting.

use vstd::prelude::*;

verus! {

/// A freetype hinter setting.
#[derive(Clone, Copy, Debug, PartialEq, Eq, Structural)]
pub enum Hinting {
    HintingNormal,
    HintingLight,
    HintingMono,
    HintingNone,
}

/// The native constant of a hinter setting.
pub open spec fn hinting_value(h: Hinting) -> u32 {
    match h {
        Hinting::HintingNormal => 0,
        Hinting::HintingLight => 1,
        Hinting::HintingMono => 2,
        Hinting::HintingNone => 3,
    }
}

/// Whether a native value is one of the known hinter constants.
pub open spec fn hinting_value_valid(v: u32) -> bool {
    v <= 3
}

/// The hinter setting a valid native constant denotes.
pub open spec fn hinting_of_value(v: u32) -> Hinting
    recommends
        hinting_value_valid(v),
{
    if v == 0 {
        Hinting::HintingNormal
    } else if v == 1 {
        Hinting::HintingLight
    } else if v == 2 {
        Hinting::HintingMono
    } else {
        Hinting::HintingNone
    }
}

impl Hinting {
    /// Encode this hinter setting as the native constant.
    pub fn encode(self) -> (r: u32)
        ensures
            r == hinting_value(self),
            hinting_value_valid(r),
    {
        match self {
            Hinting::HintingNormal => 0,
            Hinting::HintingLight => 1,
            Hinting::HintingMono => 2,
            Hinting::HintingNone => 3,
        }
    }

    /// Decode a native constant.  Any value outside the known constants is
    /// rejected rather than cast to a variant.
    pub fn decode(v: u32) -> (r: Option<Hinting>)
        ensures
            r is Some <==> hinting_value_valid(v),
            r matches Some(h) ==> h == hinting_of_value(v),
    {
        if v == 0 {
            Some(Hinting::HintingNormal)
        } else if v == 1 {
            Some(Hinting::HintingLight)
        } else if v == 2 {
            Some(Hinting::HintingMono)
        } else if v == 3 {
            Some(Hinting::HintingNone)
        } else {
            None
        }
    }
}

/// Round trip from the semantic side: every hinter setting decodes back from
/// its own native constant.
pub proof fn lemma_hinting_round_trip(h: Hinting)
    ensures
        hinting_value_valid(hinting_value(h)),
        hinting_of_value(hinting_value(h)) == h,
{
}

/// Round trip from the native side: every known native constant re-encodes
/// to itself.
pub proof fn lemma_hinting_value_round_trip(v: u32)
    requires
        hinting_value_valid(v),
    ensures
        hinting_value(hinting_of_value(v)) == v,
{
}

} // verus!
